use std::path::{Path, PathBuf};

use mcp_compressor_core::paths::{
    candidate_script_dirs_for, cli_output_dir, current_output_dir, listed, paths_equal,
    select_script_dir, CandidateDir, OutputDir, ResolvedDir,
};

fn joined(candidates: Vec<CandidateDir<&Path>>) -> Vec<PathBuf> {
    candidates
        .into_iter()
        .map(|candidate| match candidate {
            CandidateDir::UnderHome { home, segments } => segments
                .iter()
                .fold(home.to_path_buf(), |path, segment| path.join(segment)),
            CandidateDir::Shared(path) => PathBuf::from(path),
        })
        .collect()
}

fn encoded(path: &Path) -> Vec<u8> {
    path.as_os_str().as_encoded_bytes().to_vec()
}

fn resolved(path: &Path, is_dir: bool) -> ResolvedDir<PathBuf> {
    ResolvedDir {
        path: path.to_path_buf(),
        encoded: encoded(path),
        is_dir,
    }
}

#[test]
fn windows_only_offers_the_user_owned_directory() {
    let candidates = candidate_script_dirs_for(
        true,
        Some(Path::new(r"C:\Users\dev")),
        Some(Path::new(r"C:\Users\fallback")),
    );

    assert_eq!(
        joined(candidates),
        vec![PathBuf::from(r"C:\Users\dev").join(".local").join("bin")]
    );
}

#[test]
fn windows_uses_userprofile_when_home_is_missing() {
    let candidates = candidate_script_dirs_for(true, None, Some(Path::new(r"C:\Users\dev")));

    assert_eq!(
        joined(candidates),
        vec![PathBuf::from(r"C:\Users\dev").join(".local").join("bin")]
    );
}

#[test]
fn windows_has_no_implicit_install_directory_without_a_home_directory() {
    let candidates = candidate_script_dirs_for::<&Path>(true, None, None);

    assert!(candidates.is_empty());
}

#[test]
fn unix_does_not_use_userprofile_when_home_is_missing() {
    let candidates = candidate_script_dirs_for(false, None, Some(Path::new("/windows/profile")));

    assert_eq!(
        joined(candidates),
        vec![
            PathBuf::from("/usr/local/bin"),
            PathBuf::from("/opt/homebrew/bin"),
        ]
    );
}

#[test]
fn windows_reports_nonexistent_user_owned_directory_as_on_path_when_listed() {
    let tempdir = tempfile::tempdir().unwrap();
    let user_bin = tempdir.path().join(".local").join("bin");
    assert!(!user_bin.exists());

    let selected = select_script_dir(true, vec![resolved(&user_bin, false)], &[encoded(&user_bin)]);

    assert_eq!(selected, Some((user_bin, true)));
}

#[test]
fn windows_takes_the_user_owned_directory_even_when_only_another_one_is_on_path() {
    let tempdir = tempfile::tempdir().unwrap();
    let user_bin = tempdir.path().join(".local").join("bin");
    let windows_apps = tempdir.path().to_path_buf();

    let selected = select_script_dir(
        true,
        vec![resolved(&user_bin, false), resolved(&windows_apps, true)],
        &[encoded(&windows_apps)],
    );

    assert_eq!(selected, Some((user_bin, false)));
}

#[test]
fn windows_matches_nonexistent_path_entries_case_insensitively() {
    let user_bin = PathBuf::from(r"C:\Users\dev\.local\bin");
    let listed_path = PathBuf::from(r"c:\users\DEV\.LOCAL\BIN");

    let selected = select_script_dir(
        true,
        vec![resolved(&user_bin, false)],
        &[encoded(&listed_path)],
    );

    assert_eq!(selected, Some((user_bin, true)));
}

#[test]
fn unix_ranks_user_directories_before_shared_prefixes() {
    let candidates = candidate_script_dirs_for(false, Some(Path::new("/home/dev")), None);

    assert_eq!(
        joined(candidates),
        vec![
            PathBuf::from("/home/dev/.local/bin"),
            PathBuf::from("/home/dev/bin"),
            PathBuf::from("/usr/local/bin"),
            PathBuf::from("/opt/homebrew/bin"),
        ]
    );
}

#[test]
fn windows_without_candidates_selects_nothing() {
    let selected = select_script_dir::<PathBuf>(true, vec![], &[encoded(Path::new("/bin"))]);
    assert_eq!(selected, None);
}

#[test]
fn unix_selects_the_first_existing_directory_on_path() {
    let missing = Path::new("/home/dev/.local/bin");
    let off_path = Path::new("/home/dev/bin");
    let listed = Path::new("/usr/local/bin");
    let also_listed = Path::new("/opt/homebrew/bin");
    let selected = select_script_dir(
        false,
        vec![
            resolved(missing, false),
            resolved(off_path, true),
            resolved(listed, true),
            resolved(also_listed, true),
        ],
        &[encoded(missing), encoded(also_listed), encoded(listed)],
    );
    assert_eq!(selected, Some((listed.to_path_buf(), true)));
}

#[test]
fn unix_does_not_ignore_case() {
    let dir = Path::new("/usr/local/bin");
    let selected = select_script_dir(
        false,
        vec![resolved(dir, true)],
        &[encoded(Path::new("/usr/local/BIN"))],
    );
    assert_eq!(selected, None);
}

#[test]
fn paths_compare_as_the_standard_library_compares_them() {
    let samples = [
        "", "/", "//", ".", "./", "./a", "a", "a/", "a/.", "a//b", "a/./b", "a/b", "/a/b", "/a/b/",
        "..", "a/..", "../a", "/.", "/./a", "/a", "./.", ".a", "a.", "...", "/..",
    ];
    for left in samples {
        for right in samples {
            assert_eq!(
                paths_equal(&encoded(Path::new(left)), &encoded(Path::new(right))),
                Path::new(left) == Path::new(right),
                "{left:?} and {right:?}"
            );
        }
    }
}

#[test]
fn redundant_pieces_do_not_hide_a_path_entry() {
    let dir = Path::new("/usr/local/bin");
    let selected = select_script_dir(
        false,
        vec![resolved(dir, true)],
        &[b"/usr//local/./bin/".to_vec()],
    );
    assert_eq!(selected, Some((dir.to_path_buf(), true)));
}

#[test]
fn configured_directory_goes_first() {
    let listed_dir = Path::new("/usr/local/bin");
    let configured = Path::new("/configured");
    let output = cli_output_dir(
        Some(resolved(configured, true)),
        false,
        vec![resolved(listed_dir, true)],
        &[encoded(listed_dir)],
    );
    assert!(matches!(output, OutputDir::Chosen(path, false) if path == configured));
}

#[test]
fn configured_directory_is_on_path_only_when_listed() {
    let configured = Path::new("/configured");
    for (windows, path_dirs, expected) in [
        (false, vec![], false),
        (false, vec!["/configured/"], true),
        (false, vec!["/CONFIGURED"], false),
        (true, vec!["/other", "/CONFIGURED"], true),
        (true, vec![], false),
    ] {
        let path_dirs: Vec<Vec<u8>> = path_dirs
            .into_iter()
            .map(|dir| encoded(Path::new(dir)))
            .collect();
        let output = cli_output_dir(Some(resolved(configured, false)), windows, vec![], &path_dirs);
        assert!(
            matches!(output, OutputDir::Chosen(path, on_path)
                if path == configured && on_path == expected)
        );
    }
}

#[test]
fn configured_directory_stays_as_it_is_written() {
    let configured = ResolvedDir {
        path: PathBuf::from("relative/link"),
        encoded: encoded(Path::new("/real/place")),
        is_dir: true,
    };
    let path_dirs = [encoded(Path::new("/real/place"))];
    let output = cli_output_dir(Some(configured), false, vec![], &path_dirs);
    assert!(matches!(
        output,
        OutputDir::Chosen(path, true) if path == PathBuf::from("relative/link")
    ));
}

#[test]
fn current_directory_is_on_path_only_when_listed() {
    let current = Path::new("/work");
    let output = current_output_dir(resolved(current, true), false, &[encoded(current)]);
    assert_eq!(output, (current.to_path_buf(), true));
    let output = current_output_dir(resolved(current, true), false, &[]);
    assert_eq!(output, (current.to_path_buf(), false));
    assert!(listed(true, &[encoded(Path::new("/WORK"))], &encoded(current)));
    assert!(!listed(false, &[encoded(Path::new("/WORK"))], &encoded(current)));
}

#[test]
fn best_candidate_goes_before_the_current_directory() {
    let listed = Path::new("/usr/local/bin");
    let output = cli_output_dir(None, false, vec![resolved(listed, true)], &[encoded(listed)]);
    assert!(matches!(output, OutputDir::Chosen(path, true) if path == listed));
    let output = cli_output_dir(None, true, vec![resolved(listed, true)], &[]);
    assert!(matches!(output, OutputDir::Chosen(path, false) if path == listed));
}

#[test]
fn current_directory_comes_last() {
    let off_path = resolved(Path::new("/usr/local/bin"), true);
    let output = cli_output_dir(None, false, vec![off_path], &[]);
    assert!(matches!(output, OutputDir::Current));
}
