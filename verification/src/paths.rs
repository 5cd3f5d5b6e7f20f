//! Where generated command-line scripts are installed.

use vstd::prelude::*;

verus! {

/// The byte that separates the components of a path.
pub const SEPARATOR: u8 = 0x2f;

/// The byte of the component that stands for the directory itself.
pub const DOT: u8 = 0x2e;

/// A directory that scripts may be installed into: below a home directory, or at
/// a fixed place.
#[derive(Debug)]
pub enum CandidateDir<P> {
    /// The directory reached from `home` by `segments`, one below the other.
    UnderHome {
        /// The home directory.
        home: P,
        /// The names that lead to the directory.
        segments: Vec<&'static str>,
    },
    /// A directory shared by all users.
    Shared(&'static str),
}

/// What a `CandidateDir` says.
pub enum CandidateView<P> {
    UnderHome(P, Seq<Seq<char>>),
    Shared(Seq<char>),
}

impl<P> View for CandidateDir<P> {
    type V = CandidateView<P>;

    open spec fn view(&self) -> CandidateView<P> {
        match self {
            CandidateDir::UnderHome { home, segments } => CandidateView::UnderHome(
                *home,
                segments@.map_values(|segment: &str| segment@),
            ),
            CandidateDir::Shared(path) => CandidateView::Shared(path@),
        }
    }
}

/// The views of a list of candidates.
pub open spec fn candidate_views<P>(candidates: Seq<CandidateDir<P>>) -> Seq<CandidateView<P>> {
    candidates.map_values(|candidate: CandidateDir<P>| candidate@)
}

/// The home directory that counts: Windows falls back to the user profile.
pub open spec fn effective_home<P>(
    windows: bool,
    home: Option<P>,
    user_profile: Option<P>,
) -> Option<P> {
    if windows && home is None {
        user_profile
    } else {
        home
    }
}

/// The directories that a user owns, best first.
pub open spec fn user_dirs<P>(windows: bool, home: Option<P>) -> Seq<CandidateView<P>> {
    match home {
        None => Seq::empty(),
        Some(home) => if windows {
            seq![CandidateView::UnderHome(home, seq![".local"@, "bin"@])]
        } else {
            seq![
                CandidateView::UnderHome(home, seq![".local"@, "bin"@]),
                CandidateView::UnderHome(home, seq!["bin"@]),
            ]
        },
    }
}

/// The directories that all users share, best first. Windows has none.
pub open spec fn shared_dirs<P>(windows: bool) -> Seq<CandidateView<P>> {
    if windows {
        Seq::empty()
    } else {
        seq![
            CandidateView::Shared("/usr/local/bin"@),
            CandidateView::Shared("/opt/homebrew/bin"@),
        ]
    }
}

/// All directories that a generated CLI may be installed into, best first.
pub open spec fn ranking<P>(windows: bool, home: Option<P>, user_profile: Option<P>) -> Seq<
    CandidateView<P>,
> {
    user_dirs(windows, effective_home(windows, home, user_profile)) + shared_dirs(windows)
}

/// Ranks the directories a generated CLI may be installed into.
///
/// User-owned directories come first on every platform. On Windows
/// `%LOCALAPPDATA%\Microsoft\WindowsApps` is on `PATH` by default, but it is
/// reserved for App Execution Aliases and is rewritten by the Store, so it is
/// never an installation candidate.
pub fn candidate_script_dirs_for<P: Copy>(
    windows: bool,
    home: Option<P>,
    user_profile: Option<P>,
) -> (candidates: Vec<CandidateDir<P>>)
    ensures
        candidate_views(candidates@) == ranking(windows, home, user_profile),
{
    let home = if windows && home.is_none() {
        user_profile
    } else {
        home
    };
    let mut candidates: Vec<CandidateDir<P>> = Vec::new();
    if let Some(home) = home {
        candidates.push(below(home, Some(".local"), "bin"));
        if !windows {
            candidates.push(below(home, None, "bin"));
        }
    }
    assert(candidate_views(candidates@) =~= user_dirs(windows, home));
    if !windows {
        candidates.push(CandidateDir::Shared("/usr/local/bin"));
        candidates.push(CandidateDir::Shared("/opt/homebrew/bin"));
    }
    assert(candidate_views(candidates@) =~= user_dirs(windows, home) + shared_dirs(windows));
    candidates
}

/// The candidate one or two names below `home`.
fn below<P>(home: P, outer: Option<&'static str>, inner: &'static str) -> (candidate: CandidateDir<
    P,
>)
    ensures
        candidate@ == CandidateView::UnderHome(
            home,
            match outer {
                Some(outer) => seq![outer@, inner@],
                None => seq![inner@],
            },
        ),
{
    let mut segments: Vec<&'static str> = Vec::new();
    if let Some(outer) = outer {
        segments.push(outer);
    }
    segments.push(inner);
    let candidate = CandidateDir::UnderHome { home, segments };
    assert(segments@.map_values(|segment: &str| segment@) =~= match outer {
        Some(outer) => seq![outer@, inner@],
        None => seq![inner@],
    });
    candidate
}

/// A candidate directory after the file system has resolved it.
#[derive(Debug)]
pub struct ResolvedDir<P> {
    /// The resolved path, or the path itself where it does not resolve.
    pub path: P,
    /// The bytes that encode the path.
    pub encoded: Vec<u8>,
    /// Whether a directory exists there.
    pub is_dir: bool,
}

/// A byte with ASCII letters in lower case.
pub open spec fn lower_byte(b: u8) -> u8 {
    if 0x41 <= b <= 0x5a {
        (b + 0x20) as u8
    } else {
        b
    }
}

/// `a` and `b` differ in the case of ASCII letters at most.
pub open spec fn same_ignoring_case(a: Seq<u8>, b: Seq<u8>) -> bool {
    a.map_values(|x: u8| lower_byte(x)) == b.map_values(|x: u8| lower_byte(x))
}

/// What stands between the separators of a path.
pub open spec fn pieces(path: Seq<u8>) -> Seq<Seq<u8>>
    decreases path.len(),
{
    if path.len() == 0 {
        seq![Seq::empty()]
    } else {
        let before = pieces(path.drop_last());
        if path.last() == SEPARATOR {
            before.push(Seq::empty())
        } else {
            before.drop_last().push(before.last().push(path.last()))
        }
    }
}

/// A piece of a path that names something: not empty, and not a single dot.
pub open spec fn is_component(piece: Seq<u8>) -> bool {
    piece.len() > 0 && piece != seq![DOT]
}

/// What makes two paths the same: whether they start at the root, whether they
/// start with a dot of their own, and the names along the way. Doubled and
/// trailing separators and dots further on make no difference.
pub struct PathKeyView {
    pub rooted: bool,
    pub dotted: bool,
    pub components: Seq<Seq<u8>>,
}

/// The key of a path.
pub open spec fn key_of(path: Seq<u8>) -> PathKeyView {
    PathKeyView {
        rooted: path.len() > 0 && path[0] == SEPARATOR,
        dotted: pieces(path)[0] == seq![DOT],
        components: pieces(path).filter(|piece: Seq<u8>| is_component(piece)),
    }
}

/// `a` and `b` lead the same way.
pub open spec fn same_path(a: Seq<u8>, b: Seq<u8>) -> bool {
    key_of(a) == key_of(b)
}

/// Some entry of `path_dirs` names the directory `encoded`.
pub open spec fn is_listed(windows: bool, path_dirs: Seq<Vec<u8>>, encoded: Seq<u8>) -> bool {
    exists|i: int|
        0 <= i < path_dirs.len() && if windows {
            same_ignoring_case((#[trigger] path_dirs[i])@, encoded)
        } else {
            same_path(path_dirs[i]@, encoded)
        }
}

/// A directory that Unix can install into: it exists and is on `PATH`.
pub open spec fn is_usable<P>(path_dirs: Seq<Vec<u8>>, dir: ResolvedDir<P>) -> bool {
    dir.is_dir && is_listed(false, path_dirs, dir.encoded@)
}

/// `selected` is the directory chosen among `candidates`. Windows takes the first
/// candidate and reports whether it is on `PATH`; Unix takes the first usable one.
pub open spec fn selects<P>(
    windows: bool,
    candidates: Seq<ResolvedDir<P>>,
    path_dirs: Seq<Vec<u8>>,
    selected: Option<(P, bool)>,
) -> bool {
    if windows {
        if candidates.len() == 0 {
            selected is None
        } else {
            selected == Some(
                (candidates[0].path, is_listed(true, path_dirs, candidates[0].encoded@)),
            )
        }
    } else {
        match selected {
            Some((path, on_path)) => on_path && exists|i: int|
                {
                    &&& 0 <= i < candidates.len()
                    &&& is_usable(path_dirs, #[trigger] candidates[i])
                    &&& forall|k: int|
                        0 <= k < i ==> !is_usable(path_dirs, #[trigger] candidates[k])
                    &&& path == candidates[i].path
                },
            None => forall|i: int|
                0 <= i < candidates.len() ==> !is_usable(path_dirs, #[trigger] candidates[i]),
        }
    }
}

/// Whether two byte strings differ in the case of ASCII letters at most.
fn eq_ignoring_case(a: &Vec<u8>, b: &Vec<u8>) -> (same: bool)
    ensures
        same == same_ignoring_case(a@, b@),
{
    let ghost left = a@.map_values(|x: u8| lower_byte(x));
    let ghost right = b@.map_values(|x: u8| lower_byte(x));
    if a.len() != b.len() {
        assert(left.len() != right.len());
        return false;
    }
    let mut i: usize = 0;
    while i < a.len()
        invariant
            i <= a@.len(),
            a@.len() == b@.len(),
            left == a@.map_values(|x: u8| lower_byte(x)),
            right == b@.map_values(|x: u8| lower_byte(x)),
            forall|k: int| 0 <= k < i ==> left[k] == right[k],
        decreases a@.len() - i,
    {
        if lower(a[i]) != lower(b[i]) {
            assert(left[i as int] != right[i as int]);
            return false;
        }
        i += 1;
    }
    assert(left =~= right);
    true
}

/// A byte with ASCII letters in lower case.
fn lower(b: u8) -> (low: u8)
    ensures
        low == lower_byte(b),
{
    if 0x41 <= b && b <= 0x5a {
        b + 0x20
    } else {
        b
    }
}

/// The key by which paths are compared.
struct PathKey {
    rooted: bool,
    dotted: bool,
    components: Vec<Vec<u8>>,
}

/// The bytes of a list of byte strings.
spec fn byte_lists(list: Seq<Vec<u8>>) -> Seq<Seq<u8>> {
    list.map_values(|bytes: Vec<u8>| bytes@)
}

impl View for PathKey {
    type V = PathKeyView;

    closed spec fn view(&self) -> PathKeyView {
        PathKeyView {
            rooted: self.rooted,
            dotted: self.dotted,
            components: byte_lists(self.components@),
        }
    }
}

/// Filtering a sequence that ends in `last` filters what is before it, and keeps
/// `last` where it passes.
proof fn filter_by_last(list: Seq<Seq<u8>>, last: Seq<u8>)
    ensures
        list.push(last).filter(|piece: Seq<u8>| is_component(piece)) == if is_component(last) {
            list.filter(|piece: Seq<u8>| is_component(piece)).push(last)
        } else {
            list.filter(|piece: Seq<u8>| is_component(piece))
        },
{
    reveal(Seq::filter);
    assert(list.push(last).drop_last() =~= list);
}

/// A path has at least one piece.
proof fn some_piece(path: Seq<u8>)
    ensures
        pieces(path).len() > 0,
    decreases path.len(),
{
    if path.len() > 0 {
        some_piece(path.drop_last());
    }
}

/// Whether a piece names something.
fn names_something(piece: &Vec<u8>) -> (named: bool)
    ensures
        named == is_component(piece@),
{
    if piece.len() == 1 && piece[0] == DOT {
        assert(piece@ =~= seq![DOT]);
        false
    } else {
        assert(piece@.len() == 1 ==> piece@[0] != DOT);
        piece.len() > 0
    }
}

/// Whether a piece is a single dot.
fn is_dot(piece: &Vec<u8>) -> (dot: bool)
    ensures
        dot == (piece@ == seq![DOT]),
{
    let dot = piece.len() == 1 && piece[0] == DOT;
    if dot {
        assert(piece@ =~= seq![DOT]);
    }
    dot
}

/// The key of a path.
fn path_key(path: &Vec<u8>) -> (key: PathKey)
    ensures
        key@ == key_of(path@),
{
    let ghost named = |piece: Seq<u8>| is_component(piece);
    let mut components: Vec<Vec<u8>> = Vec::new();
    let mut current: Vec<u8> = Vec::new();
    let mut dotted = false;
    let mut first = true;
    let mut i: usize = 0;
    proof {
        assert(path@.take(0) =~= Seq::empty());
        assert(pieces(path@.take(0)).drop_last() =~= Seq::empty());
        reveal(Seq::filter);
        assert(byte_lists(components@) =~= Seq::empty());
    }
    while i < path.len()
        invariant
            i <= path@.len(),
            named == |piece: Seq<u8>| is_component(piece),
            pieces(path@.take(i as int)).len() > 0,
            current@ == pieces(path@.take(i as int)).last(),
            byte_lists(components@) == pieces(path@.take(i as int)).drop_last().filter(named),
            first == (pieces(path@.take(i as int)).len() == 1),
            dotted == (!first && pieces(path@.take(i as int))[0] == seq![DOT]),
        decreases path@.len() - i,
    {
        let b: u8 = path[i];
        let ghost before = pieces(path@.take(i as int));
        let ghost after = pieces(path@.take(i + 1));
        assert(path@.take(i + 1).drop_last() =~= path@.take(i as int));
        if b == SEPARATOR {
            if first {
                dotted = is_dot(&current);
                first = false;
            }
            proof {
                filter_by_last(before.drop_last(), before.last());
                assert(before.drop_last().push(before.last()) =~= before);
                assert(after.drop_last() =~= before);
            }
            if names_something(&current) {
                let ghost kept = components@;
                components.push(current);
                assert(byte_lists(components@) =~= byte_lists(kept).push(before.last()));
            }
            current = Vec::new();
            assert(current@ =~= Seq::empty());
        } else {
            current.push(b);
            assert(after.drop_last() =~= before.drop_last());
        }
        i += 1;
    }
    let ghost all = pieces(path@);
    proof {
        assert(path@.take(path@.len() as int) =~= path@);
        filter_by_last(all.drop_last(), all.last());
        assert(all.drop_last().push(all.last()) =~= all);
    }
    if first {
        dotted = is_dot(&current);
    }
    if names_something(&current) {
        let ghost kept = components@;
        components.push(current);
        assert(byte_lists(components@) =~= byte_lists(kept).push(all.last()));
    }
    PathKey { rooted: path.len() > 0 && path[0] == SEPARATOR, dotted, components }
}

/// Whether two byte strings are equal.
fn eq_bytes(a: &Vec<u8>, b: &Vec<u8>) -> (same: bool)
    ensures
        same == (a@ == b@),
{
    if a.len() != b.len() {
        return false;
    }
    let mut i: usize = 0;
    while i < a.len()
        invariant
            i <= a@.len(),
            a@.len() == b@.len(),
            forall|k: int| 0 <= k < i ==> a@[k] == b@[k],
        decreases a@.len() - i,
    {
        if a[i] != b[i] {
            return false;
        }
        i += 1;
    }
    assert(a@ =~= b@);
    true
}

/// Whether two paths lead the same way.
pub fn paths_equal(a: &Vec<u8>, b: &Vec<u8>) -> (same: bool)
    ensures
        same == same_path(a@, b@),
{
    let left = path_key(a);
    let right = path_key(b);
    if left.rooted != right.rooted || left.dotted != right.dotted || left.components.len()
        != right.components.len() {
        proof {
            if left@ == right@ {
                assert(left@.components.len() == right@.components.len());
            }
        }
        return false;
    }
    let mut i: usize = 0;
    while i < left.components.len()
        invariant
            left@ == key_of(a@),
            right@ == key_of(b@),
            left.components@.len() == right.components@.len(),
            i <= left.components@.len(),
            forall|k: int| 0 <= k < i ==> left.components@[k]@ == right.components@[k]@,
        decreases left.components@.len() - i,
    {
        if !eq_bytes(&left.components[i], &right.components[i]) {
            assert(left@.components[i as int] != right@.components[i as int]);
            return false;
        }
        i += 1;
    }
    assert(left@.components =~= right@.components);
    true
}

/// Whether some entry of `path_dirs` names the directory `encoded`.
pub fn listed(windows: bool, path_dirs: &[Vec<u8>], encoded: &Vec<u8>) -> (found: bool)
    ensures
        found == is_listed(windows, path_dirs@, encoded@),
{
    let mut i: usize = 0;
    while i < path_dirs.len()
        invariant
            i <= path_dirs@.len(),
            forall|k: int|
                0 <= k < i ==> !(if windows {
                    same_ignoring_case((#[trigger] path_dirs@[k])@, encoded@)
                } else {
                    same_path(path_dirs@[k]@, encoded@)
                }),
        decreases path_dirs@.len() - i,
    {
        let same = if windows {
            eq_ignoring_case(&path_dirs[i], encoded)
        } else {
            paths_equal(&path_dirs[i], encoded)
        };
        if same {
            assert(path_dirs@[i as int]@ == path_dirs@[i as int]@);
            return true;
        }
        i += 1;
    }
    false
}

/// Selects where generated CLI scripts should be written, among directories that
/// the file system has resolved, best first. Together with the directory comes
/// whether it is on `PATH`.
pub fn select_script_dir<P>(
    windows: bool,
    candidates: Vec<ResolvedDir<P>>,
    path_dirs: &[Vec<u8>],
) -> (selected: Option<(P, bool)>)
    ensures
        selects(windows, candidates@, path_dirs@, selected),
{
    let ghost all = candidates@;
    for candidate in it: candidates
        invariant
            it.seq() == all,
            windows ==> it.index() == 0,
            forall|k: int|
                0 <= k < it.index() ==> !is_usable(path_dirs@, #[trigger] all[k]),
    {
        assert(all[it.index()] == candidate);
        let on_path = listed(windows, path_dirs, &candidate.encoded);
        if windows {
            return Some((candidate.path, on_path));
        }
        if candidate.is_dir && on_path {
            return Some((candidate.path, true));
        }
    }
    None
}

/// Where scripts are written.
#[derive(Debug)]
pub enum OutputDir<P> {
    /// Into this directory; the flag says whether it is on `PATH`.
    Chosen(P, bool),
    /// Into the current directory.
    Current,
}

/// `output` is where scripts are written, given the configured directory.
pub open spec fn is_output_dir<P>(
    configured: Option<ResolvedDir<P>>,
    windows: bool,
    candidates: Seq<ResolvedDir<P>>,
    path_dirs: Seq<Vec<u8>>,
    output: OutputDir<P>,
) -> bool {
    match configured {
        Some(dir) => output == OutputDir::Chosen(
            dir.path,
            is_listed(windows, path_dirs, dir.encoded@),
        ),
        None => match output {
            OutputDir::Chosen(dir, on_path) => selects(
                windows,
                candidates,
                path_dirs,
                Some((dir, on_path)),
            ),
            OutputDir::Current => selects(windows, candidates, path_dirs, None),
        },
    }
}

/// Chooses where generated CLI scripts should be written: a configured directory
/// goes first, then the best candidate, then the current directory. A configured
/// directory is taken as it is written; its `encoded` bytes are those of the place
/// that it leads to, which `PATH` is asked about.
pub fn cli_output_dir<P>(
    configured: Option<ResolvedDir<P>>,
    windows: bool,
    candidates: Vec<ResolvedDir<P>>,
    path_dirs: &[Vec<u8>],
) -> (output: OutputDir<P>)
    ensures
        is_output_dir(configured, windows, candidates@, path_dirs@, output),
{
    if let Some(dir) = configured {
        let on_path = listed(windows, path_dirs, &dir.encoded);
        return OutputDir::Chosen(dir.path, on_path);
    }
    match select_script_dir(windows, candidates, path_dirs) {
        Some((dir, on_path)) => OutputDir::Chosen(dir, on_path),
        None => OutputDir::Current,
    }
}

/// The current directory as the place where scripts are written, together with
/// whether it is on `PATH`.
pub fn current_output_dir<P>(
    current: ResolvedDir<P>,
    windows: bool,
    path_dirs: &[Vec<u8>],
) -> (output: (P, bool))
    ensures
        output == (current.path, is_listed(windows, path_dirs@, current.encoded@)),
{
    let on_path = listed(windows, path_dirs, &current.encoded);
    (current.path, on_path)
}

/// On every platform the directories that the user owns come before the shared
/// ones.
pub proof fn user_dirs_come_first<P>(
    windows: bool,
    home: Option<P>,
    user_profile: Option<P>,
    i: int,
    j: int,
)
    requires
        0 <= i < j < ranking(windows, home, user_profile).len(),
        ranking(windows, home, user_profile)[j] is UnderHome,
    ensures
        ranking(windows, home, user_profile)[i] is UnderHome,
{
}

/// On Windows the only candidate is `.local/bin` below the home directory, so no
/// directory that the system manages is ever offered.
pub proof fn windows_offers_only_the_user_owned_dir<P>(home: Option<P>, user_profile: Option<P>)
    ensures
        ranking(true, home, user_profile) == match effective_home(true, home, user_profile) {
            Some(owner) => seq![CandidateView::UnderHome(owner, seq![".local"@, "bin"@])],
            None => Seq::empty(),
        },
{
}

/// Unix never looks at the Windows user profile.
pub proof fn unix_ignores_the_user_profile<P>(home: Option<P>, a: Option<P>, b: Option<P>)
    ensures
        ranking(false, home, a) == ranking(false, home, b),
{
}

/// The selection is one of the candidates, and on Unix it is always on `PATH`.
pub proof fn selection_is_a_candidate<P>(
    windows: bool,
    candidates: Seq<ResolvedDir<P>>,
    path_dirs: Seq<Vec<u8>>,
    selected: (P, bool),
)
    requires
        selects(windows, candidates, path_dirs, Some(selected)),
    ensures
        exists|i: int|
            0 <= i < candidates.len() && selected.0 == (#[trigger] candidates[i]).path && selected.1
                == is_listed(windows, path_dirs, candidates[i].encoded@),
        !windows ==> selected.1,
{
    if windows {
        assert(selected.0 == candidates[0].path);
    }
}

/// `dir` is a directory that scripts may be written into: the configured one or,
/// without one, a candidate.
pub open spec fn is_considered<P>(
    configured: Option<ResolvedDir<P>>,
    candidates: Seq<ResolvedDir<P>>,
    dir: ResolvedDir<P>,
) -> bool {
    match configured {
        Some(own) => dir == own,
        None => candidates.contains(dir),
    }
}

/// Wherever scripts are written, the flag says whether that directory is on `PATH`:
/// for a configured directory just as for a candidate.
pub proof fn the_flag_says_whether_the_directory_is_on_path<P>(
    configured: Option<ResolvedDir<P>>,
    windows: bool,
    candidates: Seq<ResolvedDir<P>>,
    path_dirs: Seq<Vec<u8>>,
    path: P,
    on_path: bool,
)
    requires
        is_output_dir(
            configured,
            windows,
            candidates,
            path_dirs,
            OutputDir::Chosen(path, on_path),
        ),
    ensures
        exists|dir: ResolvedDir<P>|
            {
                &&& #[trigger] is_considered(configured, candidates, dir)
                &&& path == dir.path
                &&& on_path == is_listed(windows, path_dirs, dir.encoded@)
            },
{
    match configured {
        Some(dir) => {
            assert(is_considered(configured, candidates, dir));
        },
        None => {
            selection_is_a_candidate(windows, candidates, path_dirs, (path, on_path));
            let i = choose|i: int|
                0 <= i < candidates.len() && path == (#[trigger] candidates[i]).path && on_path
                    == is_listed(windows, path_dirs, candidates[i].encoded@);
            assert(is_considered(configured, candidates, candidates[i]));
        },
    }
}

/// The inputs decide the selection.
pub proof fn selection_is_decided<P>(
    windows: bool,
    candidates: Seq<ResolvedDir<P>>,
    path_dirs: Seq<Vec<u8>>,
    a: Option<(P, bool)>,
    b: Option<(P, bool)>,
)
    requires
        selects(windows, candidates, path_dirs, a),
        selects(windows, candidates, path_dirs, b),
    ensures
        a == b,
{
}

/// A separator splits a path in two: the pieces are those of both parts.
proof fn pieces_of_joined(a: Seq<u8>, b: Seq<u8>)
    ensures
        pieces(a.push(SEPARATOR) + b) == pieces(a) + pieces(b),
    decreases b.len(),
{
    if b.len() == 0 {
        assert(a.push(SEPARATOR) + b =~= a.push(SEPARATOR));
        assert(a.push(SEPARATOR).drop_last() =~= a);
        assert(pieces(a).push(Seq::empty()) =~= pieces(a) + pieces(b));
    } else {
        let joined = a.push(SEPARATOR) + b;
        pieces_of_joined(a, b.drop_last());
        some_piece(b.drop_last());
        assert(joined.drop_last() =~= a.push(SEPARATOR) + b.drop_last());
        assert(pieces(joined) =~= pieces(a) + pieces(b));
    }
}

/// A doubled separator, or a dot between two separators, makes no difference to
/// where a path leads.
pub proof fn redundant_pieces_make_no_difference(a: Seq<u8>, b: Seq<u8>)
    ensures
        same_path(a.push(SEPARATOR) + b, a.push(SEPARATOR).push(SEPARATOR) + b),
        same_path(a.push(SEPARATOR) + b, a.push(SEPARATOR).push(DOT).push(SEPARATOR) + b),
{
    let plain = a.push(SEPARATOR) + b;
    let doubled = a.push(SEPARATOR).push(SEPARATOR) + b;
    let dotted = a.push(SEPARATOR).push(DOT).push(SEPARATOR) + b;
    some_piece(a);
    some_piece(b);
    pieces_of_joined(a, b);
    pieces_of_joined(a.push(SEPARATOR), b);
    pieces_of_joined(a.push(SEPARATOR).push(DOT), b);
    let named = |piece: Seq<u8>| is_component(piece);
    assert(a.push(SEPARATOR).drop_last() =~= a);
    assert(a.push(SEPARATOR).push(DOT).drop_last() =~= a.push(SEPARATOR));
    let with_empty = pieces(a).push(Seq::empty());
    let with_dot = pieces(a).push(seq![DOT]);
    assert(pieces(a.push(SEPARATOR)) == with_empty);
    assert(pieces(a.push(SEPARATOR).push(DOT)) =~= with_dot) by {
        assert(with_empty.drop_last() =~= pieces(a));
        assert(Seq::<u8>::empty().push(DOT) =~= seq![DOT]);
    }
    filter_by_last(pieces(a), Seq::empty());
    filter_by_last(pieces(a), seq![DOT]);
    Seq::filter_distributes_over_add(pieces(a), pieces(b), named);
    Seq::filter_distributes_over_add(with_empty, pieces(b), named);
    Seq::filter_distributes_over_add(with_dot, pieces(b), named);
    assert(plain[0] == doubled[0] && plain[0] == dotted[0]);
}

/// A trailing separator makes no difference to where a path leads.
pub proof fn trailing_separator_makes_no_difference(path: Seq<u8>)
    requires
        path.len() > 0,
    ensures
        same_path(path, path.push(SEPARATOR)),
{
    some_piece(path);
    assert(path.push(SEPARATOR).drop_last() =~= path);
    filter_by_last(pieces(path), Seq::empty());
}

/// A candidate says what it is made of: its home and its names one by one, or its
/// place.
pub proof fn candidates_say_what_they_are_made_of<P>(candidates: Seq<CandidateDir<P>>, i: int)
    requires
        0 <= i < candidates.len(),
    ensures
        candidate_views(candidates).len() == candidates.len(),
        candidates[i] matches CandidateDir::UnderHome { home, segments } ==> {
            &&& candidate_views(candidates)[i] matches CandidateView::UnderHome(owner, names)
            &&& owner == home
            &&& names.len() == segments@.len()
            &&& forall|k: int| 0 <= k < names.len() ==> names[k] == #[trigger] segments@[k]@
        },
        candidates[i] matches CandidateDir::Shared(path) ==> candidate_views(candidates)[i]
            == CandidateView::<P>::Shared(path@),
{
}

/// The candidates with a home directory, best first: below the home directory, and
/// then, but for Windows, the shared places. On Windows the user profile is a home
/// directory only where there is no other.
pub proof fn candidates_with_a_home<P>(home: P, other: Option<P>)
    ensures
        ranking(true, Some(home), other) == seq![
            CandidateView::UnderHome(home, seq![".local"@, "bin"@]),
        ],
        ranking(true, None, Some(home)) == seq![
            CandidateView::UnderHome(home, seq![".local"@, "bin"@]),
        ],
        ranking(false, Some(home), other) == seq![
            CandidateView::UnderHome(home, seq![".local"@, "bin"@]),
            CandidateView::UnderHome(home, seq!["bin"@]),
            CandidateView::Shared("/usr/local/bin"@),
            CandidateView::Shared("/opt/homebrew/bin"@),
        ],
{
    assert(ranking(true, Some(home), other) =~= seq![
        CandidateView::UnderHome(home, seq![".local"@, "bin"@]),
    ]);
    assert(ranking(true, None, Some(home)) =~= seq![
        CandidateView::UnderHome(home, seq![".local"@, "bin"@]),
    ]);
    assert(ranking(false, Some(home), other) =~= seq![
        CandidateView::UnderHome(home, seq![".local"@, "bin"@]),
        CandidateView::UnderHome(home, seq!["bin"@]),
        CandidateView::Shared("/usr/local/bin"@),
        CandidateView::Shared("/opt/homebrew/bin"@),
    ]);
}

/// The candidates without a home directory: the shared places, and on Windows none.
pub proof fn candidates_without_a_home<P>(user_profile: Option<P>)
    ensures
        ranking(true, None::<P>, None).len() == 0,
        ranking(false, None, user_profile) == seq![
            CandidateView::<P>::Shared("/usr/local/bin"@),
            CandidateView::<P>::Shared("/opt/homebrew/bin"@),
        ],
{
    assert(ranking(false, None, user_profile) =~= seq![
        CandidateView::<P>::Shared("/usr/local/bin"@),
        CandidateView::<P>::Shared("/opt/homebrew/bin"@),
    ]);
}

/// `a` and `b` are the same byte, or the two cases of one ASCII letter.
spec fn are_cases_of_one(a: u8, b: u8) -> bool {
    a == b || (0x41 <= a <= 0x5a && b == a + 0x20) || (0x41 <= b <= 0x5a && a == b + 0x20)
}

/// Paths that are the same but for case are as long as each other and have, byte for
/// byte, the same byte or the two cases of one ASCII letter; and such paths are the
/// same but for case.
pub proof fn case_is_that_of_ascii_letters(a: Seq<u8>, b: Seq<u8>)
    ensures
        same_ignoring_case(a, b) <==> a.len() == b.len() && forall|i: int|
            0 <= i < a.len() ==> (#[trigger] a[i] == b[i] || (0x41 <= a[i] <= 0x5a && b[i] == a[i]
                + 0x20) || (0x41 <= b[i] <= 0x5a && a[i] == b[i] + 0x20)),
{
    let left = a.map_values(|x: u8| lower_byte(x));
    let right = b.map_values(|x: u8| lower_byte(x));
    if same_ignoring_case(a, b) {
        assert(left.len() == right.len());
        assert forall|i: int| 0 <= i < a.len() implies are_cases_of_one(#[trigger] a[i], b[i]) by {
            assert(left[i] == right[i]);
        }
    }
    if a.len() == b.len() && forall|i: int|
        0 <= i < a.len() ==> are_cases_of_one(#[trigger] a[i], b[i]) {
        assert(left =~= right);
    }
}

/// A path without separators has itself as its only piece.
proof fn one_piece(piece: Seq<u8>)
    requires
        forall|i: int| 0 <= i < piece.len() ==> #[trigger] piece[i] != 0x2f,
    ensures
        pieces(piece) == seq![piece],
    decreases piece.len(),
{
    if piece.len() > 0 {
        one_piece(piece.drop_last());
        let before = pieces(piece.drop_last());
        assert(piece.drop_last().push(piece.last()) =~= piece);
        assert(piece[piece.len() - 1] != 0x2f);
        assert(before.drop_last().push(before.last().push(piece.last())) =~= seq![piece]);
    } else {
        assert(piece =~= Seq::empty());
    }
}

/// Where a path leads without separators: to its name, unless it is empty or a dot.
pub proof fn a_path_of_one_piece(piece: Seq<u8>)
    requires
        forall|i: int| 0 <= i < piece.len() ==> #[trigger] piece[i] != 0x2f,
    ensures
        !key_of(piece).rooted,
        key_of(piece).dotted == (piece == seq![0x2eu8]),
        key_of(piece).components == if piece.len() == 0 || piece == seq![0x2eu8] {
            Seq::<Seq<u8>>::empty()
        } else {
            seq![piece]
        },
{
    one_piece(piece);
    filter_by_last(Seq::empty(), piece);
    assert(Seq::<Seq<u8>>::empty().push(piece) =~= seq![piece]);
    assert(Seq::<Seq<u8>>::empty().filter(|piece: Seq<u8>| is_component(piece)) =~= Seq::empty())
        by {
        reveal(Seq::filter);
    }
}

/// Where a path leads with one more piece behind a separator: one name further,
/// unless the piece is empty or a dot. It starts where the path starts; what begins
/// with a separator starts at the root.
pub proof fn a_path_goes_one_piece_further(path: Seq<u8>, piece: Seq<u8>)
    requires
        forall|i: int| 0 <= i < piece.len() ==> #[trigger] piece[i] != 0x2f,
    ensures
        ({
            let further = path.push(0x2f) + piece;
            &&& key_of(further).rooted == (path.len() == 0 || key_of(path).rooted)
            &&& key_of(further).dotted == key_of(path).dotted
            &&& key_of(further).components == if piece.len() == 0 || piece == seq![0x2eu8] {
                key_of(path).components
            } else {
                key_of(path).components.push(piece)
            }
        }),
{
    let further = path.push(0x2f) + piece;
    one_piece(piece);
    some_piece(path);
    pieces_of_joined(path, piece);
    assert(pieces(further) =~= pieces(path).push(piece));
    filter_by_last(pieces(path), piece);
    assert(further[0] == if path.len() == 0 {
        0x2f
    } else {
        path[0]
    });
}

/// Paths lead the same way exactly where they start alike and go through the same
/// names.
pub proof fn same_paths_start_alike_and_have_the_same_names(a: Seq<u8>, b: Seq<u8>)
    ensures
        same_path(a, b) <==> key_of(a).rooted == key_of(b).rooted && key_of(a).dotted == key_of(
            b,
        ).dotted && key_of(a).components == key_of(b).components,
{
}

/// A directory is listed exactly where some entry is the same: but for case on
/// Windows, and as a path elsewhere.
pub proof fn listed_directories_have_an_entry(path_dirs: Seq<Vec<u8>>, encoded: Seq<u8>)
    ensures
        is_listed(true, path_dirs, encoded) <==> exists|i: int|
            0 <= i < path_dirs.len() && same_ignoring_case(
                (#[trigger] path_dirs[i])@,
                encoded,
            ),
        is_listed(false, path_dirs, encoded) <==> exists|i: int|
            0 <= i < path_dirs.len() && same_path((#[trigger] path_dirs[i])@, encoded),
{
    if exists|i: int|
        0 <= i < path_dirs.len() && same_path((#[trigger] path_dirs[i])@, encoded) {
        let i = choose|i: int|
            0 <= i < path_dirs.len() && same_path((#[trigger] path_dirs[i])@, encoded);
        assert(0 <= i < path_dirs.len() && same_path(path_dirs[i]@, encoded));
    }
}

/// Windows takes the first candidate, whether or not it exists or is listed.
pub proof fn windows_takes_the_first_candidate<P>(
    candidates: Seq<ResolvedDir<P>>,
    path_dirs: Seq<Vec<u8>>,
    selected: Option<(P, bool)>,
)
    requires
        selects(true, candidates, path_dirs, selected),
    ensures
        candidates.len() == 0 ==> selected is None,
        candidates.len() > 0 ==> selected == Some(
            (
                candidates[0].path,
                exists|i: int|
                    0 <= i < path_dirs.len() && same_ignoring_case(
                        (#[trigger] path_dirs[i])@,
                        candidates[0].encoded@,
                    ),
            ),
        ),
{
    if candidates.len() > 0 {
        listed_directories_have_an_entry(path_dirs, candidates[0].encoded@);
    }
}

/// Unix takes the candidate at `i` where it is a directory that an entry names and no
/// candidate before it is; where no candidate is, it takes none.
pub proof fn unix_takes_the_first_directory_on_path<P>(
    candidates: Seq<ResolvedDir<P>>,
    path_dirs: Seq<Vec<u8>>,
    selected: Option<(P, bool)>,
    i: int,
    at: int,
)
    requires
        selects(false, candidates, path_dirs, selected),
        0 <= i <= candidates.len(),
        forall|k: int, j: int|
            0 <= k < i && 0 <= j < path_dirs.len() ==> !((#[trigger] candidates[k]).is_dir
                && same_path((#[trigger] path_dirs[j])@, candidates[k].encoded@)),
        i < candidates.len() ==> candidates[i].is_dir && 0 <= at < path_dirs.len() && same_path(
            path_dirs[at]@,
            candidates[i].encoded@,
        ),
    ensures
        i < candidates.len() ==> selected == Some((candidates[i].path, true)),
        i == candidates.len() ==> selected is None,
{
    assert forall|k: int| 0 <= k < i implies !is_usable(path_dirs, #[trigger] candidates[k]) by {
        listed_directories_have_an_entry(path_dirs, candidates[k].encoded@);
    }
    if i < candidates.len() {
        assert(path_dirs[at]@ == path_dirs[at]@);
        listed_directories_have_an_entry(path_dirs, candidates[i].encoded@);
        assert(is_usable(path_dirs, candidates[i]));
    }
}

/// A configured directory goes before every candidate, as it is written, with
/// whether some entry names it; without one the selection counts, and without a
/// selection the current directory.
pub proof fn a_configured_directory_goes_first<P>(
    configured: Option<ResolvedDir<P>>,
    windows: bool,
    candidates: Seq<ResolvedDir<P>>,
    path_dirs: Seq<Vec<u8>>,
    output: OutputDir<P>,
    selected: Option<(P, bool)>,
)
    requires
        is_output_dir(configured, windows, candidates, path_dirs, output),
        selects(windows, candidates, path_dirs, selected),
    ensures
        configured matches Some(dir) ==> output == OutputDir::Chosen(
            dir.path,
            exists|i: int|
                0 <= i < path_dirs.len() && if windows {
                    same_ignoring_case((#[trigger] path_dirs[i])@, dir.encoded@)
                } else {
                    same_path(path_dirs[i]@, dir.encoded@)
                },
        ),
        configured is None ==> (selected matches Some((path, on_path)) ==> output
            == OutputDir::Chosen(path, on_path)),
        configured is None && selected is None ==> output is Current,
{
    match output {
        OutputDir::Chosen(path, on_path) => {
            if configured is None {
                selection_is_decided(
                    windows,
                    candidates,
                    path_dirs,
                    selected,
                    Some((path, on_path)),
                );
            }
        },
        OutputDir::Current => {
            if configured is None {
                selection_is_decided(windows, candidates, path_dirs, selected, None);
            }
        },
    }
}

} // verus!
