//! Tools that backends offer.

use vstd::prelude::*;

use crate::text;

verus! {

/// One tool of a backend.
#[derive(Debug)]
pub struct Tool {
    /// The tool's name.
    pub name: String,
    /// What the tool does.
    pub description: Option<String>,
    /// The JSON schema of the tool's input.
    pub input_schema: serde_json::Value,
}

impl Tool {
    /// A tool of these parts.
    pub fn new(
        name: String,
        description: Option<String>,
        input_schema: serde_json::Value,
    ) -> (tool: Tool)
        ensures
            tool == (Tool { name, description, input_schema }),
    {
        Tool { name, description, input_schema }
    }
}

/// A tool of this name stays: it is included, by name or because nothing is
/// selected, and it is not excluded.
pub open spec fn is_kept(
    name: Seq<char>,
    included: Seq<Seq<char>>,
    excluded: Seq<Seq<char>>,
) -> bool {
    (included.len() == 0 || included.contains(name)) && !excluded.contains(name)
}

/// The tools that stay, in their order.
pub open spec fn kept_tools(
    tools: Seq<Tool>,
    included: Seq<Seq<char>>,
    excluded: Seq<Seq<char>>,
) -> Seq<Tool> {
    tools.filter(|tool: Tool| is_kept(tool.name@, included, excluded))
}

/// Whether `names` holds `name`.
fn lists_name(names: &Vec<String>, name: &String) -> (found: bool)
    ensures
        found == text::texts(names@).contains(name@),
{
    let mut i: usize = 0;
    while i < names.len()
        invariant
            i <= names@.len(),
            forall|k: int| 0 <= k < i ==> names@[k]@ != name@,
        decreases names@.len() - i,
    {
        if text::same_text(names[i].as_str(), name.as_str()) {
            assert(text::texts(names@)[i as int] == name@);
            return true;
        }
        i += 1;
    }
    false
}

/// Keeps the included tools, or all where `included` is empty, and drops the
/// excluded ones.
pub fn filter_tools(tools: Vec<Tool>, included: &Vec<String>, excluded: &Vec<String>) -> (kept: Vec<
    Tool,
>)
    ensures
        kept@ == kept_tools(tools@, text::texts(included@), text::texts(excluded@)),
{
    let ghost all = tools@;
    let ghost keep = |tool: Tool|
        is_kept(tool.name@, text::texts(included@), text::texts(excluded@));
    let mut kept: Vec<Tool> = Vec::new();
    proof {
        reveal(Seq::filter);
        assert(all.take(0) =~= Seq::empty());
    }
    for tool in it: tools
        invariant
            it.seq() == all,
            keep == |tool: Tool|
                is_kept(tool.name@, text::texts(included@), text::texts(excluded@)),
            kept@ == all.take(it.index()).filter(keep),
    {
        proof {
            reveal(Seq::filter);
            assert(all[it.index()] == tool);
            assert(all.take(it.index() + 1).drop_last() =~= all.take(it.index()));
            assert(all.take(it.index() + 1).last() == tool);
        }
        let allowed = included.len() == 0 || lists_name(included, &tool.name);
        if allowed && !lists_name(excluded, &tool.name) {
            kept.push(tool);
        }
    }
    assert(all.take(all.len() as int) =~= all);
    kept
}

/// A tool that stays was offered, is included where a selection is made, and is
/// never an excluded one.
pub proof fn kept_tools_are_allowed(
    tools: Seq<Tool>,
    included: Seq<Seq<char>>,
    excluded: Seq<Seq<char>>,
    tool: Tool,
)
    requires
        kept_tools(tools, included, excluded).contains(tool),
    ensures
        tools.contains(tool),
        included.len() > 0 ==> included.contains(tool.name@),
        !excluded.contains(tool.name@),
{
    let keep = |tool: Tool| is_kept(tool.name@, included, excluded);
    tools.lemma_filter_contains_rev(keep, tool);
    let i = tools.filter(keep).index_of(tool);
    tools.lemma_filter_pred(keep, i);
}

/// Every allowed tool that is offered stays.
pub proof fn allowed_tools_are_kept(
    tools: Seq<Tool>,
    included: Seq<Seq<char>>,
    excluded: Seq<Seq<char>>,
    tool: Tool,
)
    requires
        tools.contains(tool),
        is_kept(tool.name@, included, excluded),
    ensures
        kept_tools(tools, included, excluded).contains(tool),
{
    let keep = |tool: Tool| is_kept(tool.name@, included, excluded);
    tools.lemma_filter_contains(keep, tools.index_of(tool));
}

/// Without a selection and without exclusions every tool stays, in place.
pub proof fn without_filters_every_tool_stays(tools: Seq<Tool>)
    ensures
        kept_tools(tools, Seq::empty(), Seq::empty()) == tools,
    decreases tools.len(),
{
    reveal(Seq::filter);
    if tools.len() > 0 {
        without_filters_every_tool_stays(tools.drop_last());
        assert(tools.drop_last().push(tools.last()) =~= tools);
    }
}

/// A listed tool is offered exactly where the selection is empty or has its name, and
/// the exclusions do not have it.
pub proof fn filters_go_by_the_name(
    tools: Seq<Tool>,
    included: Seq<Seq<char>>,
    excluded: Seq<Seq<char>>,
    tool: Tool,
)
    ensures
        kept_tools(tools, included, excluded).contains(tool) <==> tools.contains(tool) && (
        included.len() == 0 || exists|k: int|
            0 <= k < included.len() && #[trigger] included[k] == tool.name@) && forall|k: int|
            0 <= k < excluded.len() ==> #[trigger] excluded[k] != tool.name@,
        excluded.len() == 0 ==> (kept_tools(tools, included, excluded).contains(tool)
            <==> tools.contains(tool) && (included.len() == 0 || included.contains(tool.name@))),
{
    if kept_tools(tools, included, excluded).contains(tool) {
        kept_tools_are_allowed(tools, included, excluded, tool);
        assert(forall|k: int| 0 <= k < excluded.len() ==> #[trigger] excluded[k] != tool.name@);
    }
    if tools.contains(tool) && (included.len() == 0 || included.contains(tool.name@))
        && !excluded.contains(tool.name@) {
        allowed_tools_are_kept(tools, included, excluded, tool);
    }
}

/// The filters look at one tool after the other: one more tool at the end of the
/// listing is one more at the end of the result where its name is allowed, and makes
/// no difference where it is not. So tools stay in their order, and as often as they
/// are listed.
pub proof fn filters_take_one_tool_at_a_time(
    tools: Seq<Tool>,
    tool: Tool,
    included: Seq<Seq<char>>,
    excluded: Seq<Seq<char>>,
)
    ensures
        kept_tools(Seq::empty(), included, excluded) == Seq::<Tool>::empty(),
        (included.len() == 0 || included.contains(tool.name@)) && !excluded.contains(tool.name@)
            ==> kept_tools(tools.push(tool), included, excluded) == kept_tools(
            tools,
            included,
            excluded,
        ).push(tool),
        included.len() > 0 && !included.contains(tool.name@) || excluded.contains(tool.name@)
            ==> kept_tools(tools.push(tool), included, excluded) == kept_tools(
            tools,
            included,
            excluded,
        ),
{
    reveal(Seq::filter);
    assert(tools.push(tool).drop_last() =~= tools);
}

} // verus!
