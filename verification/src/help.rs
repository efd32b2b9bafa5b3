//! The help command from request to payload.

use vstd::prelude::*;
use crate::options::HelpOptions;
use crate::render::{plain_spec, render_embed, render_plain, rich_spec, Embed};
use crate::resolver::{resolve_help, resolve_spec};
use crate::tree::{group_models, GroupSpec};
use crate::visibility::CallerContext;

verus! {

/// Answers a help request with a structured payload: resolves `query`
/// against the command tree for `caller` and renders the outcome with
/// sections.
pub fn with_embeds(
    query: &str,
    groups: &Vec<GroupSpec>,
    caller: &CallerContext,
    options: &HelpOptions,
) -> (embed: Embed)
    ensures
        embed@ == rich_spec(
            resolve_spec(query@, group_models(groups@), caller@, options@),
            options@,
        ),
{
    let outcome = resolve_help(query, groups, caller, options);
    render_embed(&outcome, options)
}

/// Answers a help request with plain text: resolves `query` against the
/// command tree for `caller` and renders the outcome as one block of text.
pub fn plain(query: &str, groups: &Vec<GroupSpec>, caller: &CallerContext, options: &HelpOptions) -> (text:
    String)
    ensures
        text@ == plain_spec(
            resolve_spec(query@, group_models(groups@), caller@, options@),
            options@,
        ),
{
    let outcome = resolve_help(query, groups, caller, options);
    render_plain(&outcome, options)
}

} // verus!
