//! Listing groups with the commands that a caller may see.
//!
//! A group is listed only where the policy says `Show` for the group itself.
//! Within a listed group, each command is decorated by the policy's answer
//! for that command, and left out where the answer is `Hide`. A group that
//! ends up with no command and no nested group is left out as well.

use vstd::prelude::*;
use crate::outcome::{lemma_sub_view_models, view_models, GroupCommandsView, GroupViewModel};
use crate::text::{clone_texts, opt_text, texts};
use crate::tree::{
    command_models,
    group_models,
    lemma_sub_group_models,
    CommandModel,
    CommandSpec,
    GroupModel,
    GroupSpec,
};
use crate::visibility::{
    check_models,
    evaluate,
    evaluate_command,
    evaluate_command_spec,
    evaluate_spec,
    Behavior,
    CallerContext,
    CallerModel,
    CheckModel,
    CheckSpec,
    PolicyDefaults,
};

verus! {

/// A command name as it is listed: in backticks, struck through where the
/// behaviour says so, and not at all where it is `Hide`.
pub open spec fn decorated(b: Behavior, name: Seq<char>) -> Option<Seq<char>> {
    match b {
        Behavior::Show => Some("`"@ + name + "`"@),
        Behavior::StrikeThrough => Some("~~`"@ + name + "`~~"@),
        Behavior::Hide => None,
    }
}

/// The policy's answer for a command that stands in a group with
/// `group_checks`.
pub open spec fn command_behavior(
    command: CommandModel,
    group_checks: Seq<CheckModel>,
    caller: CallerModel,
    defaults: PolicyDefaults,
) -> Behavior {
    evaluate_command_spec(
        command.constraints,
        command.name,
        command.checks,
        group_checks,
        caller,
        defaults,
    )
}

/// The decorated names of the commands that are not hidden, in order.
pub open spec fn listed_commands(
    commands: Seq<CommandModel>,
    group_checks: Seq<CheckModel>,
    caller: CallerModel,
    defaults: PolicyDefaults,
) -> Seq<Seq<char>>
    decreases commands.len(),
{
    if commands.len() == 0 {
        Seq::empty()
    } else {
        let before = listed_commands(commands.drop_last(), group_checks, caller, defaults);
        let last = commands.last();
        match decorated(command_behavior(last, group_checks, caller, defaults), last.name) {
            Some(name) => before.push(name),
            None => before,
        }
    }
}

/// A group as it is listed for a caller.
pub open spec fn group_view(
    group: GroupModel,
    caller: CallerModel,
    defaults: PolicyDefaults,
) -> GroupViewModel
    decreases group, 1int,
{
    GroupViewModel {
        name: group.name,
        prefixes: group.prefixes,
        command_names: listed_commands(group.commands, group.checks, caller, defaults),
        sub_groups: listed_groups(group.sub_groups, caller, defaults),
    }
}

/// A listed group that has nothing to show.
pub open spec fn is_blank(view: GroupViewModel) -> bool {
    view.command_names.len() == 0 && view.sub_groups.len() == 0
}

/// The groups that are listed for a caller, in order: those that the policy
/// shows and that have something to list.
pub open spec fn listed_groups(
    groups: Seq<GroupModel>,
    caller: CallerModel,
    defaults: PolicyDefaults,
) -> Seq<GroupViewModel>
    decreases groups, 0int,
{
    if groups.len() == 0 {
        Seq::empty()
    } else {
        let before = listed_groups(groups.drop_last(), caller, defaults);
        let last = groups.last();
        if evaluate_spec(last.constraints, caller, defaults) != Behavior::Show {
            before
        } else {
            let view = group_view(last, caller, defaults);
            if is_blank(view) {
                before
            } else {
                before.push(view)
            }
        }
    }
}

/// Decorates a command name.
pub fn decorate(b: Behavior, name: &str) -> (r: Option<String>)
    ensures
        opt_text(r) == decorated(b, name@),
{
    match b {
        Behavior::Show => {
            let mut s = String::from_str("`");
            s.append(name);
            s.append("`");
            Some(s)
        },
        Behavior::StrikeThrough => {
            let mut s = String::from_str("~~`");
            s.append(name);
            s.append("`~~");
            Some(s)
        },
        Behavior::Hide => None,
    }
}

/// Lists the commands of a group for a caller.
pub fn list_commands(
    commands: &Vec<CommandSpec>,
    group_checks: &Vec<CheckSpec>,
    caller: &CallerContext,
    defaults: &PolicyDefaults,
) -> (names: Vec<String>)
    ensures
        texts(names@) == listed_commands(
            command_models(commands@),
            check_models(group_checks@),
            caller@,
            *defaults,
        ),
{
    let mut names: Vec<String> = Vec::new();
    let mut i: usize = 0;
    while i < commands.len()
        invariant
            i <= commands.len(),
            texts(names@) == listed_commands(
                command_models(commands@).take(i as int),
                check_models(group_checks@),
                caller@,
                *defaults,
            ),
        decreases commands.len() - i,
    {
        let command = &commands[i];
        let b = evaluate_command(
            &command.constraints,
            command.name.as_str(),
            &command.checks,
            group_checks,
            caller,
            defaults,
        );
        proof {
            let now = command_models(commands@).take(i + 1);
            assert(now.drop_last() == command_models(commands@).take(i as int));
            assert(now.last() == command@);
        }
        match decorate(b, command.name.as_str()) {
            Some(name) => {
                let ghost before = names@;
                names.push(name);
                assert(texts(names@) == texts(before).push(name@));
            },
            None => {},
        }
        i += 1;
    }
    assert(command_models(commands@).take(commands.len() as int) == command_models(commands@));
    names
}

/// Builds the listed form of one group for a caller.
pub fn build_group_view(group: &GroupSpec, caller: &CallerContext, defaults: &PolicyDefaults) -> (view:
    GroupCommandsView)
    ensures
        view@ == group_view(group@, caller@, *defaults),
    decreases group, 1int,
{
    let command_names = list_commands(&group.commands, &group.checks, caller, defaults);
    let sub_groups = list_groups(&group.sub_groups, caller, defaults);
    let view = GroupCommandsView {
        name: group.name.clone(),
        prefixes: clone_texts(&group.prefixes),
        command_names,
        sub_groups,
    };
    proof {
        lemma_sub_group_models(*group);
        lemma_sub_view_models(view);
    }
    view
}

/// Lists the groups among `groups` that a caller may see.
pub fn list_groups(groups: &Vec<GroupSpec>, caller: &CallerContext, defaults: &PolicyDefaults) -> (views:
    Vec<GroupCommandsView>)
    ensures
        view_models(views@) == listed_groups(group_models(groups@), caller@, *defaults),
    decreases groups, 0int,
{
    let mut views: Vec<GroupCommandsView> = Vec::new();
    let mut i: usize = 0;
    while i < groups.len()
        invariant
            i <= groups.len(),
            view_models(views@) == listed_groups(
                group_models(groups@).take(i as int),
                caller@,
                *defaults,
            ),
        decreases groups.len() - i,
    {
        let group = &groups[i];
        proof {
            let now = group_models(groups@).take(i + 1);
            assert(now.drop_last() == group_models(groups@).take(i as int));
            assert(now.last() == group@);
        }
        if evaluate(&group.constraints, caller, defaults) == Behavior::Show {
            let view = build_group_view(group, caller, defaults);
            proof {
                lemma_sub_view_models(view);
            }
            if !(view.command_names.len() == 0 && view.sub_groups.len() == 0) {
                let ghost before = views@;
                views.push(view);
                assert(view_models(views@) == view_models(before).push(view@));
            }
        }
        i += 1;
    }
    assert(group_models(groups@).take(groups.len() as int) == group_models(groups@));
    views
}

} // verus!
