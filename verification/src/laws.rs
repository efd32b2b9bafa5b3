//! What holds of every help request: laws that relate the resolver to the
//! command tree and to the visibility policy.

use vstd::prelude::*;
use crate::distance::edit_distance;
use crate::listing::{
    command_behavior,
    decorated,
    group_view,
    is_blank,
    listed_commands,
    listed_groups,
};
use crate::options::HelpOptionsModel;
use crate::outcome::{GroupViewModel, OutcomeModel, SuggestionModel};
use crate::resolver::{
    by_distance,
    find_group,
    find_in_groups,
    group_keys,
    inserted,
    resolve_spec,
    single_group_listing,
};
use crate::search::{
    command_view,
    display_name,
    entered,
    first_word,
    is_suggested,
    scan_commands,
    search_group,
    search_groups,
    SearchStopModel,
};
use crate::text::{after_word, lowercased};
use crate::tree::{CommandModel, GroupModel};
use crate::visibility::{evaluate_spec, Behavior, CallerModel, CheckModel, PolicyDefaults};

verus! {

/// `target` is `group` or is nested in it, and the policy shows every group
/// on the way from `group` to `target`, both included.
pub open spec fn reaches_from(
    group: GroupModel,
    target: GroupModel,
    caller: CallerModel,
    defaults: PolicyDefaults,
) -> bool
    decreases group, 1int,
{
    evaluate_spec(group.constraints, caller, defaults) == Behavior::Show && (group == target
        || reaches(group.sub_groups, target, caller, defaults))
}

/// `target` is one of `groups` or is nested in one, and the policy shows
/// every group on the way to it, `target` included.
pub open spec fn reaches(
    groups: Seq<GroupModel>,
    target: GroupModel,
    caller: CallerModel,
    defaults: PolicyDefaults,
) -> bool
    decreases groups, 0int,
{
    groups.len() > 0 && (reaches(groups.drop_last(), target, caller, defaults) || reaches_from(
        groups.last(),
        target,
        caller,
        defaults,
    ))
}

/// What is reached from one of the groups is reached among them.
pub proof fn lemma_reaches_through(
    groups: Seq<GroupModel>,
    i: int,
    target: GroupModel,
    caller: CallerModel,
    defaults: PolicyDefaults,
)
    requires
        0 <= i < groups.len(),
        reaches_from(groups[i], target, caller, defaults),
    ensures
        reaches(groups, target, caller, defaults),
    decreases groups.len(),
{
    if i < groups.len() - 1 {
        assert(groups.drop_last()[i] == groups[i]);
        lemma_reaches_through(groups.drop_last(), i, target, caller, defaults);
    }
}

/// A walk over commands that ends at a page ends at the page of one of the
/// commands, and the policy shows that command.
proof fn lemma_scan_found(
    commands: Seq<CommandModel>,
    group: GroupModel,
    may_match: bool,
    query: Seq<char>,
    rest: Seq<char>,
    caller: CallerModel,
    options: HelpOptionsModel,
) -> (j: int)
    requires
        scan_commands(commands, group, may_match, query, rest, caller, options).stop matches Some(
            SearchStopModel::Found(_),
        ),
    ensures
        0 <= j < commands.len(),
        command_behavior(commands[j], group.checks, caller, options.policy) == Behavior::Show,
        scan_commands(commands, group, may_match, query, rest, caller, options).stop == Some(
            SearchStopModel::Found(command_view(commands[j], group, options)),
        ),
    decreases commands.len(),
{
    let before = scan_commands(
        commands.drop_last(),
        group,
        may_match,
        query,
        rest,
        caller,
        options,
    );
    if before.stop is Some {
        let j = lemma_scan_found(
            commands.drop_last(),
            group,
            may_match,
            query,
            rest,
            caller,
            options,
        );
        assert(commands.drop_last()[j] == commands[j]);
        j
    } else {
        commands.len() - 1
    }
}

/// A walk over one group that ends at a page ends at the page of a command
/// that the policy shows, in a group that is reached from this one.
proof fn lemma_search_group_found(
    group: GroupModel,
    query: Seq<char>,
    rest: Seq<char>,
    consumed: bool,
    caller: CallerModel,
    options: HelpOptionsModel,
) -> (w: (GroupModel, int))
    requires
        search_group(group, query, rest, consumed, caller, options).stop matches Some(
            SearchStopModel::Found(_),
        ),
    ensures
        reaches_from(group, w.0, caller, options.policy),
        0 <= w.1 < w.0.commands.len(),
        command_behavior(w.0.commands[w.1], w.0.checks, caller, options.policy)
            == Behavior::Show,
        search_group(group, query, rest, consumed, caller, options).stop == Some(
            SearchStopModel::Found(command_view(w.0.commands[w.1], w.0, options)),
        ),
    decreases group, 1int,
{
    let (inner, here) = entered(group, rest);
    let may_match = group.prefixes.len() == 0 || here || consumed;
    let own = scan_commands(group.commands, group, may_match, query, inner, caller, options);
    if own.stop is Some {
        let j = lemma_scan_found(group.commands, group, may_match, query, inner, caller, options);
        (group, j)
    } else {
        lemma_search_groups_found(group.sub_groups, query, inner, consumed || here, caller, options)
    }
}

/// A walk over groups that ends at a page ends at the page of a command that
/// the policy shows, in a group that is reached from these.
proof fn lemma_search_groups_found(
    groups: Seq<GroupModel>,
    query: Seq<char>,
    rest: Seq<char>,
    consumed: bool,
    caller: CallerModel,
    options: HelpOptionsModel,
) -> (w: (GroupModel, int))
    requires
        search_groups(groups, query, rest, consumed, caller, options).stop matches Some(
            SearchStopModel::Found(_),
        ),
    ensures
        reaches(groups, w.0, caller, options.policy),
        0 <= w.1 < w.0.commands.len(),
        command_behavior(w.0.commands[w.1], w.0.checks, caller, options.policy)
            == Behavior::Show,
        search_groups(groups, query, rest, consumed, caller, options).stop == Some(
            SearchStopModel::Found(command_view(w.0.commands[w.1], w.0, options)),
        ),
    decreases groups, 0int,
{
    let before = search_groups(groups.drop_last(), query, rest, consumed, caller, options);
    if before.stop is Some {
        let w = lemma_search_groups_found(
            groups.drop_last(),
            query,
            rest,
            consumed,
            caller,
            options,
        );
        w
    } else {
        let w = lemma_search_group_found(groups.last(), query, rest, consumed, caller, options);
        assert(reaches_from(groups[groups.len() - 1], w.0, caller, options.policy));
        w
    }
}

/// A listing that reading the query as a group name gives is the listing of
/// one group by itself. That group is reached through groups that the policy
/// shows, has a command to list, and one of its keys ends the query.
proof fn lemma_find_group_result(
    group: GroupModel,
    lowered: Seq<char>,
    caller: CallerModel,
    options: HelpOptionsModel,
) -> (g: GroupModel)
    requires
        find_group(group, lowered, caller, options) is Some,
    ensures
        reaches_from(group, g, caller, options.policy),
        group_view(g, caller, options.policy).command_names.len() > 0,
        find_group(group, lowered, caller, options) == Some(
            single_group_listing(g, caller, options),
        ),
    decreases group, 1int,
{
    if group_keys(group).contains(lowered) {
        group
    } else {
        match first_word(group_keys(group), lowered) {
            Some(k) => lemma_find_in_groups_result(
                group.sub_groups,
                after_word(lowered, group_keys(group)[k]),
                caller,
                options,
            ),
            None => lemma_find_in_groups_result(group.sub_groups, lowered, caller, options),
        }
    }
}

/// The same for a sequence of groups.
proof fn lemma_find_in_groups_result(
    groups: Seq<GroupModel>,
    lowered: Seq<char>,
    caller: CallerModel,
    options: HelpOptionsModel,
) -> (g: GroupModel)
    requires
        find_in_groups(groups, lowered, caller, options) is Some,
    ensures
        reaches(groups, g, caller, options.policy),
        group_view(g, caller, options.policy).command_names.len() > 0,
        find_in_groups(groups, lowered, caller, options) == Some(
            single_group_listing(g, caller, options),
        ),
    decreases groups, 0int,
{
    if find_in_groups(groups.drop_last(), lowered, caller, options) is Some {
        let g = lemma_find_in_groups_result(groups.drop_last(), lowered, caller, options);
        g
    } else {
        let g = lemma_find_group_result(groups.last(), lowered, caller, options);
        assert(reaches_from(groups[groups.len() - 1], g, caller, options.policy));
        g
    }
}

/// Every group that is listed among `groups` is the listed form of one of
/// them that the policy shows.
proof fn lemma_listed_group_origin(
    groups: Seq<GroupModel>,
    caller: CallerModel,
    defaults: PolicyDefaults,
    k: int,
) -> (i: int)
    requires
        0 <= k < listed_groups(groups, caller, defaults).len(),
    ensures
        0 <= i < groups.len(),
        evaluate_spec(groups[i].constraints, caller, defaults) == Behavior::Show,
        listed_groups(groups, caller, defaults)[k] == group_view(groups[i], caller, defaults),
    decreases groups.len(),
{
    let before = listed_groups(groups.drop_last(), caller, defaults);
    if k < before.len() {
        let i = lemma_listed_group_origin(groups.drop_last(), caller, defaults, k);
        assert(groups.drop_last()[i] == groups[i]);
        i
    } else {
        groups.len() - 1
    }
}

/// Every name that is listed among `commands` is the decorated name of one
/// of them that the policy does not hide.
proof fn lemma_listed_command_origin(
    commands: Seq<CommandModel>,
    group_checks: Seq<CheckModel>,
    caller: CallerModel,
    defaults: PolicyDefaults,
    k: int,
) -> (j: int)
    requires
        0 <= k < listed_commands(commands, group_checks, caller, defaults).len(),
    ensures
        0 <= j < commands.len(),
        command_behavior(commands[j], group_checks, caller, defaults) != Behavior::Hide,
        decorated(
            command_behavior(commands[j], group_checks, caller, defaults),
            commands[j].name,
        ) == Some(listed_commands(commands, group_checks, caller, defaults)[k]),
    decreases commands.len(),
{
    let before = listed_commands(commands.drop_last(), group_checks, caller, defaults);
    if k < before.len() {
        let j = lemma_listed_command_origin(commands.drop_last(), group_checks, caller, defaults, k);
        assert(commands.drop_last()[j] == commands[j]);
        j
    } else {
        commands.len() - 1
    }
}

/// A command's page is returned only for a command that is shown along its
/// whole chain: the policy shows every group from the top of the tree down
/// to the command's own, and shows the command itself, checks included.
/// So a command with `Hide` (or anything but `Show`) anywhere in its chain
/// is never the one that a request returns.
pub proof fn lemma_single_command_is_shown(
    query: Seq<char>,
    groups: Seq<GroupModel>,
    caller: CallerModel,
    options: HelpOptionsModel,
)
    ensures
        resolve_spec(query, groups, caller, options) is SingleCommand ==> exists|
            g: GroupModel,
            j: int,
        |
            #![trigger reaches(groups, g, caller, options.policy), g.commands[j]]
            reaches(groups, g, caller, options.policy) && 0 <= j < g.commands.len()
                && command_behavior(g.commands[j], g.checks, caller, options.policy)
                == Behavior::Show && resolve_spec(query, groups, caller, options)
                == (OutcomeModel::SingleCommand {
                command: command_view(g.commands[j], g, options),
            }),
{
    if resolve_spec(query, groups, caller, options) is SingleCommand {
        if query.len() > 0 {
            let walk = search_groups(groups, query, query, false, caller, options);
            if walk.stop is None && walk.suggestions.len() == 0 {
                if find_in_groups(groups, lowercased(query), caller, options) is Some {
                    let g = lemma_find_in_groups_result(
                        groups,
                        lowercased(query),
                        caller,
                        options,
                    );
                }
            } else {
                let w = lemma_search_groups_found(groups, query, query, false, caller, options);
                assert(reaches(groups, w.0, caller, options.policy) && 0 <= w.1
                    < w.0.commands.len());
            }
        }
    }
}

/// Every group of a listing that a request returns is the listed form of a
/// group of the tree that is reached through groups that the policy shows,
/// itself included.
pub proof fn lemma_listing_holds_shown_groups(
    query: Seq<char>,
    groups: Seq<GroupModel>,
    caller: CallerModel,
    options: HelpOptionsModel,
    k: int,
)
    ensures
        resolve_spec(query, groups, caller, options) matches OutcomeModel::GroupListing {
            groups: views,
            ..
        } ==> 0 <= k < views.len() ==> exists|g: GroupModel| #[trigger]
            reaches(groups, g, caller, options.policy) && views[k] == group_view(
                g,
                caller,
                options.policy,
            ),
{
    if let OutcomeModel::GroupListing { groups: views, .. } = resolve_spec(
        query,
        groups,
        caller,
        options,
    ) {
        if 0 <= k < views.len() {
            if query.len() == 0 {
                let i = lemma_listed_group_origin(groups, caller, options.policy, k);
                lemma_reaches_through(groups, i, groups[i], caller, options.policy);
            } else {
                let g = lemma_find_in_groups_result(groups, lowercased(query), caller, options);
                assert(views[k] == group_view(g, caller, options.policy));
            }
        }
    }
}

/// In the listed form of a group, every command name is the decorated name
/// of a command of the group that the policy does not hide for the caller:
/// a hidden command is never listed.
pub proof fn lemma_listed_names_are_visible(
    group: GroupModel,
    caller: CallerModel,
    defaults: PolicyDefaults,
    k: int,
)
    ensures
        0 <= k < group_view(group, caller, defaults).command_names.len() ==> exists|j: int|
            0 <= j < group.commands.len() && command_behavior(
                #[trigger] group.commands[j],
                group.checks,
                caller,
                defaults,
            ) != Behavior::Hide && decorated(
                command_behavior(group.commands[j], group.checks, caller, defaults),
                group.commands[j].name,
            ) == Some(group_view(group, caller, defaults).command_names[k]),
{
    if 0 <= k < group_view(group, caller, defaults).command_names.len() {
        let j = lemma_listed_command_origin(group.commands, group.checks, caller, defaults, k);
        assert(0 <= j < group.commands.len() && command_behavior(
            group.commands[j],
            group.checks,
            caller,
            defaults,
        ) != Behavior::Hide);
    }
}

/// In the listed form of a group, every nested group is the listed form of
/// a group nested in it that the policy shows.
pub proof fn lemma_listed_sub_groups_are_shown(
    group: GroupModel,
    caller: CallerModel,
    defaults: PolicyDefaults,
    k: int,
)
    ensures
        0 <= k < group_view(group, caller, defaults).sub_groups.len() ==> exists|i: int|
            0 <= i < group.sub_groups.len() && evaluate_spec(
                (#[trigger] group.sub_groups[i]).constraints,
                caller,
                defaults,
            ) == Behavior::Show && group_view(group, caller, defaults).sub_groups[k]
                == group_view(group.sub_groups[i], caller, defaults),
{
    if 0 <= k < group_view(group, caller, defaults).sub_groups.len() {
        let i = lemma_listed_group_origin(group.sub_groups, caller, defaults, k);
        assert(0 <= i < group.sub_groups.len() && evaluate_spec(
            group.sub_groups[i].constraints,
            caller,
            defaults,
        ) == Behavior::Show);
    }
}

/// Where one of the groups gives a listing for a name, the sequence does.
proof fn lemma_find_reaches_later(
    groups: Seq<GroupModel>,
    i: int,
    lowered: Seq<char>,
    caller: CallerModel,
    options: HelpOptionsModel,
)
    requires
        0 <= i < groups.len(),
        find_group(groups[i], lowered, caller, options) is Some,
    ensures
        find_in_groups(groups, lowered, caller, options) is Some,
        (forall|j: int| 0 <= j < i ==> #[trigger] find_group(groups[j], lowered, caller, options)
            is None) ==> find_in_groups(groups, lowered, caller, options) == find_group(
            groups[i],
            lowered,
            caller,
            options,
        ),
    decreases groups.len(),
{
    if i < groups.len() - 1 {
        assert(groups.drop_last()[i] == groups[i]);
        lemma_find_reaches_later(groups.drop_last(), i, lowered, caller, options);
        assert forall|j: int| 0 <= j < i implies groups.drop_last()[j] == groups[j] by {}
    } else {
        if forall|j: int|
            0 <= j < i ==> #[trigger] find_group(groups[j], lowered, caller, options) is None {
            lemma_find_none_before(groups.drop_last(), lowered, caller, options);
        }
    }
}

/// Where none of the groups gives a listing for a name, the sequence gives
/// none.
proof fn lemma_find_none_before(
    groups: Seq<GroupModel>,
    lowered: Seq<char>,
    caller: CallerModel,
    options: HelpOptionsModel,
)
    requires
        forall|j: int|
            0 <= j < groups.len() ==> #[trigger] find_group(groups[j], lowered, caller, options)
                is None,
    ensures
        find_in_groups(groups, lowered, caller, options) is None,
    decreases groups.len(),
{
    if groups.len() > 0 {
        assert forall|j: int| 0 <= j < groups.drop_last().len() implies #[trigger] find_group(
            groups.drop_last()[j],
            lowered,
            caller,
            options,
        ) is None by {
            assert(groups.drop_last()[j] == groups[j]);
        }
        lemma_find_none_before(groups.drop_last(), lowered, caller, options);
        assert(find_group(groups[groups.len() - 1], lowered, caller, options) is None);
    }
}

/// A query that is the name of a top-level group, and that finds no command
/// and brings no suggestion, lists one group by itself and is no `NoMatch`,
/// provided the policy shows the group and the group has a command to list.
/// The group listed answers to the name; it is the group asked for unless an
/// earlier one answers to the same name.
pub proof fn lemma_group_name_lists_group(
    groups: Seq<GroupModel>,
    i: int,
    caller: CallerModel,
    options: HelpOptionsModel,
)
    requires
        0 <= i < groups.len(),
        groups[i].name.len() > 0,
        evaluate_spec(groups[i].constraints, caller, options.policy) == Behavior::Show,
        group_view(groups[i], caller, options.policy).command_names.len() > 0,
        search_groups(groups, groups[i].name, groups[i].name, false, caller, options).stop
            is None,
        search_groups(
            groups,
            groups[i].name,
            groups[i].name,
            false,
            caller,
            options,
        ).suggestions.len() == 0,
    ensures
        exists|g: GroupModel| #[trigger]
            reaches(groups, g, caller, options.policy) && resolve_spec(
                groups[i].name,
                groups,
                caller,
                options,
            ) == single_group_listing(g, caller, options),
        (forall|j: int|
            0 <= j < i ==> #[trigger] find_group(
                groups[j],
                lowercased(groups[i].name),
                caller,
                options,
            ) is None) ==> resolve_spec(groups[i].name, groups, caller, options)
            == single_group_listing(groups[i], caller, options),
{
    let query = groups[i].name;
    let lowered = lowercased(query);
    assert(group_keys(groups[i])[0] == lowered);
    assert(group_keys(groups[i]).contains(lowered));
    assert(find_group(groups[i], lowered, caller, options) == Some(
        single_group_listing(groups[i], caller, options),
    ));
    lemma_find_reaches_later(groups, i, lowered, caller, options);
    let g = lemma_find_in_groups_result(groups, lowered, caller, options);
    assert(reaches(groups, g, caller, options.policy));
}

/// No entry is nearer than an entry before it.
pub open spec fn is_ordered(list: Seq<SuggestionModel>) -> bool {
    forall|i: int, j: int| 0 <= i < j < list.len() ==> list[i].distance <= list[j].distance
}

/// The entries of `list` that are at distance `d`, in order.
pub open spec fn at_distance(list: Seq<SuggestionModel>, d: nat) -> Seq<SuggestionModel>
    decreases list.len(),
{
    if list.len() == 0 {
        Seq::empty()
    } else if list.last().distance == d {
        at_distance(list.drop_last(), d).push(list.last())
    } else {
        at_distance(list.drop_last(), d)
    }
}

/// Putting an entry into a list adds one entry and keeps every bound on the
/// distances that holds of the list and of the entry.
proof fn lemma_inserted_bounded(list: Seq<SuggestionModel>, item: SuggestionModel, bound: nat)
    requires
        forall|k: int| 0 <= k < list.len() ==> (#[trigger] list[k]).distance <= bound,
        item.distance <= bound,
    ensures
        inserted(list, item).len() == list.len() + 1,
        forall|k: int|
            0 <= k < inserted(list, item).len() ==> (#[trigger] inserted(
                list,
                item,
            )[k]).distance <= bound,
    decreases list.len(),
{
    if list.len() > 0 && list.last().distance > item.distance {
        assert forall|k: int| 0 <= k < list.drop_last().len() implies (
        #[trigger] list.drop_last()[k]).distance <= bound by {
            assert(list.drop_last()[k] == list[k]);
        }
        lemma_inserted_bounded(list.drop_last(), item, bound);
    }
}

/// Putting an entry into an ordered list leaves it ordered.
proof fn lemma_inserted_ordered(list: Seq<SuggestionModel>, item: SuggestionModel)
    requires
        is_ordered(list),
    ensures
        is_ordered(inserted(list, item)),
    decreases list.len(),
{
    if list.len() > 0 && list.last().distance > item.distance {
        let front = list.drop_last();
        assert(is_ordered(front)) by {
            assert forall|i: int, j: int| 0 <= i < j < front.len() implies front[i].distance
                <= front[j].distance by {
                assert(front[i] == list[i] && front[j] == list[j]);
            }
        }
        lemma_inserted_ordered(front, item);
        assert forall|k: int| 0 <= k < front.len() implies (#[trigger] front[k]).distance
            <= list.last().distance by {
            assert(front[k] == list[k]);
        }
        lemma_inserted_bounded(front, item, list.last().distance);
    }
}

/// Putting an entry into a list changes the entries at any one distance as
/// adding it at the end does.
proof fn lemma_inserted_keeps_order(list: Seq<SuggestionModel>, item: SuggestionModel, d: nat)
    ensures
        at_distance(inserted(list, item), d) == at_distance(list.push(item), d),
    decreases list.len(),
{
    assert(list.push(item).drop_last() == list);
    if list.len() == 0 {
        assert(seq![item] == list.push(item));
    } else if list.last().distance > item.distance {
        let front = list.drop_last();
        let placed = inserted(front, item);
        lemma_inserted_keeps_order(front, item, d);
        assert(placed.push(list.last()).drop_last() == placed);
        assert(front.push(item).drop_last() == front);
        assert(at_distance(front.push(item), d) == if item.distance == d {
            at_distance(front, d).push(item)
        } else {
            at_distance(front, d)
        });
        assert(at_distance(list, d) == if list.last().distance == d {
            at_distance(front, d).push(list.last())
        } else {
            at_distance(front, d)
        });
        assert(at_distance(placed.push(list.last()), d) == if list.last().distance == d {
            at_distance(placed, d).push(list.last())
        } else {
            at_distance(placed, d)
        });
    }
}

/// Putting an entry into a list adds that entry and nothing else.
proof fn lemma_inserted_adds(list: Seq<SuggestionModel>, item: SuggestionModel)
    ensures
        inserted(list, item).to_multiset() == list.to_multiset().insert(item),
    decreases list.len(),
{
    broadcast use vstd::seq_lib::to_multiset_build;

    if list.len() == 0 {
        assert(seq![item] == list.push(item));
    } else if list.last().distance > item.distance {
        let front = list.drop_last();
        lemma_inserted_adds(front, item);
        assert(front.push(list.last()) == list);
        assert(front.to_multiset().insert(item).insert(list.last()) =~= front.to_multiset().insert(
            list.last(),
        ).insert(item));
    }
}

/// The suggestions of an outcome are those that were found, each as often as
/// it was found, nearest first, and those at the same distance in the order
/// in which they were found.
pub proof fn lemma_suggestions_ordered(found: Seq<SuggestionModel>, d: nat)
    ensures
        is_ordered(by_distance(found)),
        by_distance(found).to_multiset() == found.to_multiset(),
        at_distance(by_distance(found), d) == at_distance(found, d),
    decreases found.len(),
{
    broadcast use vstd::seq_lib::to_multiset_build;

    if found.len() > 0 {
        let front = found.drop_last();
        lemma_suggestions_ordered(front, d);
        lemma_inserted_ordered(by_distance(front), found.last());
        lemma_inserted_adds(by_distance(front), found.last());
        lemma_inserted_keeps_order(by_distance(front), found.last(), d);
        assert(front.push(found.last()) == found);
        assert(by_distance(front).push(found.last()).drop_last() == by_distance(front));
        assert(at_distance(by_distance(front).push(found.last()), d) == if found.last().distance
            == d {
            at_distance(by_distance(front), d).push(found.last())
        } else {
            at_distance(by_distance(front), d)
        });
    } else {
        assert(found =~= Seq::<SuggestionModel>::empty());
    }
}

/// The suggestion that a command of `group` gives for `query`.
pub open spec fn suggestion_of(
    command: CommandModel,
    group: GroupModel,
    query: Seq<char>,
) -> SuggestionModel {
    SuggestionModel {
        name: display_name(command, group),
        distance: edit_distance(display_name(command, group), query),
    }
}

/// Every suggestion of a walk over commands is that of one of the commands,
/// and that command is suggested: shown, and within the threshold.
proof fn lemma_scan_suggested(
    commands: Seq<CommandModel>,
    group: GroupModel,
    may_match: bool,
    query: Seq<char>,
    rest: Seq<char>,
    caller: CallerModel,
    options: HelpOptionsModel,
    k: int,
) -> (j: int)
    requires
        0 <= k < scan_commands(
            commands,
            group,
            may_match,
            query,
            rest,
            caller,
            options,
        ).suggestions.len(),
    ensures
        0 <= j < commands.len(),
        is_suggested(commands[j], group, query, caller, options),
        scan_commands(commands, group, may_match, query, rest, caller, options).suggestions[k]
            == suggestion_of(commands[j], group, query),
    decreases commands.len(),
{
    let before = scan_commands(
        commands.drop_last(),
        group,
        may_match,
        query,
        rest,
        caller,
        options,
    );
    if k < before.suggestions.len() {
        let j = lemma_scan_suggested(
            commands.drop_last(),
            group,
            may_match,
            query,
            rest,
            caller,
            options,
            k,
        );
        assert(commands.drop_last()[j] == commands[j]);
        j
    } else {
        commands.len() - 1
    }
}

/// Every suggestion of a walk over one group is that of a suggested command
/// in a group that is reached from this one.
proof fn lemma_search_group_suggested(
    group: GroupModel,
    query: Seq<char>,
    rest: Seq<char>,
    consumed: bool,
    caller: CallerModel,
    options: HelpOptionsModel,
    k: int,
) -> (w: (GroupModel, int))
    requires
        0 <= k < search_group(group, query, rest, consumed, caller, options).suggestions.len(),
    ensures
        reaches_from(group, w.0, caller, options.policy),
        0 <= w.1 < w.0.commands.len(),
        is_suggested(w.0.commands[w.1], w.0, query, caller, options),
        search_group(group, query, rest, consumed, caller, options).suggestions[k]
            == suggestion_of(w.0.commands[w.1], w.0, query),
    decreases group, 1int,
{
    let (inner, here) = entered(group, rest);
    let may_match = group.prefixes.len() == 0 || here || consumed;
    let own = scan_commands(group.commands, group, may_match, query, inner, caller, options);
    if k < own.suggestions.len() {
        let j = lemma_scan_suggested(
            group.commands,
            group,
            may_match,
            query,
            inner,
            caller,
            options,
            k,
        );
        (group, j)
    } else {
        lemma_search_groups_suggested(
            group.sub_groups,
            query,
            inner,
            consumed || here,
            caller,
            options,
            k - own.suggestions.len(),
        )
    }
}

/// Every suggestion of a walk over groups is that of a suggested command in
/// a group that is reached from these.
proof fn lemma_search_groups_suggested(
    groups: Seq<GroupModel>,
    query: Seq<char>,
    rest: Seq<char>,
    consumed: bool,
    caller: CallerModel,
    options: HelpOptionsModel,
    k: int,
) -> (w: (GroupModel, int))
    requires
        0 <= k < search_groups(groups, query, rest, consumed, caller, options).suggestions.len(),
    ensures
        reaches(groups, w.0, caller, options.policy),
        0 <= w.1 < w.0.commands.len(),
        is_suggested(w.0.commands[w.1], w.0, query, caller, options),
        search_groups(groups, query, rest, consumed, caller, options).suggestions[k]
            == suggestion_of(w.0.commands[w.1], w.0, query),
    decreases groups, 0int,
{
    let before = search_groups(groups.drop_last(), query, rest, consumed, caller, options);
    if k < before.suggestions.len() {
        lemma_search_groups_suggested(groups.drop_last(), query, rest, consumed, caller, options, k)
    } else {
        lemma_search_group_suggested(
            groups.last(),
            query,
            rest,
            consumed,
            caller,
            options,
            k - before.suggestions.len(),
        )
    }
}

/// Every suggestion of an outcome is the display name of a command that is
/// shown along its whole chain, with its distance to the query as typed, and
/// that distance is within the threshold. Suggestions are never empty, and a
/// threshold of zero gives none.
pub proof fn lemma_suggestions_are_shown_and_near(
    query: Seq<char>,
    groups: Seq<GroupModel>,
    caller: CallerModel,
    options: HelpOptionsModel,
    k: int,
)
    ensures
        options.max_levenshtein_distance == 0 ==> !(resolve_spec(query, groups, caller, options)
            is Suggestions),
        resolve_spec(query, groups, caller, options) matches OutcomeModel::Suggestions {
            suggestions,
            ..
        } ==> suggestions.len() > 0 && (0 <= k < suggestions.len() ==> exists|
            g: GroupModel,
            j: int,
        |
            #![trigger reaches(groups, g, caller, options.policy), g.commands[j]]
            reaches(groups, g, caller, options.policy) && 0 <= j < g.commands.len()
                && is_suggested(g.commands[j], g, query, caller, options) && suggestions[k]
                == suggestion_of(g.commands[j], g, query)),
{
    if let OutcomeModel::Suggestions { suggestions, .. } = resolve_spec(
        query,
        groups,
        caller,
        options,
    ) {
        let walk = search_groups(groups, query, query, false, caller, options);
        if query.len() > 0 && walk.stop is None && walk.suggestions.len() > 0 {
            lemma_suggestions_ordered(walk.suggestions, 0);
            vstd::seq_lib::to_multiset_len(walk.suggestions);
            vstd::seq_lib::to_multiset_len(suggestions);
            lemma_search_groups_suggested(groups, query, query, false, caller, options, 0);
            if 0 <= k < suggestions.len() {
                assert(suggestions.contains(suggestions[k]));
                vstd::seq_lib::to_multiset_contains(suggestions, suggestions[k]);
                vstd::seq_lib::to_multiset_contains(walk.suggestions, suggestions[k]);
                assert(walk.suggestions.contains(suggestions[k]));
                let i = choose|i: int|
                    0 <= i < walk.suggestions.len() && walk.suggestions[i] == suggestions[k];
                let w = lemma_search_groups_suggested(
                    groups,
                    query,
                    query,
                    false,
                    caller,
                    options,
                    i,
                );
                assert(reaches(groups, w.0, caller, options.policy) && 0 <= w.1
                    < w.0.commands.len());
            }
        } else if query.len() > 0 && walk.stop is None {
            if find_in_groups(groups, lowercased(query), caller, options) is Some {
                lemma_find_in_groups_result(groups, lowercased(query), caller, options);
            }
        }
    }
}

/// What is shown on the way to a group and on from there is shown all the
/// way.
proof fn lemma_reaches_from_on(
    group: GroupModel,
    mid: GroupModel,
    target: GroupModel,
    caller: CallerModel,
    defaults: PolicyDefaults,
)
    requires
        reaches_from(group, mid, caller, defaults),
        reaches_from(mid, target, caller, defaults),
    ensures
        reaches_from(group, target, caller, defaults),
    decreases group, 1int,
{
    if group != mid {
        lemma_reaches_on(group.sub_groups, mid, target, caller, defaults);
    }
}

/// The same from a sequence of groups.
proof fn lemma_reaches_on(
    groups: Seq<GroupModel>,
    mid: GroupModel,
    target: GroupModel,
    caller: CallerModel,
    defaults: PolicyDefaults,
)
    requires
        reaches(groups, mid, caller, defaults),
        reaches_from(mid, target, caller, defaults),
    ensures
        reaches(groups, target, caller, defaults),
    decreases groups, 0int,
{
    if reaches(groups.drop_last(), mid, caller, defaults) {
        lemma_reaches_on(groups.drop_last(), mid, target, caller, defaults);
    } else {
        lemma_reaches_from_on(groups.last(), mid, target, caller, defaults);
    }
}

/// A group that is reached is shown.
proof fn lemma_reached_from_is_shown(
    group: GroupModel,
    target: GroupModel,
    caller: CallerModel,
    defaults: PolicyDefaults,
)
    requires
        reaches_from(group, target, caller, defaults),
    ensures
        evaluate_spec(target.constraints, caller, defaults) == Behavior::Show,
    decreases group, 1int,
{
    if group != target {
        lemma_reached_is_shown(group.sub_groups, target, caller, defaults);
    }
}

/// The same from a sequence of groups.
proof fn lemma_reached_is_shown(
    groups: Seq<GroupModel>,
    target: GroupModel,
    caller: CallerModel,
    defaults: PolicyDefaults,
)
    requires
        reaches(groups, target, caller, defaults),
    ensures
        evaluate_spec(target.constraints, caller, defaults) == Behavior::Show,
    decreases groups, 0int,
{
    if reaches(groups.drop_last(), target, caller, defaults) {
        lemma_reached_is_shown(groups.drop_last(), target, caller, defaults);
    } else {
        lemma_reached_from_is_shown(groups.last(), target, caller, defaults);
    }
}

/// `listed` stands among the command names of the listed group or of a
/// group nested in it, at any depth.
pub open spec fn view_lists(view: GroupViewModel, listed: Seq<char>) -> bool
    decreases view, 1int,
{
    view.command_names.contains(listed) || views_list(view.sub_groups, listed)
}

/// `listed` stands among the command names of one of the listed groups, at
/// any depth.
pub open spec fn views_list(views: Seq<GroupViewModel>, listed: Seq<char>) -> bool
    decreases views, 0int,
{
    views.len() > 0 && (views_list(views.drop_last(), listed) || view_lists(views.last(), listed))
}

/// What the listed form of a shown group lists at any depth is the decorated
/// name of a command that the policy does not hide, in a group reached from
/// this one.
proof fn lemma_group_view_lists(
    group: GroupModel,
    caller: CallerModel,
    defaults: PolicyDefaults,
    listed: Seq<char>,
) -> (w: (GroupModel, int))
    requires
        evaluate_spec(group.constraints, caller, defaults) == Behavior::Show,
        view_lists(group_view(group, caller, defaults), listed),
    ensures
        reaches_from(group, w.0, caller, defaults),
        0 <= w.1 < w.0.commands.len(),
        command_behavior(w.0.commands[w.1], w.0.checks, caller, defaults) != Behavior::Hide,
        decorated(
            command_behavior(w.0.commands[w.1], w.0.checks, caller, defaults),
            w.0.commands[w.1].name,
        ) == Some(listed),
    decreases group, 1int,
{
    let view = group_view(group, caller, defaults);
    if view.command_names.contains(listed) {
        let k = choose|k: int| 0 <= k < view.command_names.len() && view.command_names[k] == listed;
        let j = lemma_listed_command_origin(group.commands, group.checks, caller, defaults, k);
        (group, j)
    } else {
        lemma_listed_groups_list(group.sub_groups, caller, defaults, listed)
    }
}

/// The same for the listed forms of a sequence of groups.
proof fn lemma_listed_groups_list(
    groups: Seq<GroupModel>,
    caller: CallerModel,
    defaults: PolicyDefaults,
    listed: Seq<char>,
) -> (w: (GroupModel, int))
    requires
        views_list(listed_groups(groups, caller, defaults), listed),
    ensures
        reaches(groups, w.0, caller, defaults),
        0 <= w.1 < w.0.commands.len(),
        command_behavior(w.0.commands[w.1], w.0.checks, caller, defaults) != Behavior::Hide,
        decorated(
            command_behavior(w.0.commands[w.1], w.0.checks, caller, defaults),
            w.0.commands[w.1].name,
        ) == Some(listed),
    decreases groups, 0int,
{
    let before = listed_groups(groups.drop_last(), caller, defaults);
    let last = groups.last();
    let view = group_view(last, caller, defaults);
    if evaluate_spec(last.constraints, caller, defaults) == Behavior::Show && !is_blank(view) {
        assert(before.push(view).drop_last() == before);
        if views_list(before, listed) {
            lemma_listed_groups_list(groups.drop_last(), caller, defaults, listed)
        } else {
            lemma_group_view_lists(last, caller, defaults, listed)
        }
    } else {
        lemma_listed_groups_list(groups.drop_last(), caller, defaults, listed)
    }
}

/// Whatever a listing lists, at the top or in a nested group at any depth,
/// is the decorated name of a command that the policy does not hide for the
/// caller, and the policy shows every group from the top of the tree down to
/// that command's own. So a command with `Hide` anywhere in its chain is
/// never listed.
pub proof fn lemma_listing_hides_hidden(
    query: Seq<char>,
    groups: Seq<GroupModel>,
    caller: CallerModel,
    options: HelpOptionsModel,
    listed: Seq<char>,
)
    ensures
        resolve_spec(query, groups, caller, options) matches OutcomeModel::GroupListing {
            groups: views,
            ..
        } ==> views_list(views, listed) ==> exists|g: GroupModel, j: int|
            #![trigger reaches(groups, g, caller, options.policy), g.commands[j]]
            reaches(groups, g, caller, options.policy) && 0 <= j < g.commands.len()
                && command_behavior(g.commands[j], g.checks, caller, options.policy)
                != Behavior::Hide && decorated(
                command_behavior(g.commands[j], g.checks, caller, options.policy),
                g.commands[j].name,
            ) == Some(listed),
{
    if let OutcomeModel::GroupListing { groups: views, .. } = resolve_spec(
        query,
        groups,
        caller,
        options,
    ) {
        if views_list(views, listed) {
            if query.len() == 0 {
                let w = lemma_listed_groups_list(groups, caller, options.policy, listed);
                assert(reaches(groups, w.0, caller, options.policy) && 0 <= w.1
                    < w.0.commands.len());
            } else {
                let top = lemma_find_in_groups_result(groups, lowercased(query), caller, options);
                let view = group_view(top, caller, options.policy);
                assert(views == seq![view]);
                assert(views.drop_last() == Seq::<GroupViewModel>::empty());
                assert(!views_list(views.drop_last(), listed));
                assert(views.last() == view);
                assert(view_lists(view, listed));
                lemma_reached_is_shown(groups, top, caller, options.policy);
                let w = lemma_group_view_lists(top, caller, options.policy, listed);
                lemma_reaches_on(groups, top, w.0, caller, options.policy);
                assert(reaches(groups, w.0, caller, options.policy) && 0 <= w.1
                    < w.0.commands.len());
            }
        }
    }
}

} // verus!
