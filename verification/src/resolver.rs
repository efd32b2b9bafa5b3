//! Resolving a help request into one outcome.
//!
//! An empty query lists every group that the caller may see. Any other query
//! is first looked up as the path of a command; where no command bears that
//! name, the commands whose names are close are suggested; where none is
//! close either, the query is read as the name of a group.

use vstd::prelude::*;
use crate::listing::{build_group_view, group_view, list_groups, listed_groups};
use crate::options::{HelpOptions, HelpOptionsModel};
use crate::outcome::{
    suggestion_models,
    view_models,
    GroupCommandsView,
    OutcomeModel,
    ResolvedOutcome,
    Suggestion,
    SuggestionModel,
};
use crate::search::{
    find_first_word,
    first_word,
    lemma_first_word_fits,
    search_groups,
    search_in_groups,
    SearchStop,
    SearchStopModel,
};
use crate::text::{after_word, chars_of, contains_text, lowercase, lowercased, tail, texts};
use crate::tree::{group_models, lemma_sub_group_models, GroupModel, GroupSpec};
use crate::visibility::{evaluate, evaluate_spec, Behavior, CallerContext, CallerModel, Channel};

verus! {

/// `item` put into `sorted` behind every entry that is no farther than it.
pub open spec fn inserted(sorted: Seq<SuggestionModel>, item: SuggestionModel) -> Seq<
    SuggestionModel,
>
    decreases sorted.len(),
{
    if sorted.len() == 0 {
        seq![item]
    } else if sorted.last().distance <= item.distance {
        sorted.push(item)
    } else {
        inserted(sorted.drop_last(), item).push(sorted.last())
    }
}

/// The suggestions ordered by distance, nearest first; entries at the same
/// distance keep the order in which they were found.
pub open spec fn by_distance(found: Seq<SuggestionModel>) -> Seq<SuggestionModel>
    decreases found.len(),
{
    if found.len() == 0 {
        Seq::empty()
    } else {
        inserted(by_distance(found.drop_last()), found.last())
    }
}

/// `inserted` puts the item at the place behind which every entry is farther
/// and before which the entry, if there is one, is not.
pub proof fn lemma_inserted_at(sorted: Seq<SuggestionModel>, item: SuggestionModel, at: int)
    requires
        0 <= at <= sorted.len(),
        forall|k: int| at <= k < sorted.len() ==> (#[trigger] sorted[k]).distance > item.distance,
        at > 0 ==> sorted[at - 1].distance <= item.distance,
    ensures
        inserted(sorted, item) == sorted.insert(at, item),
    decreases sorted.len(),
{
    if sorted.len() == 0 {
        assert(seq![item] =~= sorted.insert(at, item));
    } else if at == sorted.len() {
        assert(sorted.push(item) =~= sorted.insert(at, item));
    } else {
        assert(sorted.last().distance > item.distance);
        lemma_inserted_at(sorted.drop_last(), item, at);
        assert(sorted.drop_last().insert(at, item).push(sorted.last()) =~= sorted.insert(at, item));
    }
}

/// The keys under which a group is found by name: its name and its
/// prefixes, in lower case.
pub open spec fn group_keys(group: GroupModel) -> Seq<Seq<char>> {
    seq![lowercased(group.name)] + group.prefixes.map_values(|p: Seq<char>| lowercased(p))
}

/// The listing of one group by itself, under the group's description.
pub open spec fn single_group_listing(
    group: GroupModel,
    caller: CallerModel,
    options: HelpOptionsModel,
) -> OutcomeModel {
    OutcomeModel::GroupListing {
        intro: match group.description {
            Some(description) => description,
            None => Seq::empty(),
        },
        groups: seq![group_view(group, caller, options.policy)],
    }
}

/// Reads `lowered` as the name of `group` or of a group nested in it. A
/// group that the policy does not show is passed over with all it holds. A
/// group whose key is all of `lowered` is listed if it has a command to
/// list. A key that stands at the front of `lowered` as a whole word is
/// taken away and the nested groups are asked; a group without prefixes
/// hands `lowered` on to its nested groups as it is.
pub open spec fn find_group(
    group: GroupModel,
    lowered: Seq<char>,
    caller: CallerModel,
    options: HelpOptionsModel,
) -> Option<OutcomeModel>
    decreases group, 1int,
{
    if evaluate_spec(group.constraints, caller, options.policy) != Behavior::Show {
        None
    } else if group_keys(group).contains(lowered) {
        if group_view(group, caller, options.policy).command_names.len() > 0 {
            Some(single_group_listing(group, caller, options))
        } else {
            None
        }
    } else {
        match first_word(group_keys(group), lowered) {
            Some(k) => find_in_groups(
                group.sub_groups,
                after_word(lowered, group_keys(group)[k]),
                caller,
                options,
            ),
            None => if group.prefixes.len() == 0 {
                find_in_groups(group.sub_groups, lowered, caller, options)
            } else {
                None
            },
        }
    }
}

/// The first listing that `find_group` gives for one of `groups`, in order.
pub open spec fn find_in_groups(
    groups: Seq<GroupModel>,
    lowered: Seq<char>,
    caller: CallerModel,
    options: HelpOptionsModel,
) -> Option<OutcomeModel>
    decreases groups, 0int,
{
    if groups.len() == 0 {
        None
    } else {
        match find_in_groups(groups.drop_last(), lowered, caller, options) {
            Some(outcome) => Some(outcome),
            None => find_group(groups.last(), lowered, caller, options),
        }
    }
}

/// The text above a listing of all groups: the tip on single commands and,
/// where one is set for the caller's kind of channel, the tip on
/// struck-through commands on a line of its own.
pub open spec fn listing_intro(caller: CallerModel, options: HelpOptionsModel) -> Seq<char> {
    let tip = if caller.channel is Direct {
        options.strikethrough_commands_tip_in_dm
    } else {
        options.strikethrough_commands_tip_in_guild
    };
    match tip {
        Some(text) => options.individual_command_tip + "\n"@ + text,
        None => options.individual_command_tip,
    }
}

/// The outcome that reports that nothing can be offered.
pub open spec fn no_match(options: HelpOptionsModel) -> OutcomeModel {
    OutcomeModel::NoMatch { message: options.no_help_available_text }
}

/// The outcome of a help request.
pub open spec fn resolve_spec(
    query: Seq<char>,
    groups: Seq<GroupModel>,
    caller: CallerModel,
    options: HelpOptionsModel,
) -> OutcomeModel {
    if query.len() == 0 {
        let listed = listed_groups(groups, caller, options.policy);
        if listed.len() == 0 {
            no_match(options)
        } else {
            OutcomeModel::GroupListing { intro: listing_intro(caller, options), groups: listed }
        }
    } else {
        let walk = search_groups(groups, query, query, false, caller, options);
        match walk.stop {
            Some(SearchStopModel::Found(command)) => OutcomeModel::SingleCommand { command },
            Some(SearchStopModel::Denied) => no_match(options),
            None => if walk.suggestions.len() > 0 {
                OutcomeModel::Suggestions {
                    intro: options.suggestion_text,
                    suggestions: by_distance(walk.suggestions),
                }
            } else {
                match find_in_groups(groups, lowercased(query), caller, options) {
                    Some(outcome) => outcome,
                    None => no_match(options),
                }
            },
        }
    }
}

/// Orders suggestions by distance, nearest first, keeping the order of
/// entries at the same distance.
pub fn sort_suggestions(found: &Vec<Suggestion>) -> (sorted: Vec<Suggestion>)
    ensures
        suggestion_models(sorted@) == by_distance(suggestion_models(found@)),
{
    let mut sorted: Vec<Suggestion> = Vec::new();
    let mut i: usize = 0;
    while i < found.len()
        invariant
            i <= found.len(),
            sorted@.len() == i,
            suggestion_models(sorted@) == by_distance(suggestion_models(found@).take(i as int)),
        decreases found.len() - i,
    {
        let item = Suggestion { name: found[i].name.clone(), distance: found[i].distance };
        let mut at: usize = sorted.len();
        while at > 0 && sorted[at - 1].distance > item.distance
            invariant
                at <= sorted@.len(),
                forall|k: int|
                    at <= k < sorted@.len() ==> (#[trigger] suggestion_models(
                        sorted@,
                    )[k]).distance > item@.distance,
            decreases at,
        {
            at -= 1;
        }
        proof {
            let now = suggestion_models(found@).take(i + 1);
            assert(now.drop_last() == suggestion_models(found@).take(i as int));
            assert(now.last() == item@);
            if at > 0 {
                assert(suggestion_models(sorted@)[at - 1].distance <= item@.distance);
            }
            lemma_inserted_at(suggestion_models(sorted@), item@, at as int);
        }
        let ghost before = sorted@;
        sorted.insert(at, item);
        assert(suggestion_models(sorted@) == suggestion_models(before).insert(at as int, item@));
        i += 1;
    }
    assert(suggestion_models(found@).take(found.len() as int) == suggestion_models(found@));
    sorted
}

/// The keys under which a group is found by name.
pub fn keys_of_group(group: &GroupSpec) -> (keys: Vec<String>)
    ensures
        texts(keys@) == group_keys(group@),
{
    let mut keys: Vec<String> = Vec::new();
    keys.push(lowercase(group.name.as_str()));
    assert(texts(keys@) == seq![lowercased(group@.name)]);
    let mut i: usize = 0;
    while i < group.prefixes.len()
        invariant
            i <= group.prefixes.len(),
            texts(keys@) == seq![lowercased(group@.name)] + group@.prefixes.map_values(
                |p: Seq<char>| lowercased(p),
            ).take(i as int),
        decreases group.prefixes.len() - i,
    {
        let key = lowercase(group.prefixes[i].as_str());
        let ghost before = keys@;
        keys.push(key);
        assert(texts(keys@) == texts(before).push(key@));
        assert(group@.prefixes.map_values(|p: Seq<char>| lowercased(p)).take(i + 1)
            == group@.prefixes.map_values(|p: Seq<char>| lowercased(p)).take(i as int).push(
            key@,
        ));
        i += 1;
    }
    assert(group@.prefixes.map_values(|p: Seq<char>| lowercased(p)).take(
        group.prefixes.len() as int,
    ) == group@.prefixes.map_values(|p: Seq<char>| lowercased(p)));
    keys
}

/// Reads `lowered` as the name of `group` or of a group nested in it.
pub fn find_group_by_name(
    group: &GroupSpec,
    lowered: &Vec<char>,
    caller: &CallerContext,
    options: &HelpOptions,
) -> (found: Option<ResolvedOutcome>)
    ensures
        opt_outcome(found) == find_group(group@, lowered@, caller@, options@),
    decreases group, 1int,
{
    if evaluate(&group.constraints, caller, &options.policy) != Behavior::Show {
        return None;
    }
    let keys = keys_of_group(group);
    proof {
        lemma_sub_group_models(*group);
    }
    if contains_text(&keys, lowered) {
        let view = build_group_view(group, caller, &options.policy);
        if view.command_names.len() > 0 {
            let intro = match &group.description {
                Some(description) => description.clone(),
                None => String::new(),
            };
            let mut groups: Vec<GroupCommandsView> = Vec::new();
            groups.push(view);
            assert(view_models(groups@) == seq![view@]);
            Some(ResolvedOutcome::GroupListing { intro, groups })
        } else {
            None
        }
    } else {
        match find_first_word(&keys, lowered) {
            Some(k) => {
                let key = chars_of(keys[k].as_str());
                proof {
                    lemma_first_word_fits(texts(keys@), lowered@, 0);
                    assert(texts(keys@)[k as int] == key@);
                    assert(key.len() < lowered.len());
                }
                let rest = tail(lowered, key.len() + 1);
                find_group_among(&group.sub_groups, &rest, caller, options)
            },
            None => {
                if group.prefixes.len() == 0 {
                    find_group_among(&group.sub_groups, lowered, caller, options)
                } else {
                    None
                }
            },
        }
    }
}

/// The model of an optional outcome.
pub open spec fn opt_outcome(outcome: Option<ResolvedOutcome>) -> Option<OutcomeModel> {
    match outcome {
        Some(o) => Some(o@),
        None => None,
    }
}

/// Reads `lowered` as the name of one of `groups` or of a group nested in
/// them, in order.
pub fn find_group_among(
    groups: &Vec<GroupSpec>,
    lowered: &Vec<char>,
    caller: &CallerContext,
    options: &HelpOptions,
) -> (found: Option<ResolvedOutcome>)
    ensures
        opt_outcome(found) == find_in_groups(group_models(groups@), lowered@, caller@, options@),
    decreases groups, 0int,
{
    let mut i: usize = 0;
    while i < groups.len()
        invariant
            i <= groups.len(),
            find_in_groups(group_models(groups@).take(i as int), lowered@, caller@, options@)
                is None,
        decreases groups.len() - i,
    {
        proof {
            let now = group_models(groups@).take(i + 1);
            assert(now.drop_last() == group_models(groups@).take(i as int));
            assert(now.last() == groups@[i as int]@);
        }
        let found = find_group_by_name(&groups[i], lowered, caller, options);
        if found.is_some() {
            proof {
                lemma_find_stops(group_models(groups@), i + 1, lowered@, caller@, options@);
            }
            return found;
        }
        i += 1;
    }
    assert(group_models(groups@).take(groups.len() as int) == group_models(groups@));
    None
}

/// Once one of the first `upto` groups gives a listing, that listing is the
/// one for all of them.
pub proof fn lemma_find_stops(
    groups: Seq<GroupModel>,
    upto: int,
    lowered: Seq<char>,
    caller: CallerModel,
    options: HelpOptionsModel,
)
    requires
        0 <= upto <= groups.len(),
        find_in_groups(groups.take(upto), lowered, caller, options) is Some,
    ensures
        find_in_groups(groups, lowered, caller, options) == find_in_groups(
            groups.take(upto),
            lowered,
            caller,
            options,
        ),
    decreases groups.len() - upto,
{
    if upto < groups.len() {
        assert(groups.drop_last().take(upto) == groups.take(upto));
        lemma_find_stops(groups.drop_last(), upto, lowered, caller, options);
    } else {
        assert(groups.take(upto) == groups);
    }
}

/// The text above a listing of all groups.
pub fn make_listing_intro(caller: &CallerContext, options: &HelpOptions) -> (intro: String)
    ensures
        intro@ == listing_intro(caller@, options@),
{
    let tip = match &caller.channel {
        Channel::Direct => &options.strikethrough_commands_tip_in_dm,
        Channel::Guild { .. } => &options.strikethrough_commands_tip_in_guild,
    };
    let mut intro = options.individual_command_tip.clone();
    match tip {
        Some(text) => {
            intro.append("\n");
            intro.append(text.as_str());
        },
        None => {},
    }
    intro
}

/// Resolves a help request: `query` is what the caller typed behind the help
/// command, `groups` the top of the command tree.
pub fn resolve_help(
    query: &str,
    groups: &Vec<GroupSpec>,
    caller: &CallerContext,
    options: &HelpOptions,
) -> (outcome: ResolvedOutcome)
    ensures
        outcome@ == resolve_spec(query@, group_models(groups@), caller@, options@),
{
    let typed = chars_of(query);
    if typed.len() == 0 {
        let listed = list_groups(groups, caller, &options.policy);
        if listed.len() == 0 {
            return ResolvedOutcome::NoMatch { message: options.no_help_available_text.clone() };
        }
        return ResolvedOutcome::GroupListing {
            intro: make_listing_intro(caller, options),
            groups: listed,
        };
    }
    let mut found: Vec<Suggestion> = Vec::new();
    let stop = search_in_groups(groups, &typed, &typed, false, caller, options, &mut found);
    match stop {
        Some(SearchStop::Found(command)) => ResolvedOutcome::SingleCommand { command },
        Some(SearchStop::Denied) => ResolvedOutcome::NoMatch {
            message: options.no_help_available_text.clone(),
        },
        None => {
            if found.len() > 0 {
                ResolvedOutcome::Suggestions {
                    intro: options.suggestion_text.clone(),
                    suggestions: sort_suggestions(&found),
                }
            } else {
                let lowered = chars_of(lowercase(query).as_str());
                match find_group_among(groups, &lowered, caller, options) {
                    Some(outcome) => outcome,
                    None => ResolvedOutcome::NoMatch {
                        message: options.no_help_available_text.clone(),
                    },
                }
            }
        },
    }
}

} // verus!
