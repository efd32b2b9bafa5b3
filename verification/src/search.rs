//! Looking a command up by the path that a caller typed.
//!
//! The groups are walked in order, each group's own commands before its
//! nested groups. Only groups that the policy shows are entered. On entering
//! a group, its name (where it has no prefixes) or the first of its prefixes
//! that fits is taken from the front of what is left of the query, if it
//! stands there as a whole word. The first command that bears what is left as
//! its name or alias ends the walk. Commands that do not are weighed as
//! suggestions against the query as it was typed.

use vstd::prelude::*;
use crate::distance::{distance_of_chars, edit_distance};
use crate::options::{HelpOptions, HelpOptionsModel};
use crate::outcome::{suggestion_models, CommandView, CommandViewModel, Suggestion, SuggestionModel};
use crate::text::{
    after_word,
    chars_of,
    clone_opt_text,
    clone_texts,
    contains_text,
    is_word_prefix,
    same_chars,
    starts_with_whole_word,
    tail,
    texts,
};
use crate::tree::{
    command_models,
    group_models,
    lemma_sub_group_models,
    CommandModel,
    CommandSpec,
    GroupModel,
    GroupSpec,
};
use crate::listing::command_behavior;
use crate::visibility::{
    check_models,
    evaluate,
    evaluate_command,
    evaluate_spec,
    Behavior,
    CallerContext,
    CallerModel,
    CheckModel,
    CheckSpec,
    Scope,
};

verus! {

/// How a walk ended at a command that bears the name asked for.
#[derive(Debug, PartialEq, Eq)]
pub enum SearchStop {
    /// The policy shows the command: this is its page.
    Found(CommandView),
    /// The policy does not show the command.
    Denied,
}

/// The mathematical model of [`SearchStop`].
pub ghost enum SearchStopModel {
    Found(CommandViewModel),
    Denied,
}

impl View for SearchStop {
    type V = SearchStopModel;

    open spec fn view(&self) -> SearchStopModel {
        match self {
            SearchStop::Found(command) => SearchStopModel::Found(command@),
            SearchStop::Denied => SearchStopModel::Denied,
        }
    }
}

/// The model of an optional stop.
pub open spec fn opt_stop(stop: Option<SearchStop>) -> Option<SearchStopModel> {
    match stop {
        Some(s) => Some(s@),
        None => None,
    }
}

/// What a walk yields: where it stopped, if it did, and the suggestions
/// gathered on the way, in the order in which they were found.
pub ghost struct SearchModel {
    pub stop: Option<SearchStopModel>,
    pub suggestions: Seq<SuggestionModel>,
}

/// The position of the first of `keys`, from `from` on, that stands at the
/// front of `rest` as a whole word.
pub open spec fn first_word_from(keys: Seq<Seq<char>>, rest: Seq<char>, from: int) -> Option<int>
    decreases keys.len() - from,
{
    if from < 0 || from >= keys.len() {
        None
    } else if is_word_prefix(rest, keys[from]) {
        Some(from)
    } else {
        first_word_from(keys, rest, from + 1)
    }
}

/// The position of the first of `keys` that stands at the front of `rest` as
/// a whole word.
pub open spec fn first_word(keys: Seq<Seq<char>>, rest: Seq<char>) -> Option<int> {
    first_word_from(keys, rest, 0)
}

/// A position that `first_word_from` gives lies at or behind `from`, and the
/// key there stands at the front of `rest` as a whole word.
pub proof fn lemma_first_word_fits(keys: Seq<Seq<char>>, rest: Seq<char>, from: int)
    ensures
        first_word_from(keys, rest, from) matches Some(k) ==> from <= k < keys.len()
            && is_word_prefix(rest, keys[k]),
    decreases keys.len() - from,
{
    if 0 <= from < keys.len() && !is_word_prefix(rest, keys[from]) {
        lemma_first_word_fits(keys, rest, from + 1);
    }
}

/// What is left of the query inside `group`, and whether one of the group's
/// prefixes was taken from it.
pub open spec fn entered(group: GroupModel, rest: Seq<char>) -> (Seq<char>, bool) {
    if group.prefixes.len() == 0 {
        if is_word_prefix(rest, group.name) {
            (after_word(rest, group.name), false)
        } else {
            (rest, false)
        }
    } else {
        match first_word(group.prefixes, rest) {
            Some(k) => (after_word(rest, group.prefixes[k]), true),
            None => (rest, false),
        }
    }
}

/// `rest` is the command's name or one of its aliases.
pub open spec fn bears_name(command: CommandModel, rest: Seq<char>) -> bool {
    command.name == rest || command.aliases.contains(rest)
}

/// The name under which a command is suggested: its primary name, led by the
/// group's first prefix where the group has prefixes.
pub open spec fn display_name(command: CommandModel, group: GroupModel) -> Seq<char> {
    if group.prefixes.len() > 0 {
        group.prefixes[0] + " "@ + command.name
    } else {
        command.name
    }
}

/// `tail` behind the command's display name.
pub open spec fn with_prefix(command: CommandModel, group: GroupModel, tail: Seq<char>) -> Seq<
    char,
> {
    display_name(command, group) + " "@ + tail
}

/// Each of `tails` behind the command's display name.
pub open spec fn all_with_prefix(
    command: CommandModel,
    group: GroupModel,
    tails: Seq<Seq<char>>,
) -> Seq<Seq<char>> {
    tails.map_values(|t: Seq<char>| with_prefix(command, group, t))
}

/// The names of the checks that help displays, in order.
pub open spec fn displayed_checks(checks: Seq<CheckModel>) -> Seq<Seq<char>>
    decreases checks.len(),
{
    if checks.len() == 0 {
        Seq::empty()
    } else {
        let before = displayed_checks(checks.drop_last());
        if checks.last().display_in_help {
            before.push(checks.last().name)
        } else {
            before
        }
    }
}

/// Where a command can be used, in words: the group's restriction and the
/// command's own both count, direct messages first.
pub open spec fn availability(
    command: CommandModel,
    group: GroupModel,
    options: HelpOptionsModel,
) -> Seq<char> {
    if group.constraints.scope == Scope::Dm || command.constraints.scope == Scope::Dm {
        options.dm_only_text
    } else if group.constraints.scope == Scope::Guild || command.constraints.scope
        == Scope::Guild {
        options.guild_only_text
    } else {
        options.dm_and_guild_text
    }
}

/// The page of a command that stands in `group`.
pub open spec fn command_view(
    command: CommandModel,
    group: GroupModel,
    options: HelpOptionsModel,
) -> CommandViewModel {
    CommandViewModel {
        name: command.name,
        description: command.description,
        usage: match command.usage {
            Some(usage) => Some(with_prefix(command, group, usage)),
            None => None,
        },
        examples: all_with_prefix(command, group, command.examples),
        group_name: group.name,
        availability: availability(command, group, options),
        aliases: command.aliases,
        checks: displayed_checks(command.checks) + displayed_checks(group.checks),
        sub_commands: command.sub_commands,
    }
}

/// Whether a command that does not bear the name asked for is suggested: the
/// threshold is positive, the display name is within it of the query, and the
/// policy shows the command.
pub open spec fn is_suggested(
    command: CommandModel,
    group: GroupModel,
    query: Seq<char>,
    caller: CallerModel,
    options: HelpOptionsModel,
) -> bool {
    &&& options.max_levenshtein_distance > 0
    &&& edit_distance(display_name(command, group), query) <= options.max_levenshtein_distance
    &&& command_behavior(command, group.checks, caller, options.policy) == Behavior::Show
}

/// The walk over the commands of one group. `may_match` says whether names
/// may match here; `rest` is what is left of `query` inside the group.
pub open spec fn scan_commands(
    commands: Seq<CommandModel>,
    group: GroupModel,
    may_match: bool,
    query: Seq<char>,
    rest: Seq<char>,
    caller: CallerModel,
    options: HelpOptionsModel,
) -> SearchModel
    decreases commands.len(),
{
    if commands.len() == 0 {
        SearchModel { stop: None, suggestions: Seq::empty() }
    } else {
        let before = scan_commands(
            commands.drop_last(),
            group,
            may_match,
            query,
            rest,
            caller,
            options,
        );
        let last = commands.last();
        if before.stop is Some {
            before
        } else if may_match && bears_name(last, rest) {
            if command_behavior(last, group.checks, caller, options.policy) == Behavior::Show {
                SearchModel {
                    stop: Some(SearchStopModel::Found(command_view(last, group, options))),
                    suggestions: before.suggestions,
                }
            } else {
                SearchModel { stop: Some(SearchStopModel::Denied), suggestions: before.suggestions }
            }
        } else if is_suggested(last, group, query, caller, options) {
            SearchModel {
                stop: None,
                suggestions: before.suggestions.push(
                    SuggestionModel {
                        name: display_name(last, group),
                        distance: edit_distance(display_name(last, group), query),
                    },
                ),
            }
        } else {
            before
        }
    }
}

/// The walk over one group: its commands, then its nested groups.
/// `consumed` says whether an enclosing group took a prefix from the query.
pub open spec fn search_group(
    group: GroupModel,
    query: Seq<char>,
    rest: Seq<char>,
    consumed: bool,
    caller: CallerModel,
    options: HelpOptionsModel,
) -> SearchModel
    decreases group, 1int,
{
    if evaluate_spec(group.constraints, caller, options.policy) != Behavior::Show {
        SearchModel { stop: None, suggestions: Seq::empty() }
    } else {
        let (inner, here) = entered(group, rest);
        let may_match = group.prefixes.len() == 0 || here || consumed;
        let own = scan_commands(group.commands, group, may_match, query, inner, caller, options);
        if own.stop is Some {
            own
        } else {
            let nested = search_groups(
                group.sub_groups,
                query,
                inner,
                consumed || here,
                caller,
                options,
            );
            SearchModel { stop: nested.stop, suggestions: own.suggestions + nested.suggestions }
        }
    }
}

/// The walk over a sequence of groups, in order, up to the first stop.
pub open spec fn search_groups(
    groups: Seq<GroupModel>,
    query: Seq<char>,
    rest: Seq<char>,
    consumed: bool,
    caller: CallerModel,
    options: HelpOptionsModel,
) -> SearchModel
    decreases groups, 0int,
{
    if groups.len() == 0 {
        SearchModel { stop: None, suggestions: Seq::empty() }
    } else {
        let before = search_groups(groups.drop_last(), query, rest, consumed, caller, options);
        if before.stop is Some {
            before
        } else {
            let last = search_group(groups.last(), query, rest, consumed, caller, options);
            SearchModel { stop: last.stop, suggestions: before.suggestions + last.suggestions }
        }
    }
}

/// Finds the first of `keys` that stands at the front of `rest` as a whole
/// word.
pub fn find_first_word(keys: &Vec<String>, rest: &Vec<char>) -> (r: Option<usize>)
    ensures
        match r {
            Some(k) => first_word(texts(keys@), rest@) == Some(k as int) && k < keys.len(),
            None => first_word(texts(keys@), rest@) is None,
        },
{
    let mut i: usize = 0;
    while i < keys.len()
        invariant
            i <= keys.len(),
            first_word(texts(keys@), rest@) == first_word_from(texts(keys@), rest@, i as int),
        decreases keys.len() - i,
    {
        let key = chars_of(keys[i].as_str());
        if starts_with_whole_word(rest, &key) {
            return Some(i);
        }
        i += 1;
    }
    None
}

/// Takes the group's name or prefix from the front of `rest`, where it
/// stands there as a whole word.
pub fn enter_group(group: &GroupSpec, rest: &Vec<char>) -> (r: (Vec<char>, bool))
    ensures
        (r.0@, r.1) == entered(group@, rest@),
{
    if group.prefixes.len() == 0 {
        let name = chars_of(group.name.as_str());
        if starts_with_whole_word(rest, &name) {
            (tail(rest, name.len() + 1), false)
        } else {
            (tail(rest, 0), false)
        }
    } else {
        match find_first_word(&group.prefixes, rest) {
            Some(k) => {
                let prefix = chars_of(group.prefixes[k].as_str());
                proof {
                    lemma_first_word_fits(texts(group.prefixes@), rest@, 0);
                    assert(texts(group.prefixes@)[k as int] == prefix@);
                    assert(prefix.len() < rest.len());
                }
                (tail(rest, prefix.len() + 1), true)
            },
            None => (tail(rest, 0), false),
        }
    }
}

/// Whether `rest` is the command's name or one of its aliases.
pub fn has_name(command: &CommandSpec, rest: &Vec<char>) -> (r: bool)
    ensures
        r == bears_name(command@, rest@),
{
    let name = chars_of(command.name.as_str());
    same_chars(&name, rest) || contains_text(&command.aliases, rest)
}

/// The name under which a command of `group` is suggested.
pub fn make_display_name(command: &CommandSpec, group: &GroupSpec) -> (r: String)
    ensures
        r@ == display_name(command@, group@),
{
    if group.prefixes.len() > 0 {
        let mut r = group.prefixes[0].clone();
        r.append(" ");
        r.append(command.name.as_str());
        r
    } else {
        command.name.clone()
    }
}

/// Puts the command's display name and a space before each of `tails`.
fn prefix_all(command: &CommandSpec, group: &GroupSpec, tails: &Vec<String>) -> (r: Vec<String>)
    ensures
        texts(r@) == all_with_prefix(command@, group@, texts(tails@)),
{
    let mut r: Vec<String> = Vec::new();
    let mut i: usize = 0;
    while i < tails.len()
        invariant
            i <= tails.len(),
            texts(r@) == all_with_prefix(command@, group@, texts(tails@)).take(i as int),
        decreases tails.len() - i,
    {
        let mut line = make_display_name(command, group);
        line.append(" ");
        line.append(tails[i].as_str());
        let ghost before = r@;
        r.push(line);
        assert(texts(r@) == texts(before).push(line@));
        assert(all_with_prefix(command@, group@, texts(tails@)).take(i + 1) == all_with_prefix(
            command@,
            group@,
            texts(tails@),
        ).take(i as int).push(with_prefix(command@, group@, tails@[i as int]@)));
        i += 1;
    }
    assert(all_with_prefix(command@, group@, texts(tails@)).take(tails.len() as int)
        == all_with_prefix(command@, group@, texts(tails@)));
    r
}

/// Appends to `names` the names of the checks that help displays.
fn push_displayed_checks(checks: &Vec<CheckSpec>, names: &mut Vec<String>)
    ensures
        texts(final(names)@) == texts(old(names)@) + displayed_checks(check_models(checks@)),
{
    let mut i: usize = 0;
    while i < checks.len()
        invariant
            i <= checks.len(),
            texts(names@) == texts(old(names)@) + displayed_checks(
                check_models(checks@).take(i as int),
            ),
        decreases checks.len() - i,
    {
        proof {
            let now = check_models(checks@).take(i + 1);
            assert(now.drop_last() == check_models(checks@).take(i as int));
            assert(now.last() == checks@[i as int]@);
        }
        if checks[i].display_in_help {
            let ghost before = names@;
            names.push(checks[i].name.clone());
            assert(texts(names@) == texts(before).push(checks@[i as int].name@));
        }
        i += 1;
    }
    assert(check_models(checks@).take(checks.len() as int) == check_models(checks@));
}

/// Builds the page of a command that stands in `group`.
pub fn build_command_view(command: &CommandSpec, group: &GroupSpec, options: &HelpOptions) -> (view:
    CommandView)
    ensures
        view@ == command_view(command@, group@, options@),
{
    let usage = match &command.usage {
        Some(usage) => {
            let mut line = make_display_name(command, group);
            line.append(" ");
            line.append(usage.as_str());
            Some(line)
        },
        None => None,
    };
    let dm = match (group.constraints.scope, command.constraints.scope) {
        (Scope::Dm, _) => true,
        (_, Scope::Dm) => true,
        _ => false,
    };
    let guild = match (group.constraints.scope, command.constraints.scope) {
        (Scope::Guild, _) => true,
        (_, Scope::Guild) => true,
        _ => false,
    };
    let availability = if dm {
        options.dm_only_text.clone()
    } else if guild {
        options.guild_only_text.clone()
    } else {
        options.dm_and_guild_text.clone()
    };
    let mut checks: Vec<String> = Vec::new();
    push_displayed_checks(&command.checks, &mut checks);
    push_displayed_checks(&group.checks, &mut checks);
    let view = CommandView {
        name: command.name.clone(),
        description: clone_opt_text(&command.description),
        usage,
        examples: prefix_all(command, group, &command.examples),
        group_name: group.name.clone(),
        availability,
        aliases: clone_texts(&command.aliases),
        checks,
        sub_commands: clone_texts(&command.sub_commands),
    };
    assert(view@.checks == command_view(command@, group@, options@).checks);
    view
}

/// Walks the commands of one group. Suggestions are appended to
/// `suggestions`.
pub fn scan_group_commands(
    group: &GroupSpec,
    may_match: bool,
    query: &Vec<char>,
    rest: &Vec<char>,
    caller: &CallerContext,
    options: &HelpOptions,
    suggestions: &mut Vec<Suggestion>,
) -> (stop: Option<SearchStop>)
    ensures
        opt_stop(stop) == scan_commands(
            group@.commands,
            group@,
            may_match,
            query@,
            rest@,
            caller@,
            options@,
        ).stop,
        suggestion_models(final(suggestions)@) == suggestion_models(old(suggestions)@)
            + scan_commands(
            group@.commands,
            group@,
            may_match,
            query@,
            rest@,
            caller@,
            options@,
        ).suggestions,
{
    let mut i: usize = 0;
    while i < group.commands.len()
        invariant
            i <= group.commands.len(),
            group@.commands == command_models(group.commands@),
            scan_commands(
                group@.commands.take(i as int),
                group@,
                may_match,
                query@,
                rest@,
                caller@,
                options@,
            ).stop is None,
            suggestion_models(suggestions@) == suggestion_models(old(suggestions)@)
                + scan_commands(
                group@.commands.take(i as int),
                group@,
                may_match,
                query@,
                rest@,
                caller@,
                options@,
            ).suggestions,
        decreases group.commands.len() - i,
    {
        let command = &group.commands[i];
        proof {
            let now = group@.commands.take(i + 1);
            assert(now.drop_last() == group@.commands.take(i as int));
            assert(now.last() == command@);
            if i + 1 == group.commands.len() {
                assert(now == group@.commands);
            }
        }
        if may_match && has_name(command, rest) {
            let b = evaluate_command(
                &command.constraints,
                command.name.as_str(),
                &command.checks,
                &group.checks,
                caller,
                &options.policy,
            );
            proof {
                lemma_scan_stops(
                    group@.commands,
                    i + 1,
                    group@,
                    may_match,
                    query@,
                    rest@,
                    caller@,
                    options@,
                );
            }
            if b == Behavior::Show {
                return Some(SearchStop::Found(build_command_view(command, group, options)));
            } else {
                return Some(SearchStop::Denied);
            }
        }
        if options.max_levenshtein_distance > 0 {
            let name = make_display_name(command, group);
            let name_chars = chars_of(name.as_str());
            let d = distance_of_chars(&name_chars, query);
            if d <= options.max_levenshtein_distance {
                let b = evaluate_command(
                    &command.constraints,
                    command.name.as_str(),
                    &command.checks,
                    &group.checks,
                    caller,
                    &options.policy,
                );
                if b == Behavior::Show {
                    let ghost before = suggestions@;
                    let item = Suggestion { name, distance: d };
                    suggestions.push(item);
                    assert(suggestion_models(suggestions@) == suggestion_models(before).push(
                        item@,
                    ));
                }
            }
        }
        i += 1;
    }
    assert(group@.commands.take(group.commands.len() as int) == group@.commands);
    None
}

/// Once a walk over the first `upto` commands has stopped, the walk over all
/// of them stops there with the same result.
pub proof fn lemma_scan_stops(
    commands: Seq<CommandModel>,
    upto: int,
    group: GroupModel,
    may_match: bool,
    query: Seq<char>,
    rest: Seq<char>,
    caller: CallerModel,
    options: HelpOptionsModel,
)
    requires
        0 <= upto <= commands.len(),
        scan_commands(commands.take(upto), group, may_match, query, rest, caller, options).stop
            is Some,
    ensures
        scan_commands(commands, group, may_match, query, rest, caller, options) == scan_commands(
            commands.take(upto),
            group,
            may_match,
            query,
            rest,
            caller,
            options,
        ),
    decreases commands.len() - upto,
{
    if upto < commands.len() {
        assert(commands.drop_last().take(upto) == commands.take(upto));
        lemma_scan_stops(commands.drop_last(), upto, group, may_match, query, rest, caller, options);
    } else {
        assert(commands.take(upto) == commands);
    }
}

/// Once a walk over the first `upto` groups has stopped, the walk over all
/// of them stops there with the same result.
pub proof fn lemma_search_stops(
    groups: Seq<GroupModel>,
    upto: int,
    query: Seq<char>,
    rest: Seq<char>,
    consumed: bool,
    caller: CallerModel,
    options: HelpOptionsModel,
)
    requires
        0 <= upto <= groups.len(),
        search_groups(groups.take(upto), query, rest, consumed, caller, options).stop is Some,
    ensures
        search_groups(groups, query, rest, consumed, caller, options) == search_groups(
            groups.take(upto),
            query,
            rest,
            consumed,
            caller,
            options,
        ),
    decreases groups.len() - upto,
{
    if upto < groups.len() {
        assert(groups.drop_last().take(upto) == groups.take(upto));
        lemma_search_stops(groups.drop_last(), upto, query, rest, consumed, caller, options);
    } else {
        assert(groups.take(upto) == groups);
    }
}

/// Walks one group: its commands, then its nested groups.
pub fn search_in_group(
    group: &GroupSpec,
    query: &Vec<char>,
    rest: &Vec<char>,
    consumed: bool,
    caller: &CallerContext,
    options: &HelpOptions,
    suggestions: &mut Vec<Suggestion>,
) -> (stop: Option<SearchStop>)
    ensures
        opt_stop(stop) == search_group(group@, query@, rest@, consumed, caller@, options@).stop,
        suggestion_models(final(suggestions)@) == suggestion_models(old(suggestions)@)
            + search_group(group@, query@, rest@, consumed, caller@, options@).suggestions,
    decreases group, 1int,
{
    if evaluate(&group.constraints, caller, &options.policy) != Behavior::Show {
        assert(suggestion_models(suggestions@) + Seq::<SuggestionModel>::empty()
            == suggestion_models(suggestions@));
        return None;
    }
    let (inner, here) = enter_group(group, rest);
    let may_match = group.prefixes.len() == 0 || here || consumed;
    let found = scan_group_commands(group, may_match, query, &inner, caller, options, suggestions);
    if found.is_some() {
        return found;
    }
    proof {
        lemma_sub_group_models(*group);
    }
    let ghost own = scan_commands(
        group@.commands,
        group@,
        may_match,
        query@,
        inner@,
        caller@,
        options@,
    );
    let ghost nested = search_groups(
        group@.sub_groups,
        query@,
        inner@,
        consumed || here,
        caller@,
        options@,
    );
    let stop = search_in_groups(
        &group.sub_groups,
        query,
        &inner,
        consumed || here,
        caller,
        options,
        suggestions,
    );
    assert(suggestion_models(suggestions@) == suggestion_models(old(suggestions)@) + (
    own.suggestions + nested.suggestions));
    stop
}

/// Walks a sequence of groups in order, up to the first stop.
pub fn search_in_groups(
    groups: &Vec<GroupSpec>,
    query: &Vec<char>,
    rest: &Vec<char>,
    consumed: bool,
    caller: &CallerContext,
    options: &HelpOptions,
    suggestions: &mut Vec<Suggestion>,
) -> (stop: Option<SearchStop>)
    ensures
        opt_stop(stop) == search_groups(
            group_models(groups@),
            query@,
            rest@,
            consumed,
            caller@,
            options@,
        ).stop,
        suggestion_models(final(suggestions)@) == suggestion_models(old(suggestions)@)
            + search_groups(
            group_models(groups@),
            query@,
            rest@,
            consumed,
            caller@,
            options@,
        ).suggestions,
    decreases groups, 0int,
{
    let mut i: usize = 0;
    assert(suggestion_models(suggestions@) + Seq::<SuggestionModel>::empty() == suggestion_models(
        suggestions@,
    ));
    while i < groups.len()
        invariant
            i <= groups.len(),
            search_groups(
                group_models(groups@).take(i as int),
                query@,
                rest@,
                consumed,
                caller@,
                options@,
            ).stop is None,
            suggestion_models(suggestions@) == suggestion_models(old(suggestions)@)
                + search_groups(
                group_models(groups@).take(i as int),
                query@,
                rest@,
                consumed,
                caller@,
                options@,
            ).suggestions,
        decreases groups.len() - i,
    {
        let group = &groups[i];
        let ghost before = search_groups(
            group_models(groups@).take(i as int),
            query@,
            rest@,
            consumed,
            caller@,
            options@,
        );
        let ghost here = search_group(group@, query@, rest@, consumed, caller@, options@);
        proof {
            let now = group_models(groups@).take(i + 1);
            assert(now.drop_last() == group_models(groups@).take(i as int));
            assert(now.last() == group@);
        }
        let stop = search_in_group(group, query, rest, consumed, caller, options, suggestions);
        assert(suggestion_models(suggestions@) == suggestion_models(old(suggestions)@) + (
        before.suggestions + here.suggestions));
        if stop.is_some() {
            proof {
                lemma_search_stops(
                    group_models(groups@),
                    i + 1,
                    query@,
                    rest@,
                    consumed,
                    caller@,
                    options@,
                );
            }
            return stop;
        }
        i += 1;
    }
    assert(group_models(groups@).take(groups.len() as int) == group_models(groups@));
    None
}

} // verus!
