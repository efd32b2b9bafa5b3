//! What the two renderings have in common: every command and group name of
//! an outcome is mentioned by both.

use vstd::prelude::*;
use crate::options::HelpOptionsModel;
use crate::outcome::{CommandViewModel, GroupViewModel, OutcomeModel};
use crate::render::{
    command_fields,
    example_lines,
    inline_field,
    listing_fields,
    plain_command,
    plain_example_lines,
    plain_group_text,
    plain_line,
    plain_groups_text,
    plain_listing,
    plain_spec,
    plain_top_groups_text,
    quoted_list,
    rich_command,
    rich_group_text,
    rich_groups_text,
    rich_listing,
    rich_spec,
    EmbedModel,
    FieldModel,
};
use crate::text::{joined, mentions};

verus! {

/// `name` is the name of the listed group, of one of its commands as listed,
/// or of anything listed in a group nested in it.
pub open spec fn view_holds_name(view: GroupViewModel, name: Seq<char>) -> bool
    decreases view, 1int,
{
    name == view.name || view.command_names.contains(name) || views_hold_name(
        view.sub_groups,
        name,
    )
}

/// `name` is held by one of the listed groups.
pub open spec fn views_hold_name(views: Seq<GroupViewModel>, name: Seq<char>) -> bool
    decreases views, 0int,
{
    views.len() > 0 && (views_hold_name(views.drop_last(), name) || view_holds_name(
        views.last(),
        name,
    ))
}

/// `name` is the command's name, the name of its group, one of its aliases,
/// the name of one of its checks or the name of one of its sub-commands.
pub open spec fn page_holds_name(command: CommandViewModel, name: Seq<char>) -> bool {
    name == command.name || name == command.group_name || command.aliases.contains(name)
        || command.checks.contains(name) || command.sub_commands.contains(name)
}

/// `name` is a command or group name that the outcome holds. Suggestions
/// name commands only through the intro's placeholder, and a notice names
/// none.
pub open spec fn outcome_holds_name(outcome: OutcomeModel, name: Seq<char>) -> bool {
    match outcome {
        OutcomeModel::GroupListing { groups, .. } => views_hold_name(groups, name),
        OutcomeModel::SingleCommand { command } => page_holds_name(command, name),
        _ => false,
    }
}

/// The section mentions `name` in its heading or in its text.
pub open spec fn field_mentions(field: FieldModel, name: Seq<char>) -> bool {
    mentions(field.name, name) || mentions(field.value, name)
}

/// The payload mentions `name` in its title, its description or one of its
/// sections.
pub open spec fn embed_mentions(embed: EmbedModel, name: Seq<char>) -> bool {
    ||| embed.title matches Some(title) && mentions(title, name)
    ||| embed.description matches Some(description) && mentions(description, name)
    ||| exists|k: int| 0 <= k < embed.fields.len() && field_mentions(#[trigger] embed.fields[k], name)
}

/// A text mentions itself.
pub proof fn lemma_mentions_itself(text: Seq<char>)
    ensures
        mentions(text, text),
{
    assert(text.subrange(0, 0 + text.len() as int) == text);
}

/// What a text mentions, it still mentions with text before and behind it.
pub proof fn lemma_mentions_inside(
    before: Seq<char>,
    text: Seq<char>,
    behind: Seq<char>,
    name: Seq<char>,
)
    requires
        mentions(text, name),
    ensures
        mentions(before + text + behind, name),
{
    let i = choose|i: int|
        0 <= i && i + name.len() <= text.len() && #[trigger] text.subrange(i, i + name.len())
            == name;
    let whole = before + text + behind;
    assert(whole.subrange(before.len() + i, before.len() + i + name.len()) == name);
}

/// What the front part of a text mentions, the whole text mentions.
pub proof fn lemma_mentions_grows(part: Seq<char>, whole: Seq<char>, name: Seq<char>)
    requires
        mentions(part, name),
        part.is_prefix_of(whole),
    ensures
        mentions(whole, name),
{
    let behind = whole.subrange(part.len() as int, whole.len() as int);
    assert(whole =~= Seq::<char>::empty() + part + behind);
    lemma_mentions_inside(Seq::empty(), part, behind, name);
}

/// What the rear part of a text mentions, the whole text mentions.
pub proof fn lemma_mentions_behind(before: Seq<char>, text: Seq<char>, name: Seq<char>)
    requires
        mentions(text, name),
    ensures
        mentions(before + text, name),
{
    assert(before + text =~= before + text + Seq::<char>::empty());
    lemma_mentions_inside(before, text, Seq::empty(), name);
}

/// A joined text mentions each of its items.
pub proof fn lemma_joined_mentions(items: Seq<Seq<char>>, sep: Seq<char>, name: Seq<char>)
    requires
        items.contains(name),
    ensures
        mentions(joined(items, sep), name),
    decreases items.len(),
{
    let k = choose|k: int| 0 <= k < items.len() && items[k] == name;
    if items.len() == 1 {
        lemma_mentions_itself(name);
    } else if k == items.len() - 1 {
        lemma_mentions_itself(name);
        lemma_mentions_behind(joined(items.drop_last(), sep) + sep, name, name);
    } else {
        assert(items.drop_last()[k] == name);
        lemma_joined_mentions(items.drop_last(), sep, name);
        lemma_mentions_grows(joined(items.drop_last(), sep), joined(items, sep), name);
    }
}

/// A list in backticks mentions each of its items.
pub proof fn lemma_quoted_list_mentions(items: Seq<Seq<char>>, name: Seq<char>)
    requires
        items.contains(name),
    ensures
        mentions(quoted_list(items), name),
{
    lemma_joined_mentions(items, "`, `"@, name);
    lemma_mentions_inside("`"@, joined(items, "`, `"@), "`"@, name);
}

/// The plain text of a listed group mentions every name that the group
/// holds; the group's own name only where the group is nested, since a group
/// at the top is named by the listing.
pub proof fn lemma_plain_group_mentions(
    view: GroupViewModel,
    indent: Seq<char>,
    nested: bool,
    options: HelpOptionsModel,
    name: Seq<char>,
)
    requires
        view_holds_name(view, name),
        nested || view.command_names.contains(name) || views_hold_name(view.sub_groups, name),
    ensures
        mentions(plain_group_text(view, indent, nested, options), name),
    decreases view, 1int,
{
    let text = plain_group_text(view, indent, nested, options);
    let named = if nested {
        "\n"@ + indent + "**"@ + view.name + "**"@
    } else {
        Seq::empty()
    };
    let prefixed = if view.prefixes.len() == 0 {
        named + ": "@
    } else {
        named + " ("@ + options.group_prefix + ": `"@ + joined(view.prefixes, "`, `"@) + "`): "@
    };
    let listed = prefixed + joined(view.command_names, ", "@);
    let deeper = plain_groups_text(view.sub_groups, indent + options.indention_prefix, options);
    if view.command_names.contains(name) {
        lemma_joined_mentions(view.command_names, ", "@, name);
        lemma_mentions_inside(prefixed, joined(view.command_names, ", "@), deeper, name);
    } else if views_hold_name(view.sub_groups, name) {
        lemma_plain_groups_mention(
            view.sub_groups,
            indent + options.indention_prefix,
            options,
            name,
        );
        lemma_mentions_behind(listed, deeper, name);
    } else {
        lemma_mentions_itself(name);
        lemma_mentions_inside("\n"@ + indent + "**"@, name, "**"@, name);
        assert(named.is_prefix_of(prefixed));
        assert(named.is_prefix_of(text));
        lemma_mentions_grows(named, text, name);
    }
}

/// The plain text of nested groups mentions every name that they hold.
pub proof fn lemma_plain_groups_mention(
    views: Seq<GroupViewModel>,
    indent: Seq<char>,
    options: HelpOptionsModel,
    name: Seq<char>,
)
    requires
        views_hold_name(views, name),
    ensures
        mentions(plain_groups_text(views, indent, options), name),
    decreases views, 0int,
{
    let before = plain_groups_text(views.drop_last(), indent, options);
    let last = plain_group_text(views.last(), indent, true, options);
    if views_hold_name(views.drop_last(), name) {
        lemma_plain_groups_mention(views.drop_last(), indent, options, name);
        lemma_mentions_grows(before, before + last, name);
    } else {
        lemma_plain_group_mentions(views.last(), indent, true, options, name);
        lemma_mentions_behind(before, last, name);
    }
}

/// The plain text of the groups at the top of a listing mentions every name
/// that they hold.
pub proof fn lemma_plain_top_groups_mention(
    groups: Seq<GroupViewModel>,
    options: HelpOptionsModel,
    name: Seq<char>,
)
    requires
        views_hold_name(groups, name),
    ensures
        mentions(plain_top_groups_text(groups, options), name),
    decreases groups.len(),
{
    let before = plain_top_groups_text(groups.drop_last(), options);
    let last = groups.last();
    let body = plain_group_text(last, Seq::empty(), false, options);
    if views_hold_name(groups.drop_last(), name) {
        lemma_plain_top_groups_mention(groups.drop_last(), options, name);
        lemma_mentions_grows(before, plain_top_groups_text(groups, options), name);
    } else if last.command_names.contains(name) || views_hold_name(last.sub_groups, name) {
        lemma_plain_group_mentions(last, Seq::empty(), false, options, name);
        lemma_mentions_behind(before + "\n**"@ + last.name + "**"@, body, name);
    } else {
        assert(view_holds_name(last, name));
        lemma_mentions_itself(name);
        lemma_mentions_inside(before + "\n**"@, name, "**"@, name);
        lemma_mentions_append(before + "\n**"@ + name + "**"@, body, name);
    }
}

/// The section text of a listed group mentions every name that the group
/// holds; the group's own name only where the group is nested, since a group
/// at the top is named by its section's heading.
pub proof fn lemma_rich_group_mentions(
    view: GroupViewModel,
    indent: Seq<char>,
    nested: bool,
    single: bool,
    options: HelpOptionsModel,
    name: Seq<char>,
)
    requires
        view_holds_name(view, name),
        nested || view.command_names.contains(name) || views_hold_name(view.sub_groups, name),
    ensures
        mentions(rich_group_text(view, indent, nested, single, options), name),
    decreases view, 1int,
{
    let text = rich_group_text(view, indent, nested, single, options);
    let named = if nested {
        indent + "__**"@ + view.name + "**__\n"@
    } else {
        Seq::empty()
    };
    let prefixed = if view.prefixes.len() > 0 {
        named + indent + options.group_prefix + ": `"@ + joined(view.prefixes, "`, `"@) + "`\n"@
    } else {
        named
    };
    let separator = if single {
        "\n"@ + indent
    } else {
        " "@ + indent
    };
    let led = if view.command_names.len() > 0 {
        prefixed + indent
    } else {
        prefixed
    };
    let listed = led + joined(view.command_names, separator) + "\n"@;
    let deeper = rich_groups_text(view.sub_groups, indent + options.indention_prefix, options);
    if view.command_names.contains(name) {
        lemma_joined_mentions(view.command_names, separator, name);
        lemma_mentions_inside(led, joined(view.command_names, separator), "\n"@ + deeper, name);
        assert(text =~= led + joined(view.command_names, separator) + ("\n"@ + deeper));
    } else if views_hold_name(view.sub_groups, name) {
        lemma_rich_groups_mention(
            view.sub_groups,
            indent + options.indention_prefix,
            options,
            name,
        );
        lemma_mentions_behind(listed, deeper, name);
    } else {
        lemma_mentions_itself(name);
        lemma_mentions_inside(indent + "__**"@, name, "**__\n"@, name);
        assert(named.is_prefix_of(prefixed));
        assert(named.is_prefix_of(led));
        assert(named.is_prefix_of(text));
        lemma_mentions_grows(named, text, name);
    }
}

/// The section text of nested groups mentions every name that they hold.
pub proof fn lemma_rich_groups_mention(
    views: Seq<GroupViewModel>,
    indent: Seq<char>,
    options: HelpOptionsModel,
    name: Seq<char>,
)
    requires
        views_hold_name(views, name),
    ensures
        mentions(rich_groups_text(views, indent, options), name),
    decreases views, 0int,
{
    let before = rich_groups_text(views.drop_last(), indent, options);
    let last = rich_group_text(views.last(), indent, true, false, options);
    if views_hold_name(views.drop_last(), name) {
        lemma_rich_groups_mention(views.drop_last(), indent, options, name);
        lemma_mentions_grows(before, before + last, name);
    } else {
        lemma_rich_group_mentions(views.last(), indent, true, false, options, name);
        lemma_mentions_behind(before, last, name);
    }
}

/// One of the listed groups holds the name.
proof fn lemma_holder(views: Seq<GroupViewModel>, name: Seq<char>) -> (k: int)
    requires
        views_hold_name(views, name),
    ensures
        0 <= k < views.len(),
        view_holds_name(views[k], name),
    decreases views.len(),
{
    if views_hold_name(views.drop_last(), name) {
        let k = lemma_holder(views.drop_last(), name);
        assert(views.drop_last()[k] == views[k]);
        k
    } else {
        views.len() - 1
    }
}

/// A listing has one section per group, in order.
proof fn lemma_listing_field(
    groups: Seq<GroupViewModel>,
    single: bool,
    options: HelpOptionsModel,
    k: int,
)
    requires
        0 <= k < groups.len(),
    ensures
        listing_fields(groups, single, options).len() == groups.len(),
        listing_fields(groups, single, options)[k] == (FieldModel {
            name: if single {
                "Commands"@
            } else {
                groups[k].name
            },
            value: rich_group_text(groups[k], Seq::empty(), false, single, options),
            inline: true,
        }),
    decreases groups.len(),
{
    lemma_listing_fields_len(groups, single, options);
    if k < groups.len() - 1 {
        assert(groups.drop_last()[k] == groups[k]);
        lemma_listing_field(groups.drop_last(), single, options, k);
    }
}

/// A listing has as many sections as groups.
proof fn lemma_listing_fields_len(
    groups: Seq<GroupViewModel>,
    single: bool,
    options: HelpOptionsModel,
)
    ensures
        listing_fields(groups, single, options).len() == groups.len(),
    decreases groups.len(),
{
    if groups.len() > 0 {
        lemma_listing_fields_len(groups.drop_last(), single, options);
    }
}

/// Both renderings of a listing mention every name that the listed groups
/// hold.
pub proof fn lemma_listing_names_in_both(
    intro: Seq<char>,
    groups: Seq<GroupViewModel>,
    options: HelpOptionsModel,
    name: Seq<char>,
)
    requires
        views_hold_name(groups, name),
    ensures
        mentions(plain_listing(intro, groups, options), name),
        embed_mentions(rich_listing(intro, groups, options), name),
{
    lemma_plain_top_groups_mention(groups, options, name);
    lemma_mentions_behind(
        "__**Commands**__\n"@ + intro + "\n"@,
        plain_top_groups_text(groups, options),
        name,
    );
    let k = lemma_holder(groups, name);
    let single = groups.len() == 1;
    let embed = rich_listing(intro, groups, options);
    lemma_listing_field(groups, single, options, k);
    let field = embed.fields[k];
    if groups[k].command_names.contains(name) || views_hold_name(groups[k].sub_groups, name) {
        lemma_rich_group_mentions(groups[k], Seq::empty(), false, single, options, name);
        assert(field_mentions(field, name));
    } else if single {
        lemma_mentions_itself(name);
        lemma_mentions_grows(name, name + " Help"@, name);
    } else {
        lemma_mentions_itself(name);
        assert(field_mentions(field, name));
    }
}

/// Both renderings of a command's page mention the command's name, the name
/// of its group, its aliases, its checks and its sub-commands.
pub proof fn lemma_page_names_in_both(
    command: CommandViewModel,
    options: HelpOptionsModel,
    name: Seq<char>,
)
    requires
        page_holds_name(command, name),
    ensures
        mentions(plain_command(command, options), name),
        embed_mentions(rich_command(command, options), name),
{
    lemma_plain_page_mentions(command, options, name);
    lemma_rich_page_mentions(command, options, name);
}

/// What a text mentions, it still mentions with more text behind it.
pub proof fn lemma_mentions_append(text: Seq<char>, more: Seq<char>, name: Seq<char>)
    requires
        mentions(text, name),
    ensures
        mentions(text + more, name),
{
    assert(text + more =~= Seq::<char>::empty() + text + more);
    lemma_mentions_inside(Seq::empty(), text, more, name);
}

/// A line of a command's page mentions what its value mentions.
pub proof fn lemma_line_mentions(label: Seq<char>, value: Seq<char>, name: Seq<char>)
    requires
        mentions(value, name),
    ensures
        mentions(plain_line(label, value), name),
{
    lemma_mentions_inside("**"@ + label + "**: "@, value, "\n"@, name);
}

/// The plain text of a command's page mentions every name the page holds.
proof fn lemma_plain_page_mentions(
    command: CommandViewModel,
    options: HelpOptionsModel,
    name: Seq<char>,
)
    requires
        page_holds_name(command, name),
    ensures
        mentions(plain_command(command, options), name),
{
    let named = "__**"@ + command.name + "**__\n"@;
    let alias_line = plain_line(options.aliases_label, quoted_list(command.aliases));
    let aliases = if command.aliases.len() > 0 {
        named + alias_line
    } else {
        named
    };
    let described = match command.description {
        Some(description) => aliases + plain_line(options.description_label, description),
        None => aliases,
    };
    let usage = match command.usage {
        Some(usage) => described + plain_line(options.usage_label, "`"@ + usage + "`"@),
        None => described,
    };
    let examples = usage + plain_example_lines(options.usage_sample_label, command.examples);
    let group_line = plain_line(options.grouped_label, command.group_name);
    let grouped = examples + group_line;
    let available = grouped + plain_line(options.available_text, command.availability);
    let checks = if command.checks.len() > 0 {
        available + plain_line(options.checks_label, quoted_list(command.checks))
    } else {
        available
    };
    let sub_line = plain_line(options.sub_commands_label, quoted_list(command.sub_commands));
    if name == command.name || command.aliases.contains(name) {
        if name == command.name {
            lemma_mentions_itself(name);
            lemma_mentions_inside("__**"@, name, "**__\n"@, name);
            if command.aliases.len() > 0 {
                lemma_mentions_append(named, alias_line, name);
            }
        } else {
            lemma_quoted_list_mentions(command.aliases, name);
            lemma_line_mentions(options.aliases_label, quoted_list(command.aliases), name);
            lemma_mentions_behind(named, alias_line, name);
        }
        assert(mentions(aliases, name));
        if let Some(description) = command.description {
            lemma_mentions_append(
                aliases,
                plain_line(options.description_label, description),
                name,
            );
        }
        assert(mentions(described, name));
        if let Some(text) = command.usage {
            lemma_mentions_append(
                described,
                plain_line(options.usage_label, "`"@ + text + "`"@),
                name,
            );
        }
        assert(mentions(usage, name));
        lemma_mentions_append(
            usage,
            plain_example_lines(options.usage_sample_label, command.examples),
            name,
        );
        lemma_mentions_append(examples, group_line, name);
    } else if name == command.group_name {
        lemma_mentions_itself(name);
        lemma_line_mentions(options.grouped_label, name, name);
        lemma_mentions_behind(examples, group_line, name);
    }
    if name == command.name || command.aliases.contains(name) || name == command.group_name {
        assert(mentions(grouped, name));
        lemma_mentions_append(
            grouped,
            plain_line(options.available_text, command.availability),
            name,
        );
        if command.checks.len() > 0 {
            lemma_mentions_append(
                available,
                plain_line(options.checks_label, quoted_list(command.checks)),
                name,
            );
        }
        assert(mentions(checks, name));
        if command.sub_commands.len() > 0 {
            lemma_mentions_append(checks, sub_line, name);
        }
    } else if command.checks.contains(name) {
        let check_line = plain_line(options.checks_label, quoted_list(command.checks));
        lemma_quoted_list_mentions(command.checks, name);
        lemma_line_mentions(options.checks_label, quoted_list(command.checks), name);
        lemma_mentions_behind(available, check_line, name);
        assert(mentions(checks, name));
        if command.sub_commands.len() > 0 {
            lemma_mentions_append(checks, sub_line, name);
        }
    } else {
        lemma_quoted_list_mentions(command.sub_commands, name);
        lemma_line_mentions(
            options.sub_commands_label,
            quoted_list(command.sub_commands),
            name,
        );
        lemma_mentions_behind(checks, sub_line, name);
    }
}

/// The structured payload of a command's page mentions every name the page
/// holds.
proof fn lemma_rich_page_mentions(
    command: CommandViewModel,
    options: HelpOptionsModel,
    name: Seq<char>,
)
    requires
        page_holds_name(command, name),
    ensures
        embed_mentions(rich_command(command, options), name),
{
    let embed = rich_command(command, options);
    let none = Seq::<FieldModel>::empty();
    let usage = match command.usage {
        Some(usage) => none.push(inline_field(options.usage_label, "`"@ + usage + "`"@)),
        None => none,
    };
    let examples = if command.examples.len() > 0 {
        usage.push(
            inline_field(
                options.usage_sample_label,
                example_lines(command.examples),
            ),
        )
    } else {
        usage
    };
    let grouped = examples.push(inline_field(options.grouped_label, command.group_name));
    let aliases = if command.aliases.len() > 0 {
        grouped.push(inline_field(options.aliases_label, quoted_list(command.aliases)))
    } else {
        grouped
    };
    let available = aliases.push(inline_field(options.available_text, command.availability));
    let checks = if command.checks.len() > 0 {
        available.push(inline_field(options.checks_label, quoted_list(command.checks)))
    } else {
        available
    };
    assert(embed.fields == command_fields(command, options));
    if name == command.name {
        lemma_mentions_itself(name);
    } else if name == command.group_name {
        lemma_mentions_itself(name);
        let k = examples.len() as int;
        assert(embed.fields[k] == inline_field(options.grouped_label, command.group_name));
        assert(field_mentions(embed.fields[k], name));
    } else if command.aliases.contains(name) {
        lemma_quoted_list_mentions(command.aliases, name);
        let k = grouped.len() as int;
        assert(embed.fields[k] == inline_field(
            options.aliases_label,
            quoted_list(command.aliases),
        ));
        assert(field_mentions(embed.fields[k], name));
    } else if command.checks.contains(name) {
        lemma_quoted_list_mentions(command.checks, name);
        let k = available.len() as int;
        assert(embed.fields[k] == inline_field(
            options.checks_label,
            quoted_list(command.checks),
        ));
        assert(field_mentions(embed.fields[k], name));
    } else {
        lemma_quoted_list_mentions(command.sub_commands, name);
        let k = checks.len() as int;
        assert(embed.fields[k] == inline_field(
            options.sub_commands_label,
            quoted_list(command.sub_commands),
        ));
        assert(field_mentions(embed.fields[k], name));
    }
}

/// The two renderings of one outcome say the same. Every command and group
/// name that the outcome holds is mentioned by the plain text and by the
/// structured payload. For suggestions and for a notice, the structured
/// payload is nothing but the plain text, as its description.
pub proof fn lemma_renderings_agree(
    outcome: OutcomeModel,
    options: HelpOptionsModel,
    name: Seq<char>,
)
    ensures
        outcome_holds_name(outcome, name) ==> mentions(plain_spec(outcome, options), name)
            && embed_mentions(rich_spec(outcome, options), name),
        outcome is Suggestions || outcome is NoMatch ==> rich_spec(outcome, options).title
            is None && rich_spec(outcome, options).description == Some(
            plain_spec(outcome, options),
        ) && rich_spec(outcome, options).fields.len() == 0,
{
    match outcome {
        OutcomeModel::GroupListing { intro, groups } => {
            if views_hold_name(groups, name) {
                lemma_listing_names_in_both(intro, groups, options, name);
            }
        },
        OutcomeModel::SingleCommand { command } => {
            if page_holds_name(command, name) {
                lemma_page_names_in_both(command, options, name);
            }
        },
        _ => {},
    }
}

} // verus!
