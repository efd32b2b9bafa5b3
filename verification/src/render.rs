//! Turning a resolved outcome into something to send: a structured payload
//! with sections, or one block of plain text. Both say the same.

use vstd::prelude::*;
use crate::options::{HelpOptions, HelpOptionsModel};
use crate::outcome::{
    lemma_sub_view_models,
    suggestion_models,
    view_models,
    CommandView,
    CommandViewModel,
    GroupCommandsView,
    GroupViewModel,
    OutcomeModel,
    ResolvedOutcome,
    Suggestion,
    SuggestionModel,
};
use crate::text::{chars_of, clone_opt_text, join, joined, opt_text, texts};

verus! {

/// One titled section of a structured payload.
#[derive(Clone, Debug, PartialEq, Eq)]
pub struct EmbedField {
    /// The section's heading.
    pub name: String,
    /// The section's text.
    pub value: String,
    /// Whether the section may stand beside its neighbours.
    pub inline: bool,
}

/// The mathematical model of [`EmbedField`].
pub ghost struct FieldModel {
    pub name: Seq<char>,
    pub value: Seq<char>,
    pub inline: bool,
}

impl View for EmbedField {
    type V = FieldModel;

    open spec fn view(&self) -> FieldModel {
        FieldModel { name: self.name@, value: self.value@, inline: self.inline }
    }
}

/// The models of a sequence of sections.
pub open spec fn field_models(v: Seq<EmbedField>) -> Seq<FieldModel> {
    v.map_values(|f: EmbedField| f@)
}

/// A structured payload.
#[derive(Clone, Debug, PartialEq, Eq)]
pub struct Embed {
    /// The title, if there is one.
    pub title: Option<String>,
    /// The text below the title, if there is one.
    pub description: Option<String>,
    /// The colour of the payload's edge.
    pub colour: u32,
    /// The sections, in order.
    pub fields: Vec<EmbedField>,
}

/// The mathematical model of [`Embed`].
pub ghost struct EmbedModel {
    pub title: Option<Seq<char>>,
    pub description: Option<Seq<char>>,
    pub colour: u32,
    pub fields: Seq<FieldModel>,
}

impl View for Embed {
    type V = EmbedModel;

    open spec fn view(&self) -> EmbedModel {
        EmbedModel {
            title: opt_text(self.title),
            description: opt_text(self.description),
            colour: self.colour,
            fields: field_models(self.fields@),
        }
    }
}

/// The shape in which an outcome is rendered.
#[derive(Clone, Copy, Debug, PartialEq, Eq, Structural)]
pub enum Style {
    /// A structured payload with sections.
    Embed,
    /// One block of text.
    PlainText,
}

/// A rendered outcome.
#[derive(Clone, Debug, PartialEq, Eq)]
pub enum Payload {
    /// A structured payload.
    Embed(Embed),
    /// One block of text.
    Text(String),
}

/// The mathematical model of [`Payload`].
pub ghost enum PayloadModel {
    Embed(EmbedModel),
    Text(Seq<char>),
}

impl View for Payload {
    type V = PayloadModel;

    open spec fn view(&self) -> PayloadModel {
        match self {
            Payload::Embed(embed) => PayloadModel::Embed(embed@),
            Payload::Text(text) => PayloadModel::Text(text@),
        }
    }
}

/// `template` with `value` in the place of every `{}`, read from the left.
pub open spec fn filled(template: Seq<char>, value: Seq<char>) -> Seq<char>
    decreases template.len(),
{
    if template.len() == 0 {
        Seq::empty()
    } else if template.len() >= 2 && template[0] == '{' && template[1] == '}' {
        value + filled(template.skip(2), value)
    } else {
        seq![template[0]] + filled(template.skip(1), value)
    }
}

/// The names of the suggestions, in order.
pub open spec fn suggestion_names(suggestions: Seq<SuggestionModel>) -> Seq<Seq<char>> {
    suggestions.map_values(|s: SuggestionModel| s.name)
}

/// The text of a list of suggestions: the names, joined, in the place of
/// every `{}` of the intro.
pub open spec fn suggestion_text(intro: Seq<char>, suggestions: Seq<SuggestionModel>) -> Seq<
    char,
> {
    filled(intro, joined(suggestion_names(suggestions), "`, `"@))
}

/// The section text of one listed group in a structured payload. `indent`
/// is the nesting marker repeated once per level; a nested group starts with
/// its name. The command names stand one per line where `single` is set, and
/// side by side otherwise. Each nested group follows, one marker deeper.
pub open spec fn rich_group_text(
    view: GroupViewModel,
    indent: Seq<char>,
    nested: bool,
    single: bool,
    options: HelpOptionsModel,
) -> Seq<char>
    decreases view, 1int,
{
    let named = if nested {
        indent + "__**"@ + view.name + "**__\n"@
    } else {
        Seq::empty()
    };
    let prefixed = if view.prefixes.len() > 0 {
        named + indent + options.group_prefix + ": `"@ + joined(view.prefixes, "`, `"@) + "`\n"@
    } else {
        named
    };
    let separator = if single {
        "\n"@ + indent
    } else {
        " "@ + indent
    };
    let led = if view.command_names.len() > 0 {
        prefixed + indent
    } else {
        prefixed
    };
    led + joined(view.command_names, separator) + "\n"@ + rich_groups_text(
        view.sub_groups,
        indent + options.indention_prefix,
        options,
    )
}

/// The section texts of nested groups, one after the other.
pub open spec fn rich_groups_text(
    views: Seq<GroupViewModel>,
    indent: Seq<char>,
    options: HelpOptionsModel,
) -> Seq<char>
    decreases views, 0int,
{
    if views.len() == 0 {
        Seq::empty()
    } else {
        rich_groups_text(views.drop_last(), indent, options) + rich_group_text(
            views.last(),
            indent,
            true,
            false,
            options,
        )
    }
}

/// The sections of a listing: one per group, headed by the group's name, or
/// by `Commands` where the group stands alone.
pub open spec fn listing_fields(
    groups: Seq<GroupViewModel>,
    single: bool,
    options: HelpOptionsModel,
) -> Seq<FieldModel>
    decreases groups.len(),
{
    if groups.len() == 0 {
        Seq::empty()
    } else {
        listing_fields(groups.drop_last(), single, options).push(
            FieldModel {
                name: if single {
                    "Commands"@
                } else {
                    groups.last().name
                },
                value: rich_group_text(groups.last(), Seq::empty(), false, single, options),
                inline: true,
            },
        )
    }
}

/// The structured payload of a listing.
pub open spec fn rich_listing(
    intro: Seq<char>,
    groups: Seq<GroupViewModel>,
    options: HelpOptionsModel,
) -> EmbedModel {
    EmbedModel {
        title: Some(
            if groups.len() == 1 {
                groups[0].name + " Help"@
            } else {
                "R.Daggy Help Command"@
            },
        ),
        description: Some(intro),
        colour: options.embed_success_colour,
        fields: listing_fields(groups, groups.len() == 1, options),
    }
}

/// Every example in backticks on a line of its own.
pub open spec fn example_lines(examples: Seq<Seq<char>>) -> Seq<char>
    decreases examples.len(),
{
    if examples.len() == 0 {
        Seq::empty()
    } else {
        example_lines(examples.drop_last()) + "`"@ + examples.last() + "`\n"@
    }
}

/// The names in backticks, with commas between them.
pub open spec fn quoted_list(names: Seq<Seq<char>>) -> Seq<char> {
    "`"@ + joined(names, "`, `"@) + "`"@
}

/// A section that may stand beside its neighbours.
pub open spec fn inline_field(name: Seq<char>, value: Seq<char>) -> FieldModel {
    FieldModel { name, value, inline: true }
}

/// The sections of a command's page: usage, examples, group, aliases,
/// availability, checks and sub-commands, each only where there is something
/// to say; group and availability always.
pub open spec fn command_fields(command: CommandViewModel, options: HelpOptionsModel) -> Seq<
    FieldModel,
> {
    let none = Seq::<FieldModel>::empty();
    let usage = match command.usage {
        Some(usage) => none.push(inline_field(options.usage_label, "`"@ + usage + "`"@)),
        None => none,
    };
    let examples = if command.examples.len() > 0 {
        usage.push(inline_field(options.usage_sample_label, example_lines(command.examples)))
    } else {
        usage
    };
    let grouped = examples.push(inline_field(options.grouped_label, command.group_name));
    let aliases = if command.aliases.len() > 0 {
        grouped.push(inline_field(options.aliases_label, quoted_list(command.aliases)))
    } else {
        grouped
    };
    let available = aliases.push(inline_field(options.available_text, command.availability));
    let checks = if command.checks.len() > 0 {
        available.push(inline_field(options.checks_label, quoted_list(command.checks)))
    } else {
        available
    };
    if command.sub_commands.len() > 0 {
        checks.push(inline_field(options.sub_commands_label, quoted_list(command.sub_commands)))
    } else {
        checks
    }
}

/// The structured payload of a command's page.
pub open spec fn rich_command(command: CommandViewModel, options: HelpOptionsModel) -> EmbedModel {
    EmbedModel {
        title: Some(command.name),
        description: command.description,
        colour: options.embed_success_colour,
        fields: command_fields(command, options),
    }
}

/// A structured payload that holds one text and reports a failure.
pub open spec fn rich_notice(text: Seq<char>, options: HelpOptionsModel) -> EmbedModel {
    EmbedModel {
        title: None,
        description: Some(text),
        colour: options.embed_error_colour,
        fields: Seq::empty(),
    }
}

/// The structured rendering of an outcome.
pub open spec fn rich_spec(outcome: OutcomeModel, options: HelpOptionsModel) -> EmbedModel {
    match outcome {
        OutcomeModel::NoMatch { message } => rich_notice(message, options),
        OutcomeModel::Suggestions { intro, suggestions } => rich_notice(
            suggestion_text(intro, suggestions),
            options,
        ),
        OutcomeModel::GroupListing { intro, groups } => rich_listing(intro, groups, options),
        OutcomeModel::SingleCommand { command } => rich_command(command, options),
    }
}

/// The plain text of one listed group: for a nested group its name in bold
/// on a line of its own, led by `indent`; then its prefixes, if it has any;
/// its command names with commas between them; then each nested group, one
/// marker deeper. A group at the top is named by the listing that holds it.
pub open spec fn plain_group_text(
    view: GroupViewModel,
    indent: Seq<char>,
    nested: bool,
    options: HelpOptionsModel,
) -> Seq<char>
    decreases view, 1int,
{
    let named = if nested {
        "\n"@ + indent + "**"@ + view.name + "**"@
    } else {
        Seq::empty()
    };
    let prefixed = if view.prefixes.len() == 0 {
        named + ": "@
    } else {
        named + " ("@ + options.group_prefix + ": `"@ + joined(view.prefixes, "`, `"@) + "`): "@
    };
    prefixed + joined(view.command_names, ", "@) + plain_groups_text(
        view.sub_groups,
        indent + options.indention_prefix,
        options,
    )
}

/// The plain texts of nested groups, one after the other.
pub open spec fn plain_groups_text(
    views: Seq<GroupViewModel>,
    indent: Seq<char>,
    options: HelpOptionsModel,
) -> Seq<char>
    decreases views, 0int,
{
    if views.len() == 0 {
        Seq::empty()
    } else {
        plain_groups_text(views.drop_last(), indent, options) + plain_group_text(
            views.last(),
            indent,
            true,
            options,
        )
    }
}

/// The plain texts of the groups at the top of a listing, one after the
/// other: each group's name in bold on a line of its own, then the group.
pub open spec fn plain_top_groups_text(
    groups: Seq<GroupViewModel>,
    options: HelpOptionsModel,
) -> Seq<char>
    decreases groups.len(),
{
    if groups.len() == 0 {
        Seq::empty()
    } else {
        plain_top_groups_text(groups.drop_last(), options) + "\n**"@ + groups.last().name + "**"@
            + plain_group_text(groups.last(), Seq::empty(), false, options)
    }
}

/// The plain text of a listing.
pub open spec fn plain_listing(
    intro: Seq<char>,
    groups: Seq<GroupViewModel>,
    options: HelpOptionsModel,
) -> Seq<char> {
    "__**Commands**__\n"@ + intro + "\n"@ + plain_top_groups_text(groups, options)
}

/// One line of a command's page: the label in bold, then the value.
pub open spec fn plain_line(label: Seq<char>, value: Seq<char>) -> Seq<char> {
    "**"@ + label + "**: "@ + value + "\n"@
}

/// One line per example: the label in bold, the example in backticks.
pub open spec fn plain_example_lines(label: Seq<char>, examples: Seq<Seq<char>>) -> Seq<char>
    decreases examples.len(),
{
    if examples.len() == 0 {
        Seq::empty()
    } else {
        plain_example_lines(label, examples.drop_last()) + plain_line(
            label,
            "`"@ + examples.last() + "`"@,
        )
    }
}

/// The plain text of a command's page, line by line: name, aliases,
/// description, usage, examples, group, availability, checks and
/// sub-commands, each only where there is something to say; name, group and
/// availability always.
pub open spec fn plain_command(command: CommandViewModel, options: HelpOptionsModel) -> Seq<char> {
    let named = "__**"@ + command.name + "**__\n"@;
    let aliases = if command.aliases.len() > 0 {
        named + plain_line(options.aliases_label, quoted_list(command.aliases))
    } else {
        named
    };
    let described = match command.description {
        Some(description) => aliases + plain_line(options.description_label, description),
        None => aliases,
    };
    let usage = match command.usage {
        Some(usage) => described + plain_line(options.usage_label, "`"@ + usage + "`"@),
        None => described,
    };
    let examples = usage + plain_example_lines(options.usage_sample_label, command.examples);
    let grouped = examples + plain_line(options.grouped_label, command.group_name);
    let available = grouped + plain_line(options.available_text, command.availability);
    let checks = if command.checks.len() > 0 {
        available + plain_line(options.checks_label, quoted_list(command.checks))
    } else {
        available
    };
    if command.sub_commands.len() > 0 {
        checks + plain_line(options.sub_commands_label, quoted_list(command.sub_commands))
    } else {
        checks
    }
}

/// The plain rendering of an outcome.
pub open spec fn plain_spec(outcome: OutcomeModel, options: HelpOptionsModel) -> Seq<char> {
    match outcome {
        OutcomeModel::NoMatch { message } => message,
        OutcomeModel::Suggestions { intro, suggestions } => suggestion_text(intro, suggestions),
        OutcomeModel::GroupListing { intro, groups } => plain_listing(intro, groups, options),
        OutcomeModel::SingleCommand { command } => plain_command(command, options),
    }
}

/// The rendering of an outcome in a given style.
pub open spec fn render_spec(outcome: OutcomeModel, style: Style, options: HelpOptionsModel) -> PayloadModel {
    match style {
        Style::Embed => PayloadModel::Embed(rich_spec(outcome, options)),
        Style::PlainText => PayloadModel::Text(plain_spec(outcome, options)),
    }
}

/// Puts `value` in the place of every `{}` of `template`.
pub fn fill_placeholder(template: &str, value: &str) -> (text: String)
    ensures
        text@ == filled(template@, value@),
{
    let chars = chars_of(template);
    let n: usize = chars.len();
    let mut text = String::new();
    let mut from: usize = 0;
    let mut i: usize = 0;
    assert(template@.skip(0) == template@);
    assert(text@ + template@.subrange(0, 0) + filled(template@.skip(0), value@) =~= filled(
        template@,
        value@,
    ));
    while i < n
        invariant
            from <= i <= n,
            n == template@.len(),
            chars@ == template@,
            filled(template@, value@) == text@ + template@.subrange(from as int, i as int)
                + filled(template@.skip(i as int), value@),
        decreases n - i,
    {
        let ghost rest = template@.skip(i as int);
        if chars[i] == '{' && i + 1 < n && chars[i + 1] == '}' {
            let ghost before = text@;
            text.append(template.substring_char(from, i));
            text.append(value);
            proof {
                assert(rest.skip(2) == template@.skip(i + 2));
                assert(template@.subrange(i + 2, i + 2) == Seq::<char>::empty());
                assert(before + template@.subrange(from as int, i as int) + (value@ + filled(
                    rest.skip(2),
                    value@,
                )) =~= text@ + template@.subrange(i + 2, i + 2) + filled(
                    template@.skip(i + 2),
                    value@,
                ));
            }
            i += 2;
            from = i;
        } else {
            proof {
                assert(rest.skip(1) == template@.skip(i + 1));
                assert(rest[0] == template@[i as int]);
                assert(text@ + template@.subrange(from as int, i as int) + (seq![rest[0]]
                    + filled(rest.skip(1), value@)) =~= text@ + template@.subrange(
                    from as int,
                    i + 1,
                ) + filled(template@.skip(i + 1), value@));
            }
            i += 1;
        }
    }
    let ghost before = text@;
    text.append(template.substring_char(from, n));
    assert(before + template@.subrange(from as int, n as int) + Seq::<char>::empty() =~= text@);
    text
}

/// Joins the names of the suggestions with `separator` between neighbours.
pub fn join_suggestions(suggestions: &Vec<Suggestion>, separator: &str) -> (text: String)
    ensures
        text@ == joined(suggestion_names(suggestion_models(suggestions@)), separator@),
{
    let ghost names = suggestion_names(suggestion_models(suggestions@));
    let mut text = String::new();
    let mut i: usize = 0;
    while i < suggestions.len()
        invariant
            i <= suggestions.len(),
            names == suggestion_names(suggestion_models(suggestions@)),
            text@ == joined(names.take(i as int), separator@),
        decreases suggestions.len() - i,
    {
        proof {
            let now = names.take(i + 1);
            assert(now.drop_last() == names.take(i as int));
            assert(now.last() == suggestions@[i as int].name@);
        }
        if i > 0 {
            text.append(separator);
        } else {
            assert(text@ + suggestions@[i as int].name@ == suggestions@[i as int].name@);
        }
        text.append(suggestions[i].name.as_str());
        i += 1;
    }
    assert(names.take(suggestions.len() as int) == names);
    text
}

/// The names in backticks, with commas between them.
fn quote_list(names: &Vec<String>) -> (text: String)
    ensures
        text@ == quoted_list(texts(names@)),
{
    let mut text = String::from_str("`");
    text.append(join(names, "`, `").as_str());
    text.append("`");
    text
}

/// Renders the section text of one listed group for a structured payload.
pub fn flatten_group_to_string(
    group: &GroupCommandsView,
    indent: &str,
    nested: bool,
    single_group: bool,
    options: &HelpOptions,
) -> (text: String)
    ensures
        text@ == rich_group_text(group@, indent@, nested, single_group, options@),
    decreases group, 1int,
{
    let mut text = String::new();
    if nested {
        assert(text@ + indent@ == indent@);
        text.append(indent);
        text.append("__**");
        text.append(group.name.as_str());
        text.append("**__\n");
    }
    if group.prefixes.len() > 0 {
        text.append(indent);
        text.append(options.group_prefix.as_str());
        text.append(": `");
        text.append(join(&group.prefixes, "`, `").as_str());
        text.append("`\n");
    }
    let mut separator = String::from_str(if single_group { "\n" } else { " " });
    separator.append(indent);
    if group.command_names.len() > 0 {
        text.append(indent);
    }
    text.append(join(&group.command_names, separator.as_str()).as_str());
    text.append("\n");
    let mut deeper = String::from_str(indent);
    deeper.append(options.indention_prefix.as_str());
    proof {
        lemma_sub_view_models(*group);
    }
    text.append(flatten_groups_to_string(&group.sub_groups, deeper.as_str(), options).as_str());
    text
}

/// Renders the section texts of nested groups, one after the other.
pub fn flatten_groups_to_string(
    groups: &Vec<GroupCommandsView>,
    indent: &str,
    options: &HelpOptions,
) -> (text: String)
    ensures
        text@ == rich_groups_text(view_models(groups@), indent@, options@),
    decreases groups, 0int,
{
    let mut text = String::new();
    let mut i: usize = 0;
    while i < groups.len()
        invariant
            i <= groups.len(),
            text@ == rich_groups_text(view_models(groups@).take(i as int), indent@, options@),
        decreases groups.len() - i,
    {
        proof {
            let now = view_models(groups@).take(i + 1);
            assert(now.drop_last() == view_models(groups@).take(i as int));
            assert(now.last() == groups@[i as int]@);
        }
        text.append(flatten_group_to_string(&groups[i], indent, true, false, options).as_str());
        i += 1;
    }
    assert(view_models(groups@).take(groups.len() as int) == view_models(groups@));
    text
}

/// Renders one listed group as plain text. A nested group starts with its
/// name; a group at the top is named by its caller.
pub fn flatten_group_to_plain_string(
    group: &GroupCommandsView,
    indent: &str,
    nested: bool,
    options: &HelpOptions,
) -> (text: String)
    ensures
        text@ == plain_group_text(group@, indent@, nested, options@),
    decreases group, 1int,
{
    let mut text = String::new();
    if nested {
        assert(text@ + "\n"@ == "\n"@);
        text.append("\n");
        text.append(indent);
        text.append("**");
        text.append(group.name.as_str());
        text.append("**");
    }
    if group.prefixes.len() == 0 {
        text.append(": ");
    } else {
        text.append(" (");
        text.append(options.group_prefix.as_str());
        text.append(": `");
        text.append(join(&group.prefixes, "`, `").as_str());
        text.append("`): ");
    }
    text.append(join(&group.command_names, ", ").as_str());
    let mut deeper = String::from_str(indent);
    deeper.append(options.indention_prefix.as_str());
    proof {
        lemma_sub_view_models(*group);
    }
    text.append(
        flatten_groups_to_plain_string(&group.sub_groups, deeper.as_str(), options).as_str(),
    );
    text
}

/// Renders nested groups as plain text, one after the other.
pub fn flatten_groups_to_plain_string(
    groups: &Vec<GroupCommandsView>,
    indent: &str,
    options: &HelpOptions,
) -> (text: String)
    ensures
        text@ == plain_groups_text(view_models(groups@), indent@, options@),
    decreases groups, 0int,
{
    let mut text = String::new();
    let mut i: usize = 0;
    while i < groups.len()
        invariant
            i <= groups.len(),
            text@ == plain_groups_text(view_models(groups@).take(i as int), indent@, options@),
        decreases groups.len() - i,
    {
        proof {
            let now = view_models(groups@).take(i + 1);
            assert(now.drop_last() == view_models(groups@).take(i as int));
            assert(now.last() == groups@[i as int]@);
        }
        text.append(flatten_group_to_plain_string(&groups[i], indent, true, options).as_str());
        i += 1;
    }
    assert(view_models(groups@).take(groups.len() as int) == view_models(groups@));
    text
}

/// Builds the structured payload of a listing.
pub fn grouped_commands_embed(
    options: &HelpOptions,
    help_description: &str,
    groups: &Vec<GroupCommandsView>,
) -> (embed: Embed)
    ensures
        embed@ == rich_listing(help_description@, view_models(groups@), options@),
{
    let single: bool = groups.len() == 1;
    let title = if single {
        let mut title = groups[0].name.clone();
        title.append(" Help");
        title
    } else {
        String::from_str("R.Daggy Help Command")
    };
    let mut fields: Vec<EmbedField> = Vec::new();
    let mut i: usize = 0;
    while i < groups.len()
        invariant
            i <= groups.len(),
            field_models(fields@) == listing_fields(
                view_models(groups@).take(i as int),
                single,
                options@,
            ),
        decreases groups.len() - i,
    {
        proof {
            let now = view_models(groups@).take(i + 1);
            assert(now.drop_last() == view_models(groups@).take(i as int));
            assert(now.last() == groups@[i as int]@);
        }
        let value = flatten_group_to_string(&groups[i], "", false, single, options);
        proof {
            reveal_strlit("");
            assert(""@ == Seq::<char>::empty());
        }
        let name = if single {
            String::from_str("Commands")
        } else {
            groups[i].name.clone()
        };
        let field = EmbedField { name, value, inline: true };
        let ghost before = fields@;
        fields.push(field);
        assert(field_models(fields@) == field_models(before).push(field@));
        i += 1;
    }
    assert(view_models(groups@).take(groups.len() as int) == view_models(groups@));
    Embed {
        title: Some(title),
        description: Some(String::from_str(help_description)),
        colour: options.embed_success_colour,
        fields,
    }
}

/// Every example in backticks on a line of its own.
fn make_example_lines(examples: &Vec<String>) -> (text: String)
    ensures
        text@ == example_lines(texts(examples@)),
{
    let mut text = String::new();
    let mut i: usize = 0;
    while i < examples.len()
        invariant
            i <= examples.len(),
            text@ == example_lines(texts(examples@).take(i as int)),
        decreases examples.len() - i,
    {
        proof {
            let now = texts(examples@).take(i + 1);
            assert(now.drop_last() == texts(examples@).take(i as int));
            assert(now.last() == examples@[i as int]@);
        }
        text.append("`");
        text.append(examples[i].as_str());
        text.append("`\n");
        i += 1;
    }
    assert(texts(examples@).take(examples.len() as int) == texts(examples@));
    text
}

/// Appends a section that may stand beside its neighbours.
fn push_field(fields: &mut Vec<EmbedField>, name: &str, value: String)
    ensures
        field_models(final(fields)@) == field_models(old(fields)@).push(
            inline_field(name@, value@),
        ),
{
    let field = EmbedField { name: String::from_str(name), value, inline: true };
    fields.push(field);
    assert(field_models(fields@) == field_models(old(fields)@).push(field@));
}

/// Builds the structured payload of a command's page.
pub fn single_command_embed(options: &HelpOptions, command: &CommandView) -> (embed: Embed)
    ensures
        embed@ == rich_command(command@, options@),
{
    let mut fields: Vec<EmbedField> = Vec::new();
    assert(field_models(fields@) == Seq::<FieldModel>::empty());
    match &command.usage {
        Some(usage) => {
            push_field(&mut fields, options.usage_label.as_str(), quote(usage.as_str()));
        },
        None => {},
    }
    if command.examples.len() > 0 {
        push_field(
            &mut fields,
            options.usage_sample_label.as_str(),
            make_example_lines(&command.examples),
        );
    }
    push_field(&mut fields, options.grouped_label.as_str(), command.group_name.clone());
    if command.aliases.len() > 0 {
        push_field(&mut fields, options.aliases_label.as_str(), quote_list(&command.aliases));
    }
    push_field(&mut fields, options.available_text.as_str(), command.availability.clone());
    if command.checks.len() > 0 {
        push_field(&mut fields, options.checks_label.as_str(), quote_list(&command.checks));
    }
    if command.sub_commands.len() > 0 {
        push_field(
            &mut fields,
            options.sub_commands_label.as_str(),
            quote_list(&command.sub_commands),
        );
    }
    Embed {
        title: Some(command.name.clone()),
        description: clone_opt_text(&command.description),
        colour: options.embed_success_colour,
        fields,
    }
}

/// Builds a structured payload that holds one text and reports a failure.
pub fn error_embed(options: &HelpOptions, input: &str) -> (embed: Embed)
    ensures
        embed@ == rich_notice(input@, options@),
{
    let fields: Vec<EmbedField> = Vec::new();
    assert(field_models(fields@) == Seq::<FieldModel>::empty());
    Embed {
        title: None,
        description: Some(String::from_str(input)),
        colour: options.embed_error_colour,
        fields,
    }
}

/// Builds the structured payload of a list of suggestions.
pub fn suggestion_embed(
    options: &HelpOptions,
    help_description: &str,
    suggestions: &Vec<Suggestion>,
) -> (embed: Embed)
    ensures
        embed@ == rich_notice(
            suggestion_text(help_description@, suggestion_models(suggestions@)),
            options@,
        ),
{
    let names = join_suggestions(suggestions, "`, `");
    let text = fill_placeholder(help_description, names.as_str());
    error_embed(options, text.as_str())
}

/// Renders a listing as plain text.
pub fn grouped_commands_to_plain_string(
    options: &HelpOptions,
    help_description: &str,
    groups: &Vec<GroupCommandsView>,
) -> (text: String)
    ensures
        text@ == plain_listing(help_description@, view_models(groups@), options@),
{
    let mut listed = String::new();
    let mut i: usize = 0;
    while i < groups.len()
        invariant
            i <= groups.len(),
            listed@ == plain_top_groups_text(view_models(groups@).take(i as int), options@),
        decreases groups.len() - i,
    {
        proof {
            let now = view_models(groups@).take(i + 1);
            assert(now.drop_last() == view_models(groups@).take(i as int));
            assert(now.last() == groups@[i as int]@);
            reveal_strlit("");
            assert(""@ == Seq::<char>::empty());
        }
        listed.append("\n**");
        listed.append(groups[i].name.as_str());
        listed.append("**");
        listed.append(flatten_group_to_plain_string(&groups[i], "", false, options).as_str());
        i += 1;
    }
    assert(view_models(groups@).take(groups.len() as int) == view_models(groups@));
    let mut text = String::from_str("__**Commands**__\n");
    text.append(help_description);
    text.append("\n");
    text.append(listed.as_str());
    text
}

/// One line of a command's page: the label in bold, then the value.
fn make_plain_line(label: &str, value: &str) -> (text: String)
    ensures
        text@ == plain_line(label@, value@),
{
    let mut text = String::from_str("**");
    text.append(label);
    text.append("**: ");
    text.append(value);
    text.append("\n");
    text
}

/// `value` in backticks.
fn quote(value: &str) -> (text: String)
    ensures
        text@ == "`"@ + value@ + "`"@,
{
    let mut text = String::from_str("`");
    text.append(value);
    text.append("`");
    text
}

/// One line per example: the label in bold, the example in backticks.
fn make_plain_example_lines(label: &str, examples: &Vec<String>) -> (text: String)
    ensures
        text@ == plain_example_lines(label@, texts(examples@)),
{
    let mut text = String::new();
    let mut i: usize = 0;
    while i < examples.len()
        invariant
            i <= examples.len(),
            text@ == plain_example_lines(label@, texts(examples@).take(i as int)),
        decreases examples.len() - i,
    {
        proof {
            let now = texts(examples@).take(i + 1);
            assert(now.drop_last() == texts(examples@).take(i as int));
            assert(now.last() == examples@[i as int]@);
        }
        text.append(make_plain_line(label, quote(examples[i].as_str()).as_str()).as_str());
        i += 1;
    }
    assert(texts(examples@).take(examples.len() as int) == texts(examples@));
    text
}

/// Renders a command's page as plain text.
pub fn single_command_to_plain_string(options: &HelpOptions, command: &CommandView) -> (text:
    String)
    ensures
        text@ == plain_command(command@, options@),
{
    let mut text = String::from_str("__**");
    text.append(command.name.as_str());
    text.append("**__\n");
    if command.aliases.len() > 0 {
        let names = quote_list(&command.aliases);
        text.append(make_plain_line(options.aliases_label.as_str(), names.as_str()).as_str());
    }
    match &command.description {
        Some(description) => {
            text.append(
                make_plain_line(options.description_label.as_str(), description.as_str()).as_str(),
            );
        },
        None => {},
    }
    match &command.usage {
        Some(usage) => {
            let quoted = quote(usage.as_str());
            text.append(make_plain_line(options.usage_label.as_str(), quoted.as_str()).as_str());
        },
        None => {},
    }
    text.append(
        make_plain_example_lines(options.usage_sample_label.as_str(), &command.examples).as_str(),
    );
    text.append(
        make_plain_line(options.grouped_label.as_str(), command.group_name.as_str()).as_str(),
    );
    text.append(
        make_plain_line(options.available_text.as_str(), command.availability.as_str()).as_str(),
    );
    if command.checks.len() > 0 {
        let names = quote_list(&command.checks);
        text.append(make_plain_line(options.checks_label.as_str(), names.as_str()).as_str());
    }
    if command.sub_commands.len() > 0 {
        let names = quote_list(&command.sub_commands);
        text.append(
            make_plain_line(options.sub_commands_label.as_str(), names.as_str()).as_str(),
        );
    }
    text
}

/// Renders an outcome as a structured payload.
pub fn render_embed(outcome: &ResolvedOutcome, options: &HelpOptions) -> (embed: Embed)
    ensures
        embed@ == rich_spec(outcome@, options@),
{
    match outcome {
        ResolvedOutcome::NoMatch { message } => error_embed(options, message.as_str()),
        ResolvedOutcome::Suggestions { intro, suggestions } => suggestion_embed(
            options,
            intro.as_str(),
            suggestions,
        ),
        ResolvedOutcome::GroupListing { intro, groups } => grouped_commands_embed(
            options,
            intro.as_str(),
            groups,
        ),
        ResolvedOutcome::SingleCommand { command } => single_command_embed(options, command),
    }
}

/// Renders an outcome as plain text.
pub fn render_plain(outcome: &ResolvedOutcome, options: &HelpOptions) -> (text: String)
    ensures
        text@ == plain_spec(outcome@, options@),
{
    match outcome {
        ResolvedOutcome::NoMatch { message } => message.clone(),
        ResolvedOutcome::Suggestions { intro, suggestions } => {
            let names = join_suggestions(suggestions, "`, `");
            fill_placeholder(intro.as_str(), names.as_str())
        },
        ResolvedOutcome::GroupListing { intro, groups } => grouped_commands_to_plain_string(
            options,
            intro.as_str(),
            groups,
        ),
        ResolvedOutcome::SingleCommand { command } => single_command_to_plain_string(
            options,
            command,
        ),
    }
}

/// Renders an outcome in the given style.
pub fn render(outcome: &ResolvedOutcome, style: Style, options: &HelpOptions) -> (payload: Payload)
    ensures
        payload@ == render_spec(outcome@, style, options@),
{
    match style {
        Style::Embed => Payload::Embed(render_embed(outcome, options)),
        Style::PlainText => Payload::Text(render_plain(outcome, options)),
    }
}

} // verus!
