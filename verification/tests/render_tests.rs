use rdaggy::help::{plain, with_embeds};
use rdaggy::options::HelpOptions;
use rdaggy::outcome::{CommandView, GroupCommandsView, ResolvedOutcome, Suggestion};
use rdaggy::render::{
    fill_placeholder, flatten_group_to_plain_string, flatten_group_to_string, join_suggestions,
    render, render_embed, render_plain, Embed, EmbedField, Payload, Style,
};
use rdaggy::tree::{CommandSpec, GroupSpec};
use rdaggy::visibility::{
    Behavior, CallerContext, Channel, Constraints, PolicyDefaults, Scope,
};

fn s(text: &str) -> String {
    text.to_string()
}

fn strings(items: &[&str]) -> Vec<String> {
    items.iter().map(|i| s(i)).collect()
}

fn options() -> HelpOptions {
    HelpOptions {
        suggestion_text: s("Did you mean `{}`?"),
        no_help_available_text: s("**Error**: No help available."),
        usage_label: s("Usage"),
        usage_sample_label: s("Sample usage"),
        description_label: s("Description"),
        grouped_label: s("Group"),
        aliases_label: s("Aliases"),
        guild_only_text: s("Only in servers"),
        checks_label: s("Checks"),
        sub_commands_label: s("Sub Commands"),
        dm_only_text: s("Only in DM"),
        dm_and_guild_text: s("In DM and servers"),
        available_text: s("Available"),
        individual_command_tip: s("Pass a command's name for help on it."),
        strikethrough_commands_tip_in_dm: None,
        strikethrough_commands_tip_in_guild: None,
        group_prefix: s("Prefix"),
        policy: PolicyDefaults {
            lacking_role: Behavior::StrikeThrough,
            lacking_permissions: Behavior::Hide,
            lacking_ownership: Behavior::Hide,
            lacking_conditions: Behavior::StrikeThrough,
            wrong_channel: Behavior::Hide,
        },
        embed_error_colour: 0xff0000,
        embed_success_colour: 0x00ff00,
        max_levenshtein_distance: 3,
        indention_prefix: s("+"),
    }
}

fn view(name: &str, prefixes: &[&str], names: &[&str], subs: Vec<GroupCommandsView>) -> GroupCommandsView {
    GroupCommandsView {
        name: s(name),
        prefixes: strings(prefixes),
        command_names: strings(names),
        sub_groups: subs,
    }
}

fn nested_listing() -> Vec<GroupCommandsView> {
    vec![
        view(
            "General",
            &[],
            &["`ping`", "~~`quit`~~"],
            vec![view(
                "Inner",
                &["in", "i"],
                &["`a`", "`b`"],
                vec![view("Deep", &[], &["`c`"], vec![])],
            )],
        ),
        view("Dagpi", &["dagpi"], &["`status`"], vec![]),
    ]
}

fn page() -> CommandView {
    CommandView {
        name: s("ban"),
        description: Some(s("Bans a member")),
        usage: Some(s("mod ban <member> <reason>")),
        examples: strings(&["mod ban @someone spam", "mod ban @other rude"]),
        group_name: s("Moderation"),
        availability: s("Only in servers"),
        aliases: strings(&["b", "hammer"]),
        checks: strings(&["Staff"]),
        sub_commands: strings(&["soft", "hard"]),
    }
}

fn field(name: &str, value: &str) -> EmbedField {
    EmbedField { name: s(name), value: s(value), inline: true }
}

#[test]
fn placeholder_is_filled_everywhere() {
    assert_eq!(fill_placeholder("Did you mean `{}`?", "ping"), "Did you mean `ping`?");
    assert_eq!(fill_placeholder("{}{} and {}", "x"), "xx and x");
    assert_eq!(fill_placeholder("no placeholder", "x"), "no placeholder");
    assert_eq!(fill_placeholder("", "x"), "");
    assert_eq!(fill_placeholder("{", "x"), "{");
    assert_eq!(fill_placeholder("{{}}", "x"), "{x}");
    assert_eq!(fill_placeholder("a{}", ""), "a");
    assert_eq!(fill_placeholder("é{}日", "ü"), "éü日");
}

#[test]
fn suggestion_names_are_joined() {
    let found = vec![
        Suggestion { name: s("ping"), distance: 1 },
        Suggestion { name: s("pin"), distance: 1 },
        Suggestion { name: s("pong"), distance: 2 },
    ];
    assert_eq!(join_suggestions(&found, "`, `"), "ping`, `pin`, `pong");
    assert_eq!(join_suggestions(&found[..1].to_vec(), "`, `"), "ping");
    assert_eq!(join_suggestions(&vec![], "`, `"), "");
}

#[test]
fn rich_group_text_indents_one_marker_per_level() {
    let groups = nested_listing();
    assert_eq!(
        flatten_group_to_string(&groups[0], "", false, false, &options()),
        "`ping` ~~`quit`~~\n+__**Inner**__\n+Prefix: `in`, `i`\n+`a` +`b`\n++__**Deep**__\n++`c`\n"
    );
}

#[test]
fn rich_group_text_of_a_single_group_puts_one_name_per_line() {
    let groups = nested_listing();
    assert_eq!(
        flatten_group_to_string(&groups[0], "", false, true, &options()),
        "`ping`\n~~`quit`~~\n+__**Inner**__\n+Prefix: `in`, `i`\n+`a` +`b`\n++__**Deep**__\n++`c`\n"
    );
    assert_eq!(
        flatten_group_to_string(&groups[1], "", false, true, &options()),
        "Prefix: `dagpi`\n`status`\n"
    );
}

#[test]
fn rich_group_text_without_commands_is_an_empty_line() {
    let blank = view("Blank", &[], &[], vec![]);
    assert_eq!(flatten_group_to_string(&blank, "", false, false, &options()), "\n");
    assert_eq!(flatten_group_to_string(&blank, "+", true, false, &options()), "+__**Blank**__\n\n");
}

#[test]
fn plain_group_text_indents_one_marker_per_level() {
    let groups = nested_listing();
    assert_eq!(
        flatten_group_to_plain_string(&groups[0], "", false, &options()),
        ": `ping`, ~~`quit`~~\n+**Inner** (Prefix: `in`, `i`): `a`, `b`\n++**Deep**: `c`"
    );
}

#[test]
fn plain_group_text_at_the_top_has_no_heading() {
    let moderation = view("Moderation", &["mod", "m"], &["`ban`", "`kick`"], vec![]);
    assert_eq!(
        flatten_group_to_plain_string(&moderation, "", false, &options()),
        " (Prefix: `mod`, `m`): `ban`, `kick`"
    );
    let outer = view("A", &[], &["`x`"], vec![view("B", &[], &["`y`", "`z`"], vec![])]);
    assert_eq!(
        flatten_group_to_plain_string(&outer, "", false, &options()),
        ": `x`\n+**B**: `y`, `z`"
    );
}

#[test]
fn plain_group_text_of_a_nested_group_starts_with_its_name() {
    let inner = view("B", &["b"], &["`y`"], vec![]);
    assert_eq!(
        flatten_group_to_plain_string(&inner, "++", true, &options()),
        "\n++**B** (Prefix: `b`): `y`"
    );
    let blank = view("Blank", &[], &[], vec![]);
    assert_eq!(flatten_group_to_plain_string(&blank, "+", true, &options()), "\n+**Blank**: ");
    assert_eq!(flatten_group_to_plain_string(&blank, "", false, &options()), ": ");
}

#[test]
fn listing_renders_in_both_styles() {
    let outcome = ResolvedOutcome::GroupListing { intro: s("Tip"), groups: nested_listing() };
    assert_eq!(
        render_plain(&outcome, &options()),
        "__**Commands**__\nTip\n\n**General**: `ping`, ~~`quit`~~\n+**Inner** (Prefix: `in`, `i`): `a`, `b`\n++**Deep**: `c`\n**Dagpi** (Prefix: `dagpi`): `status`"
    );
    assert_eq!(
        render_embed(&outcome, &options()),
        Embed {
            title: Some(s("R.Daggy Help Command")),
            description: Some(s("Tip")),
            colour: 0x00ff00,
            fields: vec![
                field(
                    "General",
                    "`ping` ~~`quit`~~\n+__**Inner**__\n+Prefix: `in`, `i`\n+`a` +`b`\n++__**Deep**__\n++`c`\n"
                ),
                field("Dagpi", "Prefix: `dagpi`\n`status`\n"),
            ],
        }
    );
}

#[test]
fn single_group_listing_is_titled_by_the_group() {
    let outcome = ResolvedOutcome::GroupListing {
        intro: s("Fun stuff"),
        groups: vec![view("Fun", &[], &["`joke`", "`roast`"], vec![])],
    };
    assert_eq!(
        render_embed(&outcome, &options()),
        Embed {
            title: Some(s("Fun Help")),
            description: Some(s("Fun stuff")),
            colour: 0x00ff00,
            fields: vec![field("Commands", "`joke`\n`roast`\n")],
        }
    );
    assert_eq!(
        render_plain(&outcome, &options()),
        "__**Commands**__\nFun stuff\n\n**Fun**: `joke`, `roast`"
    );
}

#[test]
fn command_page_renders_in_both_styles() {
    let outcome = ResolvedOutcome::SingleCommand { command: page() };
    assert_eq!(
        render_embed(&outcome, &options()),
        Embed {
            title: Some(s("ban")),
            description: Some(s("Bans a member")),
            colour: 0x00ff00,
            fields: vec![
                field("Usage", "`mod ban <member> <reason>`"),
                field("Sample usage", "`mod ban @someone spam`\n`mod ban @other rude`\n"),
                field("Group", "Moderation"),
                field("Aliases", "`b`, `hammer`"),
                field("Available", "Only in servers"),
                field("Checks", "`Staff`"),
                field("Sub Commands", "`soft`, `hard`"),
            ],
        }
    );
    assert_eq!(
        render_plain(&outcome, &options()),
        "__**ban**__\n\
         **Aliases**: `b`, `hammer`\n\
         **Description**: Bans a member\n\
         **Usage**: `mod ban <member> <reason>`\n\
         **Sample usage**: `mod ban @someone spam`\n\
         **Sample usage**: `mod ban @other rude`\n\
         **Group**: Moderation\n\
         **Available**: Only in servers\n\
         **Checks**: `Staff`\n\
         **Sub Commands**: `soft`, `hard`\n"
    );
}

#[test]
fn bare_command_page_keeps_group_and_availability() {
    let bare = CommandView {
        name: s("ping"),
        description: None,
        usage: None,
        examples: vec![],
        group_name: s("General"),
        availability: s("In DM and servers"),
        aliases: vec![],
        checks: vec![],
        sub_commands: vec![],
    };
    let outcome = ResolvedOutcome::SingleCommand { command: bare };
    assert_eq!(
        render_embed(&outcome, &options()),
        Embed {
            title: Some(s("ping")),
            description: None,
            colour: 0x00ff00,
            fields: vec![field("Group", "General"), field("Available", "In DM and servers")],
        }
    );
    assert_eq!(
        render_plain(&outcome, &options()),
        "__**ping**__\n**Group**: General\n**Available**: In DM and servers\n"
    );
}

#[test]
fn suggestions_render_the_same_text_in_both_styles() {
    let outcome = ResolvedOutcome::Suggestions {
        intro: s("Did you mean `{}`?"),
        suggestions: vec![
            Suggestion { name: s("ping"), distance: 1 },
            Suggestion { name: s("pong"), distance: 2 },
        ],
    };
    assert_eq!(render_plain(&outcome, &options()), "Did you mean `ping`, `pong`?");
    assert_eq!(
        render_embed(&outcome, &options()),
        Embed {
            title: None,
            description: Some(s("Did you mean `ping`, `pong`?")),
            colour: 0xff0000,
            fields: vec![],
        }
    );
}

#[test]
fn no_match_renders_its_message_in_both_styles() {
    let outcome = ResolvedOutcome::NoMatch { message: s("**Error**: No help available.") };
    assert_eq!(render_plain(&outcome, &options()), "**Error**: No help available.");
    assert_eq!(
        render_embed(&outcome, &options()),
        Embed {
            title: None,
            description: Some(s("**Error**: No help available.")),
            colour: 0xff0000,
            fields: vec![],
        }
    );
}

#[test]
fn render_picks_the_style() {
    let outcome = ResolvedOutcome::NoMatch { message: s("nothing") };
    assert_eq!(render(&outcome, Style::PlainText, &options()), Payload::Text(s("nothing")));
    match render(&outcome, Style::Embed, &options()) {
        Payload::Embed(embed) => assert_eq!(embed.description, Some(s("nothing"))),
        other => panic!("unexpected payload {:?}", other),
    }
}

fn embed_texts(embed: &Embed) -> Vec<String> {
    let mut all = vec![];
    if let Some(t) = &embed.title {
        all.push(t.clone());
    }
    if let Some(d) = &embed.description {
        all.push(d.clone());
    }
    for f in &embed.fields {
        all.push(f.name.clone());
        all.push(f.value.clone());
    }
    all
}

#[test]
fn both_styles_mention_the_same_names() {
    let listing = ResolvedOutcome::GroupListing { intro: s("Tip"), groups: nested_listing() };
    let text = render_plain(&listing, &options());
    let rich = embed_texts(&render_embed(&listing, &options()));
    for name in
        ["General", "Inner", "Deep", "Dagpi", "`ping`", "~~`quit`~~", "`a`", "`b`", "`c`", "`status`"]
    {
        assert!(text.contains(name), "plain text lacks {}", name);
        assert!(rich.iter().any(|t| t.contains(name)), "payload lacks {}", name);
    }
    let single = ResolvedOutcome::SingleCommand { command: page() };
    let text = render_plain(&single, &options());
    let rich = embed_texts(&render_embed(&single, &options()));
    for name in ["ban", "Moderation", "b", "hammer", "Staff", "soft", "hard"] {
        assert!(text.contains(name), "plain text lacks {}", name);
        assert!(rich.iter().any(|t| t.contains(name)), "payload lacks {}", name);
    }
}

fn open_constraints() -> Constraints {
    Constraints {
        help_available: true,
        scope: Scope::Any,
        owners_only: false,
        owner_privilege: false,
        required_permissions: 0,
        allowed_roles: vec![],
    }
}

fn tree() -> Vec<GroupSpec> {
    let ping = CommandSpec {
        name: s("ping"),
        aliases: vec![],
        description: Some(s("Pong!")),
        usage: None,
        examples: vec![],
        constraints: open_constraints(),
        checks: vec![],
        sub_commands: vec![],
    };
    vec![GroupSpec {
        name: s("General"),
        prefixes: vec![],
        description: Some(s("Get info")),
        commands: vec![ping],
        sub_groups: vec![],
        constraints: open_constraints(),
        checks: vec![],
    }]
}

fn caller() -> CallerContext {
    CallerContext {
        author: 1,
        is_owner: false,
        channel: Channel::Guild { permissions: 0, roles: Some(vec![]) },
        failed_checks: vec![],
    }
}

#[test]
fn help_request_is_answered_with_a_payload() {
    let embed = with_embeds("ping", &tree(), &caller(), &options());
    assert_eq!(
        embed,
        Embed {
            title: Some(s("ping")),
            description: Some(s("Pong!")),
            colour: 0x00ff00,
            fields: vec![field("Group", "General"), field("Available", "In DM and servers")],
        }
    );
    let embed = with_embeds("pin", &tree(), &caller(), &options());
    assert_eq!(embed.description, Some(s("Did you mean `ping`?")));
    assert_eq!(embed.colour, 0xff0000);
    let embed = with_embeds("general", &tree(), &caller(), &options());
    assert_eq!(embed.title, Some(s("General Help")));
    assert_eq!(embed.description, Some(s("Get info")));
    assert_eq!(embed.fields, vec![field("Commands", "`ping`\n")]);
}

#[test]
fn help_request_is_answered_with_plain_text() {
    assert_eq!(
        plain("", &tree(), &caller(), &options()),
        "__**Commands**__\nPass a command's name for help on it.\n\n**General**: `ping`"
    );
    assert_eq!(
        plain("ping", &tree(), &caller(), &options()),
        "__**ping**__\n**Description**: Pong!\n**Group**: General\n**Available**: In DM and servers\n"
    );
    assert_eq!(plain("zzzzzzzz", &tree(), &caller(), &options()), "**Error**: No help available.");
}
