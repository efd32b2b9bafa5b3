use rdaggy::options::HelpOptions;
use rdaggy::outcome::{CommandView, GroupCommandsView, ResolvedOutcome, Suggestion};
use rdaggy::resolver::{resolve_help, sort_suggestions};
use rdaggy::tree::{CommandSpec, GroupSpec};
use rdaggy::visibility::{
    Behavior, CallerContext, Channel, CheckSpec, Constraints, FailedCheck, PolicyDefaults, Scope,
};

fn s(text: &str) -> String {
    text.to_string()
}

fn open_constraints() -> Constraints {
    Constraints {
        help_available: true,
        scope: Scope::Any,
        owners_only: false,
        owner_privilege: false,
        required_permissions: 0,
        allowed_roles: vec![],
    }
}

fn command(name: &str) -> CommandSpec {
    CommandSpec {
        name: s(name),
        aliases: vec![],
        description: None,
        usage: None,
        examples: vec![],
        constraints: open_constraints(),
        checks: vec![],
        sub_commands: vec![],
    }
}

fn group(name: &str, prefixes: &[&str], commands: Vec<CommandSpec>) -> GroupSpec {
    GroupSpec {
        name: s(name),
        prefixes: prefixes.iter().map(|p| s(p)).collect(),
        description: None,
        commands,
        sub_groups: vec![],
        constraints: open_constraints(),
        checks: vec![],
    }
}

fn options(threshold: usize) -> HelpOptions {
    HelpOptions {
        suggestion_text: s("Did you mean `{}`?"),
        no_help_available_text: s("**Error**: No help available."),
        usage_label: s("Usage"),
        usage_sample_label: s("Sample usage"),
        description_label: s("Description"),
        grouped_label: s("Group"),
        aliases_label: s("Aliases"),
        guild_only_text: s("Only in servers"),
        checks_label: s("Checks"),
        sub_commands_label: s("Sub Commands"),
        dm_only_text: s("Only in DM"),
        dm_and_guild_text: s("In DM and servers"),
        available_text: s("Available"),
        individual_command_tip: s("Pass a command's name for help on it."),
        strikethrough_commands_tip_in_dm: None,
        strikethrough_commands_tip_in_guild: None,
        group_prefix: s("Prefix"),
        policy: PolicyDefaults {
            lacking_role: Behavior::StrikeThrough,
            lacking_permissions: Behavior::Hide,
            lacking_ownership: Behavior::Hide,
            lacking_conditions: Behavior::StrikeThrough,
            wrong_channel: Behavior::Hide,
        },
        embed_error_colour: 0xff0000,
        embed_success_colour: 0x00ff00,
        max_levenshtein_distance: threshold,
        indention_prefix: s("+"),
    }
}

fn guild_caller() -> CallerContext {
    CallerContext {
        author: 7,
        is_owner: false,
        channel: Channel::Guild { permissions: 0, roles: Some(vec![]) },
        failed_checks: vec![],
    }
}

fn dm_caller() -> CallerContext {
    CallerContext { author: 7, is_owner: false, channel: Channel::Direct, failed_checks: vec![] }
}

fn no_match() -> ResolvedOutcome {
    ResolvedOutcome::NoMatch { message: s("**Error**: No help available.") }
}

fn page(name: &str, group_name: &str) -> CommandView {
    CommandView {
        name: s(name),
        description: None,
        usage: None,
        examples: vec![],
        group_name: s(group_name),
        availability: s("In DM and servers"),
        aliases: vec![],
        checks: vec![],
        sub_commands: vec![],
    }
}

#[test]
fn prefixed_command_is_found_behind_its_prefix() {
    let groups = vec![group("Moderation", &["mod"], vec![command("ban")])];
    let outcome = resolve_help("mod ban", &groups, &guild_caller(), &options(3));
    assert_eq!(outcome, ResolvedOutcome::SingleCommand { command: page("ban", "Moderation") });
}

#[test]
fn prefix_without_space_does_not_match() {
    let groups = vec![group("Moderation", &["mod"], vec![command("ban")])];
    let outcome = resolve_help("modban", &groups, &guild_caller(), &options(0));
    assert_eq!(outcome, no_match());
    let outcome = resolve_help("modban", &groups, &guild_caller(), &options(3));
    assert_eq!(
        outcome,
        ResolvedOutcome::Suggestions {
            intro: s("Did you mean `{}`?"),
            suggestions: vec![Suggestion { name: s("mod ban"), distance: 1 }],
        }
    );
}

#[test]
fn prefixed_command_needs_its_prefix() {
    let groups = vec![group("Moderation", &["mod"], vec![command("ban")])];
    let outcome = resolve_help("ban", &groups, &guild_caller(), &options(0));
    assert_eq!(outcome, no_match());
}

#[test]
fn near_miss_is_suggested() {
    let groups = vec![group("General", &[], vec![command("ping")])];
    let outcome = resolve_help("pign", &groups, &guild_caller(), &options(3));
    assert_eq!(
        outcome,
        ResolvedOutcome::Suggestions {
            intro: s("Did you mean `{}`?"),
            suggestions: vec![Suggestion { name: s("ping"), distance: 2 }],
        }
    );
}

#[test]
fn far_miss_is_no_match() {
    let groups = vec![group("General", &[], vec![command("ping")])];
    let outcome = resolve_help("xyzxyz", &groups, &guild_caller(), &options(3));
    assert_eq!(outcome, no_match());
}

#[test]
fn threshold_zero_turns_suggestions_off() {
    let groups = vec![group("General", &[], vec![command("ping")])];
    let outcome = resolve_help("pign", &groups, &guild_caller(), &options(0));
    assert_eq!(outcome, no_match());
}

#[test]
fn empty_query_lists_visible_group() {
    let groups = vec![group("General", &[], vec![command("ping"), command("uptime")])];
    let outcome = resolve_help("", &groups, &guild_caller(), &options(3));
    assert_eq!(
        outcome,
        ResolvedOutcome::GroupListing {
            intro: s("Pass a command's name for help on it."),
            groups: vec![GroupCommandsView {
                name: s("General"),
                prefixes: vec![],
                command_names: vec![s("`ping`"), s("`uptime`")],
                sub_groups: vec![],
            }],
        }
    );
}

#[test]
fn empty_query_with_nothing_to_list_is_no_match() {
    let groups: Vec<GroupSpec> = vec![];
    assert_eq!(resolve_help("", &groups, &guild_caller(), &options(3)), no_match());
    let mut hidden = group("General", &[], vec![command("ping")]);
    hidden.constraints.help_available = false;
    assert_eq!(resolve_help("", &vec![hidden], &guild_caller(), &options(3)), no_match());
    let blank = group("General", &[], vec![]);
    assert_eq!(resolve_help("", &vec![blank], &guild_caller(), &options(3)), no_match());
}

#[test]
fn listing_intro_carries_the_strikethrough_tip() {
    let groups = vec![group("General", &[], vec![command("ping")])];
    let mut opts = options(0);
    opts.strikethrough_commands_tip_in_dm = Some(s("Struck commands need a server."));
    opts.strikethrough_commands_tip_in_guild = Some(s("Struck commands need a role."));
    match resolve_help("", &groups, &dm_caller(), &opts) {
        ResolvedOutcome::GroupListing { intro, .. } => assert_eq!(
            intro,
            "Pass a command's name for help on it.\nStruck commands need a server."
        ),
        other => panic!("unexpected outcome {:?}", other),
    }
    match resolve_help("", &groups, &guild_caller(), &opts) {
        ResolvedOutcome::GroupListing { intro, .. } => assert_eq!(
            intro,
            "Pass a command's name for help on it.\nStruck commands need a role."
        ),
        other => panic!("unexpected outcome {:?}", other),
    }
}

#[test]
fn group_name_lists_that_group() {
    let groups = vec![
        group("General", &[], vec![command("ping")]),
        group("Fun", &[], vec![command("joke"), command("roast")]),
    ];
    let outcome = resolve_help("Fun", &groups, &guild_caller(), &options(0));
    assert_eq!(
        outcome,
        ResolvedOutcome::GroupListing {
            intro: s(""),
            groups: vec![GroupCommandsView {
                name: s("Fun"),
                prefixes: vec![],
                command_names: vec![s("`joke`"), s("`roast`")],
                sub_groups: vec![],
            }],
        }
    );
}

#[test]
fn group_name_is_matched_without_regard_to_case() {
    let mut fun = group("Fun", &[], vec![command("joke")]);
    fun.description = Some(s("Fun stuff"));
    let groups = vec![fun];
    for query in ["fun", "FUN", "fUn"] {
        match resolve_help(query, &groups, &guild_caller(), &options(0)) {
            ResolvedOutcome::GroupListing { intro, groups } => {
                assert_eq!(intro, "Fun stuff");
                assert_eq!(groups.len(), 1);
                assert_eq!(groups[0].name, "Fun");
            }
            other => panic!("unexpected outcome {:?}", other),
        }
    }
}

#[test]
fn command_names_are_matched_with_regard_to_case() {
    let groups = vec![group("General", &[], vec![command("ping")])];
    assert_eq!(resolve_help("PING", &groups, &guild_caller(), &options(0)), no_match());
}

#[test]
fn prefix_alone_lists_the_group() {
    let groups = vec![group("Dagpi", &["dagpi"], vec![command("status")])];
    let outcome = resolve_help("dagpi", &groups, &guild_caller(), &options(0));
    assert_eq!(
        outcome,
        ResolvedOutcome::GroupListing {
            intro: s(""),
            groups: vec![GroupCommandsView {
                name: s("Dagpi"),
                prefixes: vec![s("dagpi")],
                command_names: vec![s("`status`")],
                sub_groups: vec![],
            }],
        }
    );
}

#[test]
fn group_without_visible_command_is_not_listed_by_name() {
    let mut hidden = command("secret");
    hidden.constraints.help_available = false;
    let groups = vec![group("Vault", &[], vec![hidden])];
    assert_eq!(resolve_help("Vault", &groups, &guild_caller(), &options(0)), no_match());
}

#[test]
fn hidden_command_is_never_returned_nor_listed() {
    let mut hidden = command("secret");
    hidden.constraints.help_available = false;
    let groups = vec![group("General", &[], vec![hidden, command("ping")])];
    assert_eq!(resolve_help("secret", &groups, &guild_caller(), &options(3)), no_match());
    match resolve_help("", &groups, &guild_caller(), &options(3)) {
        ResolvedOutcome::GroupListing { groups, .. } => {
            assert_eq!(groups[0].command_names, vec![s("`ping`")]);
        }
        other => panic!("unexpected outcome {:?}", other),
    }
}

#[test]
fn denied_match_stops_the_search() {
    let mut owners = command("ping");
    owners.constraints.owners_only = true;
    let groups = vec![
        group("Owners", &[], vec![owners]),
        group("General", &[], vec![command("ping")]),
    ];
    assert_eq!(resolve_help("ping", &groups, &guild_caller(), &options(3)), no_match());
}

#[test]
fn command_in_hidden_group_is_not_found() {
    let mut hidden = group("Vault", &[], vec![command("open")]);
    hidden.constraints.help_available = false;
    assert_eq!(resolve_help("open", &vec![hidden], &guild_caller(), &options(3)), no_match());
}

#[test]
fn first_match_wins() {
    let mut first = command("ping");
    first.description = Some(s("first"));
    let mut second = command("ping");
    second.description = Some(s("second"));
    let groups =
        vec![group("One", &[], vec![first]), group("Two", &[], vec![second])];
    match resolve_help("ping", &groups, &guild_caller(), &options(0)) {
        ResolvedOutcome::SingleCommand { command } => {
            assert_eq!(command.description, Some(s("first")));
            assert_eq!(command.group_name, "One");
        }
        other => panic!("unexpected outcome {:?}", other),
    }
}

#[test]
fn alias_finds_the_command() {
    let mut kick = command("kick");
    kick.aliases = vec![s("ki"), s("yeet")];
    let groups = vec![group("Moderation", &[], vec![kick])];
    match resolve_help("yeet", &groups, &guild_caller(), &options(0)) {
        ResolvedOutcome::SingleCommand { command } => {
            assert_eq!(command.name, "kick");
            assert_eq!(command.aliases, vec![s("ki"), s("yeet")]);
        }
        other => panic!("unexpected outcome {:?}", other),
    }
}

#[test]
fn group_name_in_front_is_taken_from_the_query() {
    let groups = vec![group("General", &[], vec![command("ping")])];
    match resolve_help("General ping", &groups, &guild_caller(), &options(0)) {
        ResolvedOutcome::SingleCommand { command } => assert_eq!(command.name, "ping"),
        other => panic!("unexpected outcome {:?}", other),
    }
}

#[test]
fn nested_group_is_searched_with_what_is_left() {
    let mut outer = group("Outer", &["a"], vec![]);
    outer.sub_groups = vec![group("Inner", &["b"], vec![command("c")])];
    let groups = vec![outer];
    match resolve_help("a b c", &groups, &guild_caller(), &options(0)) {
        ResolvedOutcome::SingleCommand { command } => {
            assert_eq!(command.name, "c");
            assert_eq!(command.group_name, "Inner");
        }
        other => panic!("unexpected outcome {:?}", other),
    }
    match resolve_help("a c", &groups, &guild_caller(), &options(0)) {
        ResolvedOutcome::SingleCommand { command } => assert_eq!(command.name, "c"),
        other => panic!("unexpected outcome {:?}", other),
    }
    match resolve_help("b c", &groups, &guild_caller(), &options(0)) {
        ResolvedOutcome::SingleCommand { command } => assert_eq!(command.name, "c"),
        other => panic!("unexpected outcome {:?}", other),
    }
    assert_eq!(resolve_help("c", &groups, &guild_caller(), &options(0)), no_match());
}

#[test]
fn page_carries_usage_examples_checks_and_availability() {
    let mut ban = command("ban");
    ban.description = Some(s("Bans a member"));
    ban.usage = Some(s("<member> <reason>"));
    ban.examples = vec![s("@someone spam"), s("@other rude")];
    ban.constraints.scope = Scope::Guild;
    ban.sub_commands = vec![s("soft")];
    ban.checks = vec![
        CheckSpec { name: s("Seen"), display_in_help: true, check_in_help: false },
        CheckSpec { name: s("Unseen"), display_in_help: false, check_in_help: false },
    ];
    let mut moderation = group("Moderation", &["mod", "m"], vec![ban]);
    moderation.checks =
        vec![CheckSpec { name: s("Staff"), display_in_help: true, check_in_help: true }];
    let outcome = resolve_help("m ban", &vec![moderation], &guild_caller(), &options(0));
    assert_eq!(
        outcome,
        ResolvedOutcome::SingleCommand {
            command: CommandView {
                name: s("ban"),
                description: Some(s("Bans a member")),
                usage: Some(s("mod ban <member> <reason>")),
                examples: vec![s("mod ban @someone spam"), s("mod ban @other rude")],
                group_name: s("Moderation"),
                availability: s("Only in servers"),
                aliases: vec![],
                checks: vec![s("Seen"), s("Staff")],
                sub_commands: vec![s("soft")],
            }
        }
    );
}

#[test]
fn availability_puts_direct_messages_first() {
    let mut cmd = command("whisper");
    cmd.constraints.scope = Scope::Guild;
    let mut grp = group("Private", &[], vec![cmd]);
    grp.constraints.scope = Scope::Dm;
    let mut caller = dm_caller();
    caller.is_owner = true;
    let mut opts = options(0);
    opts.policy.wrong_channel = Behavior::Show;
    match resolve_help("whisper", &vec![grp], &caller, &opts) {
        ResolvedOutcome::SingleCommand { command } => {
            assert_eq!(command.availability, "Only in DM")
        }
        other => panic!("unexpected outcome {:?}", other),
    }
}

#[test]
fn struck_commands_are_listed_struck() {
    let mut staff = command("ban");
    staff.constraints.allowed_roles = vec![s("Staff")];
    let groups = vec![group("Moderation", &[], vec![staff, command("report")])];
    match resolve_help("", &groups, &guild_caller(), &options(0)) {
        ResolvedOutcome::GroupListing { groups, .. } => {
            assert_eq!(groups[0].command_names, vec![s("~~`ban`~~"), s("`report`")]);
        }
        other => panic!("unexpected outcome {:?}", other),
    }
}

#[test]
fn struck_command_is_not_suggested_nor_shown() {
    let mut staff = command("ban");
    staff.constraints.allowed_roles = vec![s("Staff")];
    let groups = vec![group("Moderation", &[], vec![staff])];
    assert_eq!(resolve_help("ban", &groups, &guild_caller(), &options(3)), no_match());
    assert_eq!(resolve_help("bam", &groups, &guild_caller(), &options(3)), no_match());
}

#[test]
fn nested_groups_are_listed_inside_their_parent() {
    let mut outer = group("Outer", &[], vec![command("a")]);
    let mut hidden = group("Hidden", &[], vec![command("h")]);
    hidden.constraints.help_available = false;
    outer.sub_groups =
        vec![group("Inner", &["in"], vec![command("b")]), hidden, group("Blank", &[], vec![])];
    match resolve_help("", &vec![outer], &guild_caller(), &options(0)) {
        ResolvedOutcome::GroupListing { groups, .. } => {
            assert_eq!(
                groups,
                vec![GroupCommandsView {
                    name: s("Outer"),
                    prefixes: vec![],
                    command_names: vec![s("`a`")],
                    sub_groups: vec![GroupCommandsView {
                        name: s("Inner"),
                        prefixes: vec![s("in")],
                        command_names: vec![s("`b`")],
                        sub_groups: vec![],
                    }],
                }]
            );
        }
        other => panic!("unexpected outcome {:?}", other),
    }
}

#[test]
fn suggestions_come_nearest_first_and_stable() {
    let groups = vec![group(
        "General",
        &[],
        vec![command("pong"), command("ping"), command("pin"), command("pang")],
    )];
    match resolve_help("pinx", &groups, &guild_caller(), &options(2)) {
        ResolvedOutcome::Suggestions { suggestions, .. } => {
            assert_eq!(
                suggestions,
                vec![
                    Suggestion { name: s("ping"), distance: 1 },
                    Suggestion { name: s("pin"), distance: 1 },
                    Suggestion { name: s("pong"), distance: 2 },
                    Suggestion { name: s("pang"), distance: 2 },
                ]
            );
        }
        other => panic!("unexpected outcome {:?}", other),
    }
}

#[test]
fn sorting_keeps_the_order_of_equals() {
    let found = vec![
        Suggestion { name: s("c"), distance: 3 },
        Suggestion { name: s("a"), distance: 1 },
        Suggestion { name: s("d"), distance: 3 },
        Suggestion { name: s("b"), distance: 1 },
        Suggestion { name: s("e"), distance: 2 },
    ];
    let sorted = sort_suggestions(&found);
    let names: Vec<&str> = sorted.iter().map(|x| x.name.as_str()).collect();
    assert_eq!(names, vec!["a", "b", "e", "c", "d"]);
    assert_eq!(sort_suggestions(&vec![]), vec![]);
}

#[test]
fn suggestions_go_before_group_names() {
    let groups = vec![group("pong", &[], vec![command("ping")])];
    match resolve_help("pong", &groups, &guild_caller(), &options(3)) {
        ResolvedOutcome::Suggestions { suggestions, .. } => {
            assert_eq!(suggestions, vec![Suggestion { name: s("ping"), distance: 1 }]);
        }
        other => panic!("unexpected outcome {:?}", other),
    }
}

#[test]
fn group_path_reaches_a_nested_group() {
    let mut outer = group("Outer", &[], vec![command("a")]);
    outer.sub_groups = vec![group("Inner", &[], vec![command("b")])];
    let groups = vec![outer];
    match resolve_help("outer inner", &groups, &guild_caller(), &options(0)) {
        ResolvedOutcome::GroupListing { groups, .. } => assert_eq!(groups[0].name, "Inner"),
        other => panic!("unexpected outcome {:?}", other),
    }
    match resolve_help("inner", &groups, &guild_caller(), &options(0)) {
        ResolvedOutcome::GroupListing { groups, .. } => assert_eq!(groups[0].name, "Inner"),
        other => panic!("unexpected outcome {:?}", other),
    }
}

#[test]
fn check_failing_for_one_command_leaves_the_others() {
    let gate = CheckSpec { name: s("Gate"), display_in_help: true, check_in_help: true };
    let mut first = command("first");
    first.checks = vec![gate.clone()];
    let mut second = command("second");
    second.checks = vec![gate];
    let groups = vec![group("General", &[], vec![first, second])];
    let mut caller = guild_caller();
    caller.failed_checks = vec![FailedCheck { check: s("Gate"), command: s("first") }];
    match resolve_help("", &groups, &caller, &options(0)) {
        ResolvedOutcome::GroupListing { groups, .. } => {
            assert_eq!(groups[0].command_names, vec![s("~~`first`~~"), s("`second`")]);
        }
        other => panic!("unexpected outcome {:?}", other),
    }
    assert_eq!(resolve_help("first", &groups, &caller, &options(0)), no_match());
    match resolve_help("second", &groups, &caller, &options(0)) {
        ResolvedOutcome::SingleCommand { command } => assert_eq!(command.name, "second"),
        other => panic!("unexpected outcome {:?}", other),
    }
}

#[test]
fn inherited_check_counts_for_the_command_it_failed_for() {
    let gate = CheckSpec { name: s("Gate"), display_in_help: false, check_in_help: true };
    let mut grp = group("General", &[], vec![command("first"), command("second")]);
    grp.checks = vec![gate];
    let mut caller = guild_caller();
    caller.failed_checks = vec![FailedCheck { check: s("Gate"), command: s("second") }];
    match resolve_help("", &vec![grp], &caller, &options(0)) {
        ResolvedOutcome::GroupListing { groups, .. } => {
            assert_eq!(groups[0].command_names, vec![s("`first`"), s("~~`second`~~")]);
        }
        other => panic!("unexpected outcome {:?}", other),
    }
}

#[test]
fn threshold_zero_never_suggests() {
    let groups = vec![group("General", &[], vec![command("ping"), command("pong")])];
    for query in ["pin", "ping ", "pon", "p", "General ping x"] {
        let outcome = resolve_help(query, &groups, &guild_caller(), &options(0));
        assert!(!matches!(outcome, ResolvedOutcome::Suggestions { .. }), "{:?}", outcome);
    }
}
