use rdaggy::visibility::{
    evaluate, evaluate_command, Behavior, CallerContext, Channel, CheckSpec, Constraints,
    FailedCheck, PolicyDefaults, Scope, ADMINISTRATOR,
};

fn s(text: &str) -> String {
    text.to_string()
}

fn open_constraints() -> Constraints {
    Constraints {
        help_available: true,
        scope: Scope::Any,
        owners_only: false,
        owner_privilege: false,
        required_permissions: 0,
        allowed_roles: vec![],
    }
}

// Each default differs from `Show` and from the others where it can, so that
// a test tells the rules apart.
fn defaults() -> PolicyDefaults {
    PolicyDefaults {
        lacking_role: Behavior::StrikeThrough,
        lacking_permissions: Behavior::Hide,
        lacking_ownership: Behavior::Hide,
        lacking_conditions: Behavior::StrikeThrough,
        wrong_channel: Behavior::StrikeThrough,
    }
}

fn guild(permissions: u64, roles: &[&str]) -> CallerContext {
    CallerContext {
        author: 1,
        is_owner: false,
        channel: Channel::Guild {
            permissions,
            roles: Some(roles.iter().map(|r| s(r)).collect()),
        },
        failed_checks: vec![],
    }
}

fn failed(check: &str, command: &str) -> FailedCheck {
    FailedCheck { check: s(check), command: s(command) }
}

fn direct() -> CallerContext {
    CallerContext { author: 1, is_owner: false, channel: Channel::Direct, failed_checks: vec![] }
}

const KICK: u64 = 0x2;
const BAN: u64 = 0x4;

#[test]
fn unconstrained_entry_is_shown() {
    assert_eq!(evaluate(&open_constraints(), &guild(0, &[]), &defaults()), Behavior::Show);
    assert_eq!(evaluate(&open_constraints(), &direct(), &defaults()), Behavior::Show);
}

#[test]
fn help_unavailable_hides_before_anything_else() {
    let mut c = open_constraints();
    c.help_available = false;
    c.owner_privilege = true;
    let mut owner = guild(ADMINISTRATOR, &[]);
    owner.is_owner = true;
    let mut all_show = defaults();
    all_show.wrong_channel = Behavior::Show;
    assert_eq!(evaluate(&c, &owner, &all_show), Behavior::Hide);
}

#[test]
fn wrong_channel_comes_second() {
    let mut c = open_constraints();
    c.scope = Scope::Dm;
    c.owners_only = true;
    assert_eq!(evaluate(&c, &guild(0, &[]), &defaults()), Behavior::StrikeThrough);
    c.scope = Scope::Guild;
    assert_eq!(evaluate(&c, &direct(), &defaults()), Behavior::StrikeThrough);
    c.owners_only = false;
    assert_eq!(evaluate(&c, &guild(0, &[]), &defaults()), Behavior::Show);
    c.scope = Scope::Dm;
    assert_eq!(evaluate(&c, &direct(), &defaults()), Behavior::Show);
}

#[test]
fn ownership_comes_third() {
    let mut c = open_constraints();
    c.owners_only = true;
    c.required_permissions = KICK;
    let mut d = defaults();
    d.lacking_ownership = Behavior::StrikeThrough;
    d.lacking_permissions = Behavior::Hide;
    assert_eq!(evaluate(&c, &guild(0, &[]), &d), Behavior::StrikeThrough);
    let mut owner = guild(KICK, &[]);
    owner.is_owner = true;
    assert_eq!(evaluate(&c, &owner, &d), Behavior::Show);
}

#[test]
fn owner_privilege_passes_permissions_roles_and_checks() {
    let mut c = open_constraints();
    c.owner_privilege = true;
    c.required_permissions = KICK;
    c.allowed_roles = vec![s("Staff")];
    let mut owner = guild(0, &[]);
    owner.is_owner = true;
    owner.failed_checks = vec![failed("Gate", "cmd")];
    let checks = vec![CheckSpec { name: s("Gate"), display_in_help: true, check_in_help: true }];
    assert_eq!(evaluate(&c, &owner, &defaults()), Behavior::Show);
    assert_eq!(evaluate_command(&c, "cmd", &checks, &checks, &owner, &defaults()), Behavior::Show);
    let mut other = guild(0, &[]);
    other.failed_checks = vec![failed("Gate", "cmd")];
    assert_eq!(evaluate(&c, &other, &defaults()), Behavior::Hide);
}

#[test]
fn missing_permission_comes_before_missing_role() {
    let mut c = open_constraints();
    c.required_permissions = KICK | BAN;
    c.allowed_roles = vec![s("Staff")];
    assert_eq!(evaluate(&c, &guild(KICK, &[]), &defaults()), Behavior::Hide);
    assert_eq!(evaluate(&c, &guild(KICK | BAN, &[]), &defaults()), Behavior::StrikeThrough);
    assert_eq!(evaluate(&c, &guild(KICK | BAN | 0x100, &["Staff"]), &defaults()), Behavior::Show);
}

#[test]
fn administrator_satisfies_permissions_and_roles() {
    let mut c = open_constraints();
    c.required_permissions = KICK | BAN;
    c.allowed_roles = vec![s("Staff")];
    assert_eq!(evaluate(&c, &guild(ADMINISTRATOR, &[]), &defaults()), Behavior::Show);
}

#[test]
fn any_one_allowed_role_is_enough() {
    let mut c = open_constraints();
    c.allowed_roles = vec![s("Staff"), s("Helper")];
    assert_eq!(evaluate(&c, &guild(0, &["Member", "Helper"]), &defaults()), Behavior::Show);
    assert_eq!(evaluate(&c, &guild(0, &["Member"]), &defaults()), Behavior::StrikeThrough);
    assert_eq!(evaluate(&c, &guild(0, &["staff"]), &defaults()), Behavior::StrikeThrough);
}

#[test]
fn direct_message_holds_no_permissions_and_is_not_held_to_roles() {
    let mut c = open_constraints();
    c.allowed_roles = vec![s("Staff")];
    assert_eq!(evaluate(&c, &direct(), &defaults()), Behavior::Show);
    c.required_permissions = KICK;
    assert_eq!(evaluate(&c, &direct(), &defaults()), Behavior::Hide);
}

#[test]
fn failing_check_gives_lacking_conditions() {
    let c = open_constraints();
    let gate = CheckSpec { name: s("Gate"), display_in_help: true, check_in_help: true };
    let quiet = CheckSpec { name: s("Quiet"), display_in_help: true, check_in_help: false };
    let mut caller = guild(0, &[]);
    caller.failed_checks = vec![failed("Gate", "cmd"), failed("Quiet", "cmd")];
    let none: Vec<CheckSpec> = vec![];
    let d = defaults();
    assert_eq!(evaluate_command(&c, "cmd", &vec![gate.clone()], &none, &caller, &d), Behavior::StrikeThrough);
    assert_eq!(evaluate_command(&c, "cmd", &none, &vec![gate.clone()], &caller, &d), Behavior::StrikeThrough);
    assert_eq!(evaluate_command(&c, "cmd", &vec![quiet.clone()], &vec![quiet], &caller, &d), Behavior::Show);
    assert_eq!(evaluate_command(&c, "cmd", &none, &none, &caller, &d), Behavior::Show);
    caller.failed_checks = vec![];
    assert_eq!(evaluate_command(&c, "cmd", &vec![gate], &none, &caller, &d), Behavior::Show);
}

#[test]
fn checks_count_only_after_the_common_rules_show() {
    let mut c = open_constraints();
    c.required_permissions = KICK;
    let gate = CheckSpec { name: s("Gate"), display_in_help: true, check_in_help: true };
    let mut caller = guild(0, &[]);
    caller.failed_checks = vec![failed("Gate", "cmd")];
    let none: Vec<CheckSpec> = vec![];
    assert_eq!(evaluate_command(&c, "cmd", &vec![gate], &none, &caller, &defaults()), Behavior::Hide);
}

#[test]
fn check_counts_only_for_the_command_it_failed_for() {
    let c = open_constraints();
    let gate = CheckSpec { name: s("Gate"), display_in_help: true, check_in_help: true };
    let none: Vec<CheckSpec> = vec![];
    let mut caller = guild(0, &[]);
    caller.failed_checks = vec![failed("Gate", "first"), failed("Other", "second")];
    let d = defaults();
    assert_eq!(
        evaluate_command(&c, "first", &vec![gate.clone()], &none, &caller, &d),
        Behavior::StrikeThrough
    );
    assert_eq!(evaluate_command(&c, "second", &vec![gate.clone()], &none, &caller, &d), Behavior::Show);
    assert_eq!(evaluate_command(&c, "Gate", &vec![gate], &none, &caller, &d), Behavior::Show);
}

#[test]
fn unknown_membership_is_not_held_to_roles() {
    let mut c = open_constraints();
    c.allowed_roles = vec![s("Staff")];
    let mut caller = guild(0, &[]);
    caller.channel = Channel::Guild { permissions: 0, roles: None };
    assert_eq!(evaluate(&c, &caller, &defaults()), Behavior::Show);
    c.required_permissions = KICK;
    assert_eq!(evaluate(&c, &caller, &defaults()), Behavior::Hide);
    c.scope = Scope::Dm;
    assert_eq!(evaluate(&c, &caller, &defaults()), Behavior::StrikeThrough);
}
