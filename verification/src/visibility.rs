//! The visibility policy: how a command or a group is presented to a caller.

use vstd::prelude::*;
use crate::text::{chars_of, contains_text, same_chars, texts};

verus! {

/// The permission bit that satisfies every permission and role requirement.
pub const ADMINISTRATOR: u64 = 0x8;

/// How an entry is presented in help output.
#[derive(Clone, Copy, Debug, PartialEq, Eq, Structural)]
pub enum Behavior {
    /// Listed as it is.
    Show,
    /// Listed, struck through.
    StrikeThrough,
    /// Left out.
    Hide,
}

/// Where a command or group may be used.
#[derive(Clone, Copy, Debug, PartialEq, Eq, Structural)]
pub enum Scope {
    /// In direct messages only.
    Dm,
    /// In guild channels only.
    Guild,
    /// Anywhere.
    Any,
}

/// What a command or a group demands of a caller.
#[derive(Clone, Debug, PartialEq, Eq)]
pub struct Constraints {
    /// Whether help may show the entry at all.
    pub help_available: bool,
    /// The kind of channel the entry is restricted to.
    pub scope: Scope,
    /// Whether only owners may use the entry.
    pub owners_only: bool,
    /// Whether owners pass the permission, role and check requirements unasked.
    pub owner_privilege: bool,
    /// The permissions a caller needs, as a bit set.
    pub required_permissions: u64,
    /// The role names of which a caller needs at least one; empty for none.
    pub allowed_roles: Vec<String>,
}

/// The mathematical model of [`Constraints`].
pub ghost struct ConstraintsModel {
    pub help_available: bool,
    pub scope: Scope,
    pub owners_only: bool,
    pub owner_privilege: bool,
    pub required_permissions: u64,
    pub allowed_roles: Seq<Seq<char>>,
}

impl View for Constraints {
    type V = ConstraintsModel;

    open spec fn view(&self) -> ConstraintsModel {
        ConstraintsModel {
            help_available: self.help_available,
            scope: self.scope,
            owners_only: self.owners_only,
            owner_privilege: self.owner_privilege,
            required_permissions: self.required_permissions,
            allowed_roles: texts(self.allowed_roles@),
        }
    }
}

/// The channel a help request came from, with what is known of the caller
/// there.
#[derive(Clone, Debug, PartialEq, Eq)]
pub enum Channel {
    /// A direct message: the caller has no guild permissions or roles.
    Direct,
    /// A guild channel.
    Guild {
        /// The caller's resolved permissions, as a bit set.
        permissions: u64,
        /// The names of the roles the caller holds, where the caller's
        /// membership is known.
        roles: Option<Vec<String>>,
    },
}

/// The mathematical model of [`Channel`].
pub ghost enum ChannelModel {
    Direct,
    Guild { permissions: u64, roles: Option<Seq<Seq<char>>> },
}

impl View for Channel {
    type V = ChannelModel;

    open spec fn view(&self) -> ChannelModel {
        match self {
            Channel::Direct => ChannelModel::Direct,
            Channel::Guild { permissions, roles } => ChannelModel::Guild {
                permissions: *permissions,
                roles: match roles {
                    Some(held) => Some(texts(held@)),
                    None => None,
                },
            },
        }
    }
}

/// A check that did not pass when it was run for a command.
#[derive(Clone, Debug, PartialEq, Eq)]
pub struct FailedCheck {
    /// The name of the check.
    pub check: String,
    /// The primary name of the command for which the check was run.
    pub command: String,
}

/// The mathematical model of [`FailedCheck`].
pub ghost struct FailedCheckModel {
    pub check: Seq<char>,
    pub command: Seq<char>,
}

impl View for FailedCheck {
    type V = FailedCheckModel;

    open spec fn view(&self) -> FailedCheckModel {
        FailedCheckModel { check: self.check@, command: self.command@ }
    }
}

/// The models of a sequence of failed checks.
pub open spec fn failed_models(v: Seq<FailedCheck>) -> Seq<FailedCheckModel> {
    v.map_values(|f: FailedCheck| f@)
}

/// Who asks for help, and from where.
#[derive(Clone, Debug, PartialEq, Eq)]
pub struct CallerContext {
    /// The author's identifier.
    pub author: u64,
    /// Whether the author is a registered owner.
    pub is_owner: bool,
    /// The channel of the request.
    pub channel: Channel,
    /// The checks that do not pass for this caller, each with the command
    /// for which it was run.
    pub failed_checks: Vec<FailedCheck>,
}

/// The mathematical model of [`CallerContext`].
pub ghost struct CallerModel {
    pub author: u64,
    pub is_owner: bool,
    pub channel: ChannelModel,
    pub failed_checks: Seq<FailedCheckModel>,
}

impl View for CallerContext {
    type V = CallerModel;

    open spec fn view(&self) -> CallerModel {
        CallerModel {
            author: self.author,
            is_owner: self.is_owner,
            channel: self.channel@,
            failed_checks: failed_models(self.failed_checks@),
        }
    }
}

/// The behaviour configured for each way in which a caller can fall short.
#[derive(Clone, Copy, Debug, PartialEq, Eq)]
pub struct PolicyDefaults {
    /// The caller holds none of the allowed roles.
    pub lacking_role: Behavior,
    /// The caller lacks a required permission.
    pub lacking_permissions: Behavior,
    /// The entry is for owners and the caller is none.
    pub lacking_ownership: Behavior,
    /// A check does not pass.
    pub lacking_conditions: Behavior,
    /// The request came from the wrong kind of channel.
    pub wrong_channel: Behavior,
}

/// A named predicate on the caller that a command or a group carries.
#[derive(Clone, Debug, PartialEq, Eq)]
pub struct CheckSpec {
    /// The name under which the check is shown and looked up.
    pub name: String,
    /// Whether help names the check on the command's page.
    pub display_in_help: bool,
    /// Whether the check counts when help decides on visibility.
    pub check_in_help: bool,
}

/// The mathematical model of [`CheckSpec`].
pub ghost struct CheckModel {
    pub name: Seq<char>,
    pub display_in_help: bool,
    pub check_in_help: bool,
}

impl View for CheckSpec {
    type V = CheckModel;

    open spec fn view(&self) -> CheckModel {
        CheckModel {
            name: self.name@,
            display_in_help: self.display_in_help,
            check_in_help: self.check_in_help,
        }
    }
}

/// The models of a sequence of checks.
pub open spec fn check_models(v: Seq<CheckSpec>) -> Seq<CheckModel> {
    v.map_values(|c: CheckSpec| c@)
}

/// The request came from a channel that `scope` leaves out.
pub open spec fn is_wrong_channel(scope: Scope, channel: ChannelModel) -> bool {
    match scope {
        Scope::Dm => channel is Guild,
        Scope::Guild => channel is Direct,
        Scope::Any => false,
    }
}

/// The caller holds every permission in `required`. An administrator holds
/// them all; in a direct message only the empty set is held.
pub open spec fn has_permissions(required: u64, channel: ChannelModel) -> bool {
    required == 0 || match channel {
        ChannelModel::Direct => false,
        ChannelModel::Guild { permissions, .. } => (permissions & ADMINISTRATOR) != 0 || (
        permissions & required) == required,
    }
}

/// Some name in `allowed` is among `held`.
pub open spec fn holds_any_role(allowed: Seq<Seq<char>>, held: Seq<Seq<char>>) -> bool {
    exists|i: int| 0 <= i < allowed.len() && held.contains(#[trigger] allowed[i])
}

/// The caller meets the role requirement: none is set, or the caller is an
/// administrator, or holds one of the allowed roles. Roles exist in guilds
/// only, so a direct message is not held to them; nor is a caller whose
/// membership is not known.
pub open spec fn has_roles(allowed: Seq<Seq<char>>, channel: ChannelModel) -> bool {
    allowed.len() == 0 || match channel {
        ChannelModel::Direct => true,
        ChannelModel::Guild { permissions, roles } => (permissions & ADMINISTRATOR) != 0
            || match roles {
            Some(held) => holds_any_role(allowed, held),
            None => true,
        },
    }
}

/// The policy: the first rule that applies decides.
pub open spec fn evaluate_spec(
    constraints: ConstraintsModel,
    caller: CallerModel,
    defaults: PolicyDefaults,
) -> Behavior {
    if !constraints.help_available {
        Behavior::Hide
    } else if is_wrong_channel(constraints.scope, caller.channel) {
        defaults.wrong_channel
    } else if constraints.owners_only && !caller.is_owner {
        defaults.lacking_ownership
    } else if constraints.owner_privilege && caller.is_owner {
        Behavior::Show
    } else if !has_permissions(constraints.required_permissions, caller.channel) {
        defaults.lacking_permissions
    } else if !has_roles(constraints.allowed_roles, caller.channel) {
        defaults.lacking_role
    } else {
        Behavior::Show
    }
}

/// Some check in `checks` that counts for help is among those that `failed`
/// for the command named `command`.
pub open spec fn fails_a_check(
    checks: Seq<CheckModel>,
    failed: Seq<FailedCheckModel>,
    command: Seq<char>,
) -> bool {
    exists|i: int|
        0 <= i < checks.len() && (#[trigger] checks[i]).check_in_help && failed.contains(
            FailedCheckModel { check: checks[i].name, command },
        )
}

/// The policy for the command named `name`: the common rules, then the
/// checks of the command and those it inherits from its group. An owner with
/// owner privilege is not held to the checks.
pub open spec fn evaluate_command_spec(
    constraints: ConstraintsModel,
    name: Seq<char>,
    own_checks: Seq<CheckModel>,
    group_checks: Seq<CheckModel>,
    caller: CallerModel,
    defaults: PolicyDefaults,
) -> Behavior {
    let common = evaluate_spec(constraints, caller, defaults);
    if common == Behavior::Show && !(constraints.owner_privilege && caller.is_owner) && (
    fails_a_check(group_checks, caller.failed_checks, name) || fails_a_check(
        own_checks,
        caller.failed_checks,
        name,
    )) {
        defaults.lacking_conditions
    } else {
        common
    }
}

/// Whether the caller holds one of the roles named in `allowed`.
fn any_role_held(allowed: &Vec<String>, held: &Vec<String>) -> (r: bool)
    ensures
        r == holds_any_role(texts(allowed@), texts(held@)),
{
    let mut i: usize = 0;
    while i < allowed.len()
        invariant
            i <= allowed.len(),
            forall|k: int| 0 <= k < i ==> !texts(held@).contains(#[trigger] texts(allowed@)[k]),
        decreases allowed.len() - i,
    {
        let name = chars_of(allowed[i].as_str());
        if contains_text(held, &name) {
            assert(texts(held@).contains(texts(allowed@)[i as int]));
            return true;
        }
        i += 1;
    }
    false
}

/// Decides how an entry with `constraints` is presented to `caller`.
pub fn evaluate(constraints: &Constraints, caller: &CallerContext, defaults: &PolicyDefaults) -> (b:
    Behavior)
    ensures
        b == evaluate_spec(constraints@, caller@, *defaults),
{
    if !constraints.help_available {
        return Behavior::Hide;
    }
    let wrong = match (constraints.scope, &caller.channel) {
        (Scope::Dm, Channel::Guild { .. }) => true,
        (Scope::Guild, Channel::Direct) => true,
        _ => false,
    };
    if wrong {
        return defaults.wrong_channel;
    }
    if constraints.owners_only && !caller.is_owner {
        return defaults.lacking_ownership;
    }
    if constraints.owner_privilege && caller.is_owner {
        return Behavior::Show;
    }
    match &caller.channel {
        Channel::Direct => {
            if constraints.required_permissions != 0 {
                defaults.lacking_permissions
            } else {
                Behavior::Show
            }
        },
        Channel::Guild { permissions, roles } => {
            let admin = (*permissions & ADMINISTRATOR) != 0;
            let required = constraints.required_permissions;
            if required != 0 && !admin && (*permissions & required) != required {
                defaults.lacking_permissions
            } else if constraints.allowed_roles.len() != 0 && !admin {
                match roles {
                    Some(held) => if any_role_held(&constraints.allowed_roles, held) {
                        Behavior::Show
                    } else {
                        defaults.lacking_role
                    },
                    None => Behavior::Show,
                }
            } else {
                Behavior::Show
            }
        },
    }
}

/// Whether the check named `check` is among those that failed for the
/// command named `command`.
fn has_failed(failed: &Vec<FailedCheck>, check: &Vec<char>, command: &Vec<char>) -> (r: bool)
    ensures
        r == failed_models(failed@).contains(
            FailedCheckModel { check: check@, command: command@ },
        ),
{
    let mut i: usize = 0;
    while i < failed.len()
        invariant
            i <= failed.len(),
            forall|k: int|
                0 <= k < i ==> failed_models(failed@)[k] != (FailedCheckModel {
                    check: check@,
                    command: command@,
                }),
        decreases failed.len() - i,
    {
        let this_check = chars_of(failed[i].check.as_str());
        let this_command = chars_of(failed[i].command.as_str());
        if same_chars(&this_check, check) && same_chars(&this_command, command) {
            assert(failed_models(failed@)[i as int] == (FailedCheckModel {
                check: check@,
                command: command@,
            }));
            return true;
        }
        i += 1;
    }
    false
}

/// Whether a check in `checks` that counts for help failed for the command
/// named `command`. Stops at the first one that did.
fn any_check_fails(checks: &Vec<CheckSpec>, failed: &Vec<FailedCheck>, command: &Vec<char>) -> (r:
    bool)
    ensures
        r == fails_a_check(check_models(checks@), failed_models(failed@), command@),
{
    let mut i: usize = 0;
    while i < checks.len()
        invariant
            i <= checks.len(),
            forall|k: int|
                0 <= k < i ==> !((#[trigger] check_models(checks@)[k]).check_in_help
                    && failed_models(failed@).contains(
                    FailedCheckModel { check: check_models(checks@)[k].name, command: command@ },
                )),
        decreases checks.len() - i,
    {
        if checks[i].check_in_help {
            let name = chars_of(checks[i].name.as_str());
            if has_failed(failed, &name, command) {
                assert(check_models(checks@)[i as int].check_in_help);
                return true;
            }
        }
        i += 1;
    }
    false
}

/// Decides how the command named `name` is presented to `caller`: by its own
/// constraints, then by its checks and those of its group.
pub fn evaluate_command(
    constraints: &Constraints,
    name: &str,
    own_checks: &Vec<CheckSpec>,
    group_checks: &Vec<CheckSpec>,
    caller: &CallerContext,
    defaults: &PolicyDefaults,
) -> (b: Behavior)
    ensures
        b == evaluate_command_spec(
            constraints@,
            name@,
            check_models(own_checks@),
            check_models(group_checks@),
            caller@,
            *defaults,
        ),
{
    let common = evaluate(constraints, caller, defaults);
    if common == Behavior::Show && !(constraints.owner_privilege && caller.is_owner) {
        let command = chars_of(name);
        if any_check_fails(group_checks, &caller.failed_checks, &command) || any_check_fails(
            own_checks,
            &caller.failed_checks,
            &command,
        ) {
            return defaults.lacking_conditions;
        }
    }
    common
}

} // verus!
