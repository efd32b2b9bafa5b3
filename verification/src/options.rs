//! The texts and settings that shape help output.

use vstd::prelude::*;
use crate::text::opt_text;
use crate::visibility::PolicyDefaults;

verus! {

/// The texts, labels and settings of the help system.
#[derive(Clone, Debug, PartialEq, Eq)]
pub struct HelpOptions {
    /// The text above a list of suggestions; `{}` stands for the names.
    pub suggestion_text: String,
    /// The message shown when nothing can be offered.
    pub no_help_available_text: String,
    /// The label of a command's usage.
    pub usage_label: String,
    /// The label of a command's sample usage.
    pub usage_sample_label: String,
    /// The label of a command's description.
    pub description_label: String,
    /// The label of the group a command belongs to.
    pub grouped_label: String,
    /// The label of a command's aliases.
    pub aliases_label: String,
    /// Says that a command is for guilds only.
    pub guild_only_text: String,
    /// The label of a command's checks.
    pub checks_label: String,
    /// The label of a command's sub-commands.
    pub sub_commands_label: String,
    /// Says that a command is for direct messages only.
    pub dm_only_text: String,
    /// Says that a command can be used anywhere.
    pub dm_and_guild_text: String,
    /// The label of a command's availability.
    pub available_text: String,
    /// Tells how to ask for help on a single command.
    pub individual_command_tip: String,
    /// Explains struck-through commands, in direct messages.
    pub strikethrough_commands_tip_in_dm: Option<String>,
    /// Explains struck-through commands, in guilds.
    pub strikethrough_commands_tip_in_guild: Option<String>,
    /// The label of a group's prefixes.
    pub group_prefix: String,
    /// The behaviour for each way in which a caller can fall short.
    pub policy: PolicyDefaults,
    /// The colour of a rich payload that reports a failure.
    pub embed_error_colour: u32,
    /// The colour of a rich payload that reports a success.
    pub embed_success_colour: u32,
    /// The greatest edit distance at which a command is suggested; 0 turns
    /// suggestions off.
    pub max_levenshtein_distance: usize,
    /// The marker that is repeated once per nesting level.
    pub indention_prefix: String,
}

/// The mathematical model of [`HelpOptions`].
pub ghost struct HelpOptionsModel {
    pub suggestion_text: Seq<char>,
    pub no_help_available_text: Seq<char>,
    pub usage_label: Seq<char>,
    pub usage_sample_label: Seq<char>,
    pub description_label: Seq<char>,
    pub grouped_label: Seq<char>,
    pub aliases_label: Seq<char>,
    pub guild_only_text: Seq<char>,
    pub checks_label: Seq<char>,
    pub sub_commands_label: Seq<char>,
    pub dm_only_text: Seq<char>,
    pub dm_and_guild_text: Seq<char>,
    pub available_text: Seq<char>,
    pub individual_command_tip: Seq<char>,
    pub strikethrough_commands_tip_in_dm: Option<Seq<char>>,
    pub strikethrough_commands_tip_in_guild: Option<Seq<char>>,
    pub group_prefix: Seq<char>,
    pub policy: PolicyDefaults,
    pub embed_error_colour: u32,
    pub embed_success_colour: u32,
    pub max_levenshtein_distance: nat,
    pub indention_prefix: Seq<char>,
}

impl View for HelpOptions {
    type V = HelpOptionsModel;

    open spec fn view(&self) -> HelpOptionsModel {
        HelpOptionsModel {
            suggestion_text: self.suggestion_text@,
            no_help_available_text: self.no_help_available_text@,
            usage_label: self.usage_label@,
            usage_sample_label: self.usage_sample_label@,
            description_label: self.description_label@,
            grouped_label: self.grouped_label@,
            aliases_label: self.aliases_label@,
            guild_only_text: self.guild_only_text@,
            checks_label: self.checks_label@,
            sub_commands_label: self.sub_commands_label@,
            dm_only_text: self.dm_only_text@,
            dm_and_guild_text: self.dm_and_guild_text@,
            available_text: self.available_text@,
            individual_command_tip: self.individual_command_tip@,
            strikethrough_commands_tip_in_dm: opt_text(self.strikethrough_commands_tip_in_dm),
            strikethrough_commands_tip_in_guild: opt_text(
                self.strikethrough_commands_tip_in_guild,
            ),
            group_prefix: self.group_prefix@,
            policy: self.policy,
            embed_error_colour: self.embed_error_colour,
            embed_success_colour: self.embed_success_colour,
            max_levenshtein_distance: self.max_levenshtein_distance as nat,
            indention_prefix: self.indention_prefix@,
        }
    }
}

} // verus!
