//! What a help request resolves to.

use vstd::prelude::*;
use crate::text::{opt_text, texts};

verus! {

/// A command name that is close to what the caller typed.
#[derive(Clone, Debug, PartialEq, Eq)]
pub struct Suggestion {
    /// The name under which the command is shown.
    pub name: String,
    /// The edit distance between the name and the query.
    pub distance: usize,
}

/// The mathematical model of [`Suggestion`].
pub ghost struct SuggestionModel {
    pub name: Seq<char>,
    pub distance: nat,
}

impl View for Suggestion {
    type V = SuggestionModel;

    open spec fn view(&self) -> SuggestionModel {
        SuggestionModel { name: self.name@, distance: self.distance as nat }
    }
}

/// The models of a sequence of suggestions.
pub open spec fn suggestion_models(v: Seq<Suggestion>) -> Seq<SuggestionModel> {
    v.map_values(|s: Suggestion| s@)
}

/// A group as help lists it: its decorated command names and the nested
/// groups that have something to list.
#[derive(Debug, PartialEq, Eq)]
pub struct GroupCommandsView {
    /// The group's name.
    pub name: String,
    /// The group's prefixes.
    pub prefixes: Vec<String>,
    /// The names of the commands that are listed, each with its decoration.
    pub command_names: Vec<String>,
    /// The nested groups.
    pub sub_groups: Vec<GroupCommandsView>,
}

/// The mathematical model of [`GroupCommandsView`].
pub ghost struct GroupViewModel {
    pub name: Seq<char>,
    pub prefixes: Seq<Seq<char>>,
    pub command_names: Seq<Seq<char>>,
    pub sub_groups: Seq<GroupViewModel>,
}

/// The model of a listed group, built from the models of its nested groups.
pub open spec fn model_of_view(v: GroupCommandsView) -> GroupViewModel
    decreases v,
{
    GroupViewModel {
        name: v.name@,
        prefixes: texts(v.prefixes@),
        command_names: texts(v.command_names@),
        sub_groups: Seq::new(
            v.sub_groups@.len(),
            |i: int|
                if 0 <= i < v.sub_groups@.len() {
                    model_of_view(v.sub_groups@[i])
                } else {
                    arbitrary()
                },
        ),
    }
}

impl View for GroupCommandsView {
    type V = GroupViewModel;

    open spec fn view(&self) -> GroupViewModel {
        model_of_view(*self)
    }
}

/// The models of a sequence of listed groups.
pub open spec fn view_models(v: Seq<GroupCommandsView>) -> Seq<GroupViewModel> {
    v.map_values(|g: GroupCommandsView| g@)
}

/// The model of a listed group holds the models of its nested groups.
pub proof fn lemma_sub_view_models(v: GroupCommandsView)
    ensures
        v@.sub_groups == view_models(v.sub_groups@),
{
    let models = view_models(v.sub_groups@);
    assert(v@.sub_groups.len() == models.len());
    assert forall|i: int| 0 <= i < models.len() implies v@.sub_groups[i] == models[i] by {
        assert(models[i] == v.sub_groups@[i]@);
    }
    assert(v@.sub_groups =~= models);
}

/// All that help tells of one command.
#[derive(Clone, Debug, PartialEq, Eq)]
pub struct CommandView {
    /// The primary name.
    pub name: String,
    /// What the command does.
    pub description: Option<String>,
    /// The usage, led by the group's first prefix and the command's name.
    pub usage: Option<String>,
    /// The examples, each led by the group's first prefix and the command's
    /// name.
    pub examples: Vec<String>,
    /// The name of the group that holds the command.
    pub group_name: String,
    /// Where the command can be used.
    pub availability: String,
    /// The command's further names.
    pub aliases: Vec<String>,
    /// The names of the checks that help displays.
    pub checks: Vec<String>,
    /// The names of the command's sub-commands.
    pub sub_commands: Vec<String>,
}

/// The mathematical model of [`CommandView`].
pub ghost struct CommandViewModel {
    pub name: Seq<char>,
    pub description: Option<Seq<char>>,
    pub usage: Option<Seq<char>>,
    pub examples: Seq<Seq<char>>,
    pub group_name: Seq<char>,
    pub availability: Seq<char>,
    pub aliases: Seq<Seq<char>>,
    pub checks: Seq<Seq<char>>,
    pub sub_commands: Seq<Seq<char>>,
}

impl View for CommandView {
    type V = CommandViewModel;

    open spec fn view(&self) -> CommandViewModel {
        CommandViewModel {
            name: self.name@,
            description: opt_text(self.description),
            usage: opt_text(self.usage),
            examples: texts(self.examples@),
            group_name: self.group_name@,
            availability: self.availability@,
            aliases: texts(self.aliases@),
            checks: texts(self.checks@),
            sub_commands: texts(self.sub_commands@),
        }
    }
}

/// The result of resolving a help request: exactly one of four.
#[derive(Debug, PartialEq, Eq)]
pub enum ResolvedOutcome {
    /// Nothing can be offered.
    NoMatch {
        /// The message to show.
        message: String,
    },
    /// No command has the name asked for, but some are close.
    Suggestions {
        /// The text above the suggestions.
        intro: String,
        /// The suggestions, nearest first; among equals, first found first.
        suggestions: Vec<Suggestion>,
    },
    /// A list of groups with their commands.
    GroupListing {
        /// The text above the list.
        intro: String,
        /// The groups.
        groups: Vec<GroupCommandsView>,
    },
    /// The page of one command.
    SingleCommand {
        /// The command.
        command: CommandView,
    },
}

/// The mathematical model of [`ResolvedOutcome`].
pub ghost enum OutcomeModel {
    NoMatch { message: Seq<char> },
    Suggestions { intro: Seq<char>, suggestions: Seq<SuggestionModel> },
    GroupListing { intro: Seq<char>, groups: Seq<GroupViewModel> },
    SingleCommand { command: CommandViewModel },
}

impl View for ResolvedOutcome {
    type V = OutcomeModel;

    open spec fn view(&self) -> OutcomeModel {
        match self {
            ResolvedOutcome::NoMatch { message } => OutcomeModel::NoMatch { message: message@ },
            ResolvedOutcome::Suggestions { intro, suggestions } => OutcomeModel::Suggestions {
                intro: intro@,
                suggestions: suggestion_models(suggestions@),
            },
            ResolvedOutcome::GroupListing { intro, groups } => OutcomeModel::GroupListing {
                intro: intro@,
                groups: view_models(groups@),
            },
            ResolvedOutcome::SingleCommand { command } => OutcomeModel::SingleCommand {
                command: command@,
            },
        }
    }
}

} // verus!
