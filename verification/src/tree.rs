//! The command tree: groups that hold commands and nested groups.
//!
//! The tree is owned data, so it is finite and free of cycles by
//! construction.

use vstd::prelude::*;
use crate::text::{opt_text, texts};
use crate::visibility::{check_models, CheckModel, CheckSpec, Constraints, ConstraintsModel};

verus! {

/// One invocable command.
#[derive(Clone, Debug, PartialEq, Eq)]
pub struct CommandSpec {
    /// The primary name.
    pub name: String,
    /// Further names under which the command is found.
    pub aliases: Vec<String>,
    /// What the command does.
    pub description: Option<String>,
    /// The arguments the command takes.
    pub usage: Option<String>,
    /// Sample arguments.
    pub examples: Vec<String>,
    /// What the command demands of a caller.
    pub constraints: Constraints,
    /// The checks attached to the command.
    pub checks: Vec<CheckSpec>,
    /// The names of the command's sub-commands.
    pub sub_commands: Vec<String>,
}

/// The mathematical model of [`CommandSpec`].
pub ghost struct CommandModel {
    pub name: Seq<char>,
    pub aliases: Seq<Seq<char>>,
    pub description: Option<Seq<char>>,
    pub usage: Option<Seq<char>>,
    pub examples: Seq<Seq<char>>,
    pub constraints: ConstraintsModel,
    pub checks: Seq<CheckModel>,
    pub sub_commands: Seq<Seq<char>>,
}

impl View for CommandSpec {
    type V = CommandModel;

    open spec fn view(&self) -> CommandModel {
        CommandModel {
            name: self.name@,
            aliases: texts(self.aliases@),
            description: opt_text(self.description),
            usage: opt_text(self.usage),
            examples: texts(self.examples@),
            constraints: self.constraints@,
            checks: check_models(self.checks@),
            sub_commands: texts(self.sub_commands@),
        }
    }
}

/// The models of a sequence of commands.
pub open spec fn command_models(v: Seq<CommandSpec>) -> Seq<CommandModel> {
    v.map_values(|c: CommandSpec| c@)
}

/// A named collection of commands and nested groups.
#[derive(Debug, PartialEq, Eq)]
pub struct GroupSpec {
    /// The group's name.
    pub name: String,
    /// The prefixes under which the group's commands are reached; empty for
    /// a group that is reached by its name.
    pub prefixes: Vec<String>,
    /// What the group is about.
    pub description: Option<String>,
    /// The group's own commands.
    pub commands: Vec<CommandSpec>,
    /// The groups nested in this one.
    pub sub_groups: Vec<GroupSpec>,
    /// What the group demands of a caller.
    pub constraints: Constraints,
    /// The checks that the group's commands inherit.
    pub checks: Vec<CheckSpec>,
}

/// The mathematical model of [`GroupSpec`].
pub ghost struct GroupModel {
    pub name: Seq<char>,
    pub prefixes: Seq<Seq<char>>,
    pub description: Option<Seq<char>>,
    pub commands: Seq<CommandModel>,
    pub sub_groups: Seq<GroupModel>,
    pub constraints: ConstraintsModel,
    pub checks: Seq<CheckModel>,
}

/// The model of a group, built from the models of what it holds.
pub open spec fn model_of_group(g: GroupSpec) -> GroupModel
    decreases g,
{
    GroupModel {
        name: g.name@,
        prefixes: texts(g.prefixes@),
        description: opt_text(g.description),
        commands: command_models(g.commands@),
        sub_groups: Seq::new(
            g.sub_groups@.len(),
            |i: int|
                if 0 <= i < g.sub_groups@.len() {
                    model_of_group(g.sub_groups@[i])
                } else {
                    arbitrary()
                },
        ),
        constraints: g.constraints@,
        checks: check_models(g.checks@),
    }
}

impl View for GroupSpec {
    type V = GroupModel;

    open spec fn view(&self) -> GroupModel {
        model_of_group(*self)
    }
}

/// The models of a sequence of groups.
pub open spec fn group_models(v: Seq<GroupSpec>) -> Seq<GroupModel> {
    v.map_values(|g: GroupSpec| g@)
}

/// The model of a group holds the models of its nested groups.
pub proof fn lemma_sub_group_models(g: GroupSpec)
    ensures
        g@.sub_groups == group_models(g.sub_groups@),
{
    let models = group_models(g.sub_groups@);
    assert(g@.sub_groups.len() == models.len());
    assert forall|i: int| 0 <= i < models.len() implies g@.sub_groups[i] == models[i] by {
        assert(models[i] == g.sub_groups@[i]@);
    }
    assert(g@.sub_groups =~= models);
}

} // verus!
