//! Arbitrary commands behind a caller-supplied guard.

use super::{AnyStep, CloudInitFragment, Step, StepView};
use crate::text::opt_view;
use vstd::prelude::*;
use vstd::string::*;

verus! {

/// The guarded form of a command: the command runs only where the guard
/// fails.
pub open spec fn guarded_command(command: Seq<char>, unless: Seq<char>) -> Seq<char> {
    unless + " || { "@ + command + "; }"@
}

/// Shell statements of a command step.
pub open spec fn command_bash(command: Seq<char>, unless: Option<Seq<char>>) -> Seq<Seq<char>> {
    match unless {
        Some(u) => seq![guarded_command(command, u)],
        None => seq![command],
    }
}

/// Run a command, with an optional guard that makes it idempotent.
#[derive(Debug, Clone)]
pub struct RunCommand {
    /// Human-readable description.
    pub description: String,
    /// Command to execute.
    pub command: String,
    /// Where this command succeeds, `command` is not run.
    pub unless: Option<String>,
}

impl View for RunCommand {
    type V = StepView;

    open spec fn view(&self) -> StepView {
        StepView::Command {
            description: self.description@,
            command: self.command@,
            unless: opt_view(self.unless),
        }
    }
}

impl RunCommand {
    /// A command step without a guard.
    pub fn new(description: &str, command: &str) -> (r: Self)
        ensures
            r@ == (StepView::Command {
                description: description@,
                command: command@,
                unless: None,
            }),
    {
        RunCommand {
            description: String::from_str(description),
            command: String::from_str(command),
            unless: None,
        }
    }

    /// Adds the guard.
    pub fn unless(self, check: &str) -> (r: Self)
        ensures
            r@ == (StepView::Command {
                description: self.description@,
                command: self.command@,
                unless: Some(check@),
            }),
    {
        RunCommand {
            description: self.description,
            command: self.command,
            unless: Some(String::from_str(check)),
        }
    }
}

impl Step for RunCommand {
    open spec fn model(&self) -> StepView {
        self@
    }

    fn description(&self) -> (r: &str) {
        self.description.as_str()
    }

    fn to_cloud_init(&self) -> (r: CloudInitFragment) {
        CloudInitFragment::of_commands(self.to_bash())
    }

    fn to_bash(&self) -> (r: Vec<String>) {
        let mut cmds: Vec<String> = Vec::new();
        match &self.unless {
            Some(unless) => {
                let mut line = unless.clone();
                line.append(" || { ");
                line.append(self.command.as_str());
                line.append("; }");
                cmds.push(line);
                assert(cmds.deep_view() =~= self@.bash());
            },
            None => {
                cmds.push(self.command.clone());
                assert(cmds.deep_view() =~= self@.bash());
            },
        }
        cmds
    }

    fn check_command(&self) -> (r: Option<String>) {
        self.unless.clone()
    }

    fn into_any(self) -> (r: AnyStep) {
        AnyStep::Command(self)
    }
}

} // verus!
