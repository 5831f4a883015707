//! Directories that must exist.

use super::{optional_line, push_optional, AnyStep, CloudInitFragment, Step, StepView};
use crate::text::{opt_view, push_line};
use vstd::prelude::*;
use vstd::string::*;

verus! {

/// Description of a directory step.
pub open spec fn directory_description(path: Seq<char>) -> Seq<char> {
    "Ensure directory "@ + path
}

/// `chmod` of a path to the given mode.
pub open spec fn chmod_line(mode: Seq<char>, path: Seq<char>) -> Seq<char> {
    "chmod "@ + mode + " "@ + path
}

/// `chown` of a path to the given owner.
pub open spec fn chown_line(owner: Seq<char>, path: Seq<char>) -> Seq<char> {
    "chown "@ + owner + " "@ + path
}

/// An optional `chmod` line.
pub open spec fn optional_chmod(mode: Option<Seq<char>>, path: Seq<char>) -> Option<Seq<char>> {
    match mode {
        Some(m) => Some(chmod_line(m, path)),
        None => None,
    }
}

/// An optional `chown` line.
pub open spec fn optional_chown(owner: Option<Seq<char>>, path: Seq<char>) -> Option<Seq<char>> {
    match owner {
        Some(o) => Some(chown_line(o, path)),
        None => None,
    }
}

/// Shell statements of a directory step: create it with its parents, then
/// set mode and owner where they are given.
pub open spec fn directory_bash(
    path: Seq<char>,
    permissions: Option<Seq<char>>,
    owner: Option<Seq<char>>,
) -> Seq<Seq<char>> {
    seq!["mkdir -p "@ + path] + optional_line(optional_chmod(permissions, path)) + optional_line(
        optional_chown(owner, path),
    )
}

/// Guard of a directory step: the directory exists.
pub open spec fn directory_check(path: Seq<char>) -> Seq<char> {
    "[ -d "@ + path + " ]"@
}

/// Ensure that a directory exists.
#[derive(Debug, Clone)]
pub struct EnsureDirectory {
    /// Directory path.
    pub path: String,
    /// Directory permissions, such as `0755`.
    pub permissions: Option<String>,
    /// Directory owner, such as `root:root`.
    pub owner: Option<String>,
    /// Description.
    pub description: String,
}

impl View for EnsureDirectory {
    type V = StepView;

    open spec fn view(&self) -> StepView {
        StepView::Directory {
            path: self.path@,
            permissions: opt_view(self.permissions),
            owner: opt_view(self.owner),
            description: self.description@,
        }
    }
}

impl EnsureDirectory {
    /// A directory step without mode or owner.
    pub fn new(path: &str) -> (r: Self)
        ensures
            r@ == (StepView::Directory {
                path: path@,
                permissions: None,
                owner: None,
                description: directory_description(path@),
            }),
    {
        let mut description = String::from_str("Ensure directory ");
        description.append(path);
        EnsureDirectory {
            path: String::from_str(path),
            permissions: None,
            owner: None,
            description,
        }
    }

    /// Sets the directory's permissions.
    pub fn with_permissions(self, perms: &str) -> (r: Self)
        ensures
            r@ == (StepView::Directory {
                path: self.path@,
                permissions: Some(perms@),
                owner: opt_view(self.owner),
                description: self.description@,
            }),
    {
        EnsureDirectory {
            path: self.path,
            permissions: Some(String::from_str(perms)),
            owner: self.owner,
            description: self.description,
        }
    }

    /// Sets the directory's owner.
    pub fn with_owner(self, owner: &str) -> (r: Self)
        ensures
            r@ == (StepView::Directory {
                path: self.path@,
                permissions: opt_view(self.permissions),
                owner: Some(owner@),
                description: self.description@,
            }),
    {
        EnsureDirectory {
            path: self.path,
            permissions: self.permissions,
            owner: Some(String::from_str(owner)),
            description: self.description,
        }
    }
}

/// Builds `<verb> <value> <target>` where the value is given.
pub(crate) fn optional_setting(verb: &str, value: &Option<String>, target: &str) -> (r: Option<
    String,
>)
    ensures
        opt_view(r) == match opt_view(*value) {
            Some(v) => Some(verb@ + v + " "@ + target@),
            None => None,
        },
{
    match value {
        Some(v) => {
            let mut line = String::from_str(verb);
            line.append(v.as_str());
            line.append(" ");
            line.append(target);
            Some(line)
        },
        None => None,
    }
}

impl Step for EnsureDirectory {
    open spec fn model(&self) -> StepView {
        self@
    }

    fn description(&self) -> (r: &str) {
        self.description.as_str()
    }

    fn to_cloud_init(&self) -> (r: CloudInitFragment) {
        CloudInitFragment::of_commands(self.to_bash())
    }

    fn to_bash(&self) -> (r: Vec<String>) {
        let mut cmds: Vec<String> = Vec::new();
        let mut mkdir = String::from_str("mkdir -p ");
        mkdir.append(self.path.as_str());
        push_line(&mut cmds, mkdir);
        assert(cmds.deep_view() =~= seq!["mkdir -p "@ + self.path@]);
        push_optional(&mut cmds, optional_setting("chmod ", &self.permissions, self.path.as_str()));
        push_optional(&mut cmds, optional_setting("chown ", &self.owner, self.path.as_str()));
        cmds
    }

    fn check_command(&self) -> (r: Option<String>) {
        let mut check = String::from_str("[ -d ");
        check.append(self.path.as_str());
        check.append(" ]");
        Some(check)
    }

    fn into_any(self) -> (r: AnyStep) {
        AnyStep::Directory(self)
    }
}

} // verus!
