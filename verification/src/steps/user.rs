//! System users with their groups, sudo rule and authorised keys.

use super::{optional_line, push_optional, AnyStep, CloudInitFragment, Step, StepView};
use crate::text::{escape_single_quotes, join, joined, opt_view, push_line, quote_escaped};
use vstd::prelude::*;
use vstd::string::*;

verus! {

/// Description of a user step.
pub open spec fn user_description(name: Seq<char>) -> Seq<char> {
    "Ensure user "@ + name + " exists"@
}

/// Guard of a user step: the user is known.
pub open spec fn user_check(name: Seq<char>) -> Seq<char> {
    "id "@ + name + " >/dev/null 2>&1"@
}

/// Creates the user, with a home directory and the given shell, unless the
/// user is known.
pub open spec fn user_create_line(name: Seq<char>, shell: Seq<char>) -> Seq<char> {
    user_check(name) + " || useradd -m -s "@ + shell + " "@ + name
}

/// Adds the user to each of the groups that exists.
pub open spec fn user_groups_line(name: Seq<char>, groups: Seq<Seq<char>>) -> Seq<char> {
    "for g in "@ + joined(groups, " "@)
        + "; do getent group $g >/dev/null && usermod -aG $g "@ + name
        + " 2>/dev/null || true; done"@
}

/// Writes the user's sudo rule.
pub open spec fn user_sudo_line(name: Seq<char>, sudo: Seq<char>) -> Seq<char> {
    "echo '"@ + name + " "@ + sudo + "' > /etc/sudoers.d/"@ + name
        + " && chmod 440 /etc/sudoers.d/"@ + name
}

/// The user's sudo rule line, where a rule is given.
pub open spec fn user_optional_sudo(name: Seq<char>, sudo: Option<Seq<char>>) -> Option<
    Seq<char>,
> {
    match sudo {
        Some(rule) => Some(user_sudo_line(name, rule)),
        None => None,
    }
}

/// Creates the directory that holds the user's authorised keys.
pub open spec fn user_ssh_dir_line(name: Seq<char>) -> Seq<char> {
    "mkdir -p /home/"@ + name + "/.ssh && chmod 700 /home/"@ + name + "/.ssh"@
}

/// Appends one key to the user's authorised keys unless a line there holds
/// it already. Single quotes in the key are escaped.
pub open spec fn user_key_line(name: Seq<char>, key: Seq<char>) -> Seq<char> {
    "grep -qF '"@ + quote_escaped(key) + "' /home/"@ + name
        + "/.ssh/authorized_keys 2>/dev/null || echo '"@ + quote_escaped(key) + "' >> /home/"@
        + name + "/.ssh/authorized_keys"@
}

/// Restricts the authorised keys to the user.
pub open spec fn user_ssh_owner_line(name: Seq<char>) -> Seq<char> {
    "chmod 600 /home/"@ + name + "/.ssh/authorized_keys && chown -R "@ + name + ":"@ + name
        + " /home/"@ + name + "/.ssh"@
}

/// The statements that install the keys: none without keys; else the
/// directory, one line per key in the keys' order, and the ownership.
pub open spec fn user_keys_lines(name: Seq<char>, ssh_keys: Seq<Seq<char>>) -> Seq<Seq<char>> {
    if ssh_keys.len() == 0 {
        Seq::empty()
    } else {
        seq![user_ssh_dir_line(name)] + Seq::new(
            ssh_keys.len(),
            |i: int| user_key_line(name, ssh_keys[i]),
        ) + seq![user_ssh_owner_line(name)]
    }
}

/// Shell statements of a user step; each part carries its own guard.
pub open spec fn user_bash(
    name: Seq<char>,
    groups: Seq<Seq<char>>,
    shell: Seq<char>,
    sudo: Option<Seq<char>>,
    ssh_keys: Seq<Seq<char>>,
) -> Seq<Seq<char>> {
    seq![user_create_line(name, shell)] + optional_line(
        if groups.len() == 0 {
            None
        } else {
            Some(user_groups_line(name, groups))
        },
    ) + optional_line(user_optional_sudo(name, sudo)) + user_keys_lines(name, ssh_keys)
}

/// Ensure that a system user exists with the given configuration.
#[derive(Debug, Clone)]
pub struct EnsureUser {
    /// User name.
    pub name: String,
    /// Groups to add the user to.
    pub groups: Vec<String>,
    /// Login shell.
    pub shell: String,
    /// Sudo rule, such as `ALL=(ALL) NOPASSWD:ALL`.
    pub sudo: Option<String>,
    /// Authorised SSH public keys.
    pub ssh_keys: Vec<String>,
    /// Description.
    pub description: String,
}

impl View for EnsureUser {
    type V = StepView;

    open spec fn view(&self) -> StepView {
        StepView::User {
            name: self.name@,
            groups: self.groups.deep_view(),
            shell: self.shell@,
            sudo: opt_view(self.sudo),
            ssh_keys: self.ssh_keys.deep_view(),
            description: self.description@,
        }
    }
}

fn check_line(name: &str) -> (r: String)
    ensures
        r@ == user_check(name@),
{
    let mut line = String::from_str("id ");
    line.append(name);
    line.append(" >/dev/null 2>&1");
    line
}

fn key_line(name: &str, key: &str) -> (r: String)
    ensures
        r@ == user_key_line(name@, key@),
{
    let escaped = escape_single_quotes(key);
    let mut line = String::from_str("grep -qF '");
    line.append(escaped.as_str());
    line.append("' /home/");
    line.append(name);
    line.append("/.ssh/authorized_keys 2>/dev/null || echo '");
    line.append(escaped.as_str());
    line.append("' >> /home/");
    line.append(name);
    line.append("/.ssh/authorized_keys");
    line
}

impl EnsureUser {
    /// A user step with the default shell and nothing else.
    pub fn new(name: &str) -> (r: Self)
        ensures
            r@ == (StepView::User {
                name: name@,
                groups: Seq::empty(),
                shell: "/bin/bash"@,
                sudo: None,
                ssh_keys: Seq::empty(),
                description: user_description(name@),
            }),
    {
        let mut description = String::from_str("Ensure user ");
        description.append(name);
        description.append(" exists");
        let r = EnsureUser {
            name: String::from_str(name),
            groups: Vec::new(),
            shell: String::from_str("/bin/bash"),
            sudo: None,
            ssh_keys: Vec::new(),
            description,
        };
        assert(r.groups.deep_view() =~= Seq::empty());
        assert(r.ssh_keys.deep_view() =~= Seq::empty());
        r
    }

    /// Sets the groups of the user.
    pub fn with_groups(self, groups: Vec<String>) -> (r: Self)
        ensures
            r@ == (StepView::User {
                name: self.name@,
                groups: groups.deep_view(),
                shell: self.shell@,
                sudo: opt_view(self.sudo),
                ssh_keys: self.ssh_keys.deep_view(),
                description: self.description@,
            }),
    {
        EnsureUser {
            name: self.name,
            groups,
            shell: self.shell,
            sudo: self.sudo,
            ssh_keys: self.ssh_keys,
            description: self.description,
        }
    }

    /// Sets the login shell.
    pub fn with_shell(self, shell: &str) -> (r: Self)
        ensures
            r@ == (StepView::User {
                name: self.name@,
                groups: self.groups.deep_view(),
                shell: shell@,
                sudo: opt_view(self.sudo),
                ssh_keys: self.ssh_keys.deep_view(),
                description: self.description@,
            }),
    {
        EnsureUser {
            name: self.name,
            groups: self.groups,
            shell: String::from_str(shell),
            sudo: self.sudo,
            ssh_keys: self.ssh_keys,
            description: self.description,
        }
    }

    /// Sets the sudo rule.
    pub fn with_sudo(self, sudo: &str) -> (r: Self)
        ensures
            r@ == (StepView::User {
                name: self.name@,
                groups: self.groups.deep_view(),
                shell: self.shell@,
                sudo: Some(sudo@),
                ssh_keys: self.ssh_keys.deep_view(),
                description: self.description@,
            }),
    {
        EnsureUser {
            name: self.name,
            groups: self.groups,
            shell: self.shell,
            sudo: Some(String::from_str(sudo)),
            ssh_keys: self.ssh_keys,
            description: self.description,
        }
    }

    /// Sets the authorised SSH keys.
    pub fn with_ssh_keys(self, keys: Vec<String>) -> (r: Self)
        ensures
            r@ == (StepView::User {
                name: self.name@,
                groups: self.groups.deep_view(),
                shell: self.shell@,
                sudo: opt_view(self.sudo),
                ssh_keys: keys.deep_view(),
                description: self.description@,
            }),
    {
        EnsureUser {
            name: self.name,
            groups: self.groups,
            shell: self.shell,
            sudo: self.sudo,
            ssh_keys: keys,
            description: self.description,
        }
    }

    fn sudo_line(&self) -> (r: Option<String>)
        ensures
            opt_view(r) == user_optional_sudo(self.name@, opt_view(self.sudo)),
    {
        let name = self.name.as_str();
        match &self.sudo {
            Some(sudo) => {
                let mut line = String::from_str("echo '");
                line.append(name);
                line.append(" ");
                line.append(sudo.as_str());
                line.append("' > /etc/sudoers.d/");
                line.append(name);
                line.append(" && chmod 440 /etc/sudoers.d/");
                line.append(name);
                Some(line)
            },
            None => None,
        }
    }

    fn groups_line(&self) -> (r: Option<String>)
        ensures
            opt_view(r) == if self.groups.deep_view().len() == 0 {
                None
            } else {
                Some(user_groups_line(self.name@, self.groups.deep_view()))
            },
    {
        if self.groups.len() == 0 {
            None
        } else {
            let mut line = String::from_str("for g in ");
            line.append(join(&self.groups, " ").as_str());
            line.append("; do getent group $g >/dev/null && usermod -aG $g ");
            line.append(self.name.as_str());
            line.append(" 2>/dev/null || true; done");
            Some(line)
        }
    }

    fn keys_lines(&self, cmds: &mut Vec<String>)
        ensures
            final(cmds).deep_view() == old(cmds).deep_view() + user_keys_lines(
                self.name@,
                self.ssh_keys.deep_view(),
            ),
    {
        let name = self.name.as_str();
        let ghost keys = self.ssh_keys.deep_view();
        let ghost before = cmds.deep_view();
        if self.ssh_keys.len() == 0 {
            assert(cmds.deep_view() =~= before + Seq::<Seq<char>>::empty());
            return ;
        }
        let mut dir = String::from_str("mkdir -p /home/");
        dir.append(name);
        dir.append("/.ssh && chmod 700 /home/");
        dir.append(name);
        dir.append("/.ssh");
        push_line(cmds, dir);
        let ghost head = before + seq![user_ssh_dir_line(self.name@)];
        assert(cmds.deep_view() =~= head + Seq::new(0, |k: int| user_key_line(self.name@, keys[k])));

        let mut i: usize = 0;
        while i < self.ssh_keys.len()
            invariant
                i <= self.ssh_keys.len(),
                keys == self.ssh_keys.deep_view(),
                name@ == self.name@,
                cmds.deep_view() == head + Seq::new(
                    i as nat,
                    |k: int| user_key_line(self.name@, keys[k]),
                ),
            decreases self.ssh_keys.len() - i,
        {
            let line = key_line(name, self.ssh_keys[i].as_str());
            push_line(cmds, line);
            assert(cmds.deep_view() =~= head + Seq::new(
                (i + 1) as nat,
                |k: int| user_key_line(self.name@, keys[k]),
            ));
            i += 1;
        }
        let mut owner = String::from_str("chmod 600 /home/");
        owner.append(name);
        owner.append("/.ssh/authorized_keys && chown -R ");
        owner.append(name);
        owner.append(":");
        owner.append(name);
        owner.append(" /home/");
        owner.append(name);
        owner.append("/.ssh");
        push_line(cmds, owner);
        assert(cmds.deep_view() =~= before + user_keys_lines(self.name@, keys));
    }
}

impl Step for EnsureUser {
    open spec fn model(&self) -> StepView {
        self@
    }

    fn description(&self) -> (r: &str) {
        self.description.as_str()
    }

    fn to_cloud_init(&self) -> (r: CloudInitFragment) {
        CloudInitFragment::of_commands(self.to_bash())
    }

    fn to_bash(&self) -> (r: Vec<String>) {
        let name = self.name.as_str();
        let mut cmds: Vec<String> = Vec::new();
        let mut create = check_line(name);
        create.append(" || useradd -m -s ");
        create.append(self.shell.as_str());
        create.append(" ");
        create.append(name);
        push_line(&mut cmds, create);
        assert(cmds.deep_view() =~= seq![user_create_line(self.name@, self.shell@)]);
        push_optional(&mut cmds, self.groups_line());
        push_optional(&mut cmds, self.sudo_line());
        self.keys_lines(&mut cmds);
        cmds
    }

    fn check_command(&self) -> (r: Option<String>) {
        Some(check_line(self.name.as_str()))
    }

    fn into_any(self) -> (r: AnyStep) {
        AnyStep::User(self)
    }
}

} // verus!
