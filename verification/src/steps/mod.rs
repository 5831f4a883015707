//! The step catalog: each step is one idempotent unit of provisioning work
//! that can describe itself, contribute to a boot-time document, lower
//! itself to shell commands, and name the guard that tells whether it is
//! already satisfied.

pub mod command;
pub mod directory;
pub mod file;
pub mod firewall;
pub mod package;
pub mod service;
pub mod user;

pub use command::RunCommand;
pub use directory::EnsureDirectory;
pub use file::WriteFile;
pub use firewall::{EnsureFirewall, UfwRule};
pub use package::{InstallDebFromUrl, InstallPackage, Repository};
pub use service::EnsureService;
pub use user::EnsureUser;

use crate::text::{opt_view, push_line};
use vstd::prelude::*;

verus! {

/// Outcome of running a step.
#[derive(Debug, Clone, PartialEq, Eq)]
pub enum StepResult {
    /// The step's commands ran and succeeded.
    Applied,
    /// The guard held, so nothing ran.
    Skipped,
    /// The step's commands failed, with the reason.
    Failed(String),
}

/// Mathematical model of a package repository.
pub ghost struct RepositoryView {
    pub key_url: Seq<char>,
    pub repo_line: Seq<char>,
    pub keyring_path: Seq<char>,
}

/// Mathematical model of a file of the boot-time document.
pub ghost struct FileView {
    pub path: Seq<char>,
    pub content: Seq<char>,
    pub permissions: Option<Seq<char>>,
    pub owner: Option<Seq<char>>,
}

/// Mathematical model of a step's contribution to the boot-time document.
pub ghost struct FragmentView {
    pub packages: Seq<Seq<char>>,
    pub write_files: Seq<FileView>,
    pub runcmd: Seq<Seq<char>>,
}

/// Mathematical model of a step: the closed set of variants with the data
/// that each one embeds.
pub ghost enum StepView {
    Command { description: Seq<char>, command: Seq<char>, unless: Option<Seq<char>> },
    Directory {
        path: Seq<char>,
        permissions: Option<Seq<char>>,
        owner: Option<Seq<char>>,
        description: Seq<char>,
    },
    File {
        path: Seq<char>,
        content: Seq<char>,
        permissions: Option<Seq<char>>,
        owner: Option<Seq<char>>,
        description: Seq<char>,
    },
    Firewall {
        rules: Seq<Seq<char>>,
        default_incoming: Seq<char>,
        default_outgoing: Seq<char>,
        description: Seq<char>,
    },
    Package { name: Seq<char>, repository: Option<RepositoryView>, description: Seq<char> },
    DebFromUrl {
        name: Seq<char>,
        url_template: Seq<char>,
        custom_check: Option<Seq<char>>,
        description: Seq<char>,
    },
    Service { name: Seq<char>, enabled: bool, started: bool, description: Seq<char> },
    User {
        name: Seq<char>,
        groups: Seq<Seq<char>>,
        shell: Seq<char>,
        sudo: Option<Seq<char>>,
        ssh_keys: Seq<Seq<char>>,
        description: Seq<char>,
    },
}

/// A fragment that only runs commands.
pub open spec fn commands_only(runcmd: Seq<Seq<char>>) -> FragmentView {
    FragmentView { packages: Seq::empty(), write_files: Seq::empty(), runcmd }
}

/// Zero or one line.
pub open spec fn optional_line(line: Option<Seq<char>>) -> Seq<Seq<char>> {
    match line {
        Some(l) => seq![l],
        None => Seq::empty(),
    }
}

impl StepView {
    /// The human-readable description.
    pub open spec fn description(self) -> Seq<char> {
        match self {
            StepView::Command { description, .. } => description,
            StepView::Directory { description, .. } => description,
            StepView::File { description, .. } => description,
            StepView::Firewall { description, .. } => description,
            StepView::Package { description, .. } => description,
            StepView::DebFromUrl { description, .. } => description,
            StepView::Service { description, .. } => description,
            StepView::User { description, .. } => description,
        }
    }

    /// The shell statements that achieve the step's effect.
    pub open spec fn bash(self) -> Seq<Seq<char>> {
        match self {
            StepView::Command { command, unless, .. } => command::command_bash(command, unless),
            StepView::Directory { path, permissions, owner, .. } => directory::directory_bash(
                path,
                permissions,
                owner,
            ),
            StepView::File { path, content, permissions, owner, .. } => file::file_bash(
                path,
                content,
                permissions,
                owner,
            ),
            StepView::Firewall {
                rules,
                default_incoming,
                default_outgoing,
                ..
            } => firewall::firewall_bash(rules, default_incoming, default_outgoing),
            StepView::Package { name, repository, .. } => package::package_bash(name, repository),
            StepView::DebFromUrl { name, url_template, .. } => package::deb_bash(
                name,
                url_template,
            ),
            StepView::Service { name, enabled, started, .. } => service::service_bash(
                name,
                enabled,
                started,
            ),
            StepView::User { name, groups, shell, sudo, ssh_keys, .. } => user::user_bash(
                name,
                groups,
                shell,
                sudo,
                ssh_keys,
            ),
        }
    }

    /// The guard: a command whose success means that the step is already
    /// satisfied, where the step has one.
    pub open spec fn check(self) -> Option<Seq<char>> {
        match self {
            StepView::Command { unless, .. } => unless,
            StepView::Directory { path, .. } => Some(directory::directory_check(path)),
            StepView::File { path, content, .. } => Some(file::file_check(path, content)),
            StepView::Firewall { .. } => Some(firewall::firewall_check()),
            StepView::Package { name, .. } => Some(package::package_check(name)),
            StepView::DebFromUrl { name, custom_check, .. } => Some(
                package::deb_check(name, custom_check),
            ),
            StepView::Service { name, enabled, started, .. } => service::service_check(
                name,
                enabled,
                started,
            ),
            StepView::User { name, .. } => Some(user::user_check(name)),
        }
    }

    /// The step's contribution to the boot-time document.
    pub open spec fn cloud_init(self) -> FragmentView {
        match self {
            StepView::File { path, content, permissions, owner, .. } => FragmentView {
                packages: Seq::empty(),
                write_files: seq![FileView { path, content, permissions, owner }],
                runcmd: Seq::empty(),
            },
            StepView::Package { name, repository, .. } => FragmentView {
                packages: seq![name],
                write_files: Seq::empty(),
                runcmd: package::package_repository_setup(name, repository),
            },
            StepView::DebFromUrl { name, url_template, custom_check, .. } => commands_only(
                seq![package::deb_guarded_install(name, url_template, custom_check)],
            ),
            _ => commands_only(self.bash()),
        }
    }
}

/// A file to write through the boot-time document.
#[derive(Debug, Clone)]
pub struct CloudInitFile {
    pub path: String,
    pub content: String,
    pub permissions: Option<String>,
    pub owner: Option<String>,
}

impl View for CloudInitFile {
    type V = FileView;

    open spec fn view(&self) -> FileView {
        FileView {
            path: self.path@,
            content: self.content@,
            permissions: opt_view(self.permissions),
            owner: opt_view(self.owner),
        }
    }
}

/// Models of a list of files.
pub open spec fn files_view(files: Seq<CloudInitFile>) -> Seq<FileView> {
    Seq::new(files.len(), |i: int| files[i]@)
}

/// A step's contribution to the boot-time document.
#[derive(Debug, Clone)]
pub struct CloudInitFragment {
    /// Packages to install.
    pub packages: Vec<String>,
    /// Files to write.
    pub write_files: Vec<CloudInitFile>,
    /// Commands to run.
    pub runcmd: Vec<String>,
}

impl View for CloudInitFragment {
    type V = FragmentView;

    open spec fn view(&self) -> FragmentView {
        FragmentView {
            packages: self.packages.deep_view(),
            write_files: files_view(self.write_files@),
            runcmd: self.runcmd.deep_view(),
        }
    }
}

impl Default for CloudInitFragment {
    fn default() -> (r: Self)
        ensures
            r@ == commands_only(Seq::empty()),
    {
        let r = CloudInitFragment {
            packages: Vec::new(),
            write_files: Vec::new(),
            runcmd: Vec::new(),
        };
        assert(r@.packages =~= Seq::empty());
        assert(r@.write_files =~= Seq::empty());
        assert(r@.runcmd =~= Seq::empty());
        r
    }
}

impl CloudInitFragment {
    /// The fragment that only runs the given commands.
    pub fn of_commands(runcmd: Vec<String>) -> (r: Self)
        ensures
            r@ == commands_only(runcmd.deep_view()),
    {
        let r = CloudInitFragment { packages: Vec::new(), write_files: Vec::new(), runcmd };
        assert(r@.packages =~= Seq::empty());
        assert(r@.write_files =~= Seq::empty());
        r
    }
}

/// One idempotent unit of provisioning work.
pub trait Step: Sized {
    /// The step's mathematical model.
    spec fn model(&self) -> StepView;

    /// Human-readable description of what the step does.
    fn description(&self) -> (r: &str)
        ensures
            r@ == self.model().description(),
    ;

    /// The step's contribution to the boot-time document.
    fn to_cloud_init(&self) -> (r: CloudInitFragment)
        ensures
            r@ == self.model().cloud_init(),
    ;

    /// Shell statements that achieve the step's effect and are safe to repeat.
    fn to_bash(&self) -> (r: Vec<String>)
        ensures
            r.deep_view() == self.model().bash(),
    ;

    /// The guard command: where it exits with status zero the step is
    /// already satisfied. `None` means that the step always runs.
    fn check_command(&self) -> (r: Option<String>)
        ensures
            opt_view(r) == self.model().check(),
    ;

    /// The step as a member of the closed catalog.
    fn into_any(self) -> (r: AnyStep)
        ensures
            r@ == self.model(),
    ;
}

/// Any step of the catalog.
#[derive(Debug, Clone)]
pub enum AnyStep {
    Command(RunCommand),
    Directory(EnsureDirectory),
    File(WriteFile),
    Firewall(EnsureFirewall),
    Package(InstallPackage),
    DebFromUrl(InstallDebFromUrl),
    Service(EnsureService),
    User(EnsureUser),
}

impl View for AnyStep {
    type V = StepView;

    open spec fn view(&self) -> StepView {
        match self {
            AnyStep::Command(s) => s@,
            AnyStep::Directory(s) => s@,
            AnyStep::File(s) => s@,
            AnyStep::Firewall(s) => s@,
            AnyStep::Package(s) => s@,
            AnyStep::DebFromUrl(s) => s@,
            AnyStep::Service(s) => s@,
            AnyStep::User(s) => s@,
        }
    }
}

impl Step for AnyStep {
    open spec fn model(&self) -> StepView {
        self@
    }

    fn description(&self) -> (r: &str) {
        match self {
            AnyStep::Command(s) => s.description(),
            AnyStep::Directory(s) => s.description(),
            AnyStep::File(s) => s.description(),
            AnyStep::Firewall(s) => s.description(),
            AnyStep::Package(s) => s.description(),
            AnyStep::DebFromUrl(s) => s.description(),
            AnyStep::Service(s) => s.description(),
            AnyStep::User(s) => s.description(),
        }
    }

    fn to_cloud_init(&self) -> (r: CloudInitFragment) {
        match self {
            AnyStep::Command(s) => s.to_cloud_init(),
            AnyStep::Directory(s) => s.to_cloud_init(),
            AnyStep::File(s) => s.to_cloud_init(),
            AnyStep::Firewall(s) => s.to_cloud_init(),
            AnyStep::Package(s) => s.to_cloud_init(),
            AnyStep::DebFromUrl(s) => s.to_cloud_init(),
            AnyStep::Service(s) => s.to_cloud_init(),
            AnyStep::User(s) => s.to_cloud_init(),
        }
    }

    fn to_bash(&self) -> (r: Vec<String>) {
        match self {
            AnyStep::Command(s) => s.to_bash(),
            AnyStep::Directory(s) => s.to_bash(),
            AnyStep::File(s) => s.to_bash(),
            AnyStep::Firewall(s) => s.to_bash(),
            AnyStep::Package(s) => s.to_bash(),
            AnyStep::DebFromUrl(s) => s.to_bash(),
            AnyStep::Service(s) => s.to_bash(),
            AnyStep::User(s) => s.to_bash(),
        }
    }

    fn check_command(&self) -> (r: Option<String>) {
        match self {
            AnyStep::Command(s) => s.check_command(),
            AnyStep::Directory(s) => s.check_command(),
            AnyStep::File(s) => s.check_command(),
            AnyStep::Firewall(s) => s.check_command(),
            AnyStep::Package(s) => s.check_command(),
            AnyStep::DebFromUrl(s) => s.check_command(),
            AnyStep::Service(s) => s.check_command(),
            AnyStep::User(s) => s.check_command(),
        }
    }

    fn into_any(self) -> (r: AnyStep) {
        self
    }
}

/// Appends an optional line to a list of lines.
pub(crate) fn push_optional(lines: &mut Vec<String>, line: Option<String>)
    ensures
        final(lines).deep_view() == old(lines).deep_view() + optional_line(opt_view(line)),
{
    match line {
        Some(l) => {
            push_line(lines, l);
            assert(lines.deep_view() =~= old(lines).deep_view() + seq![l@]);
        },
        None => {
            assert(lines.deep_view() =~= old(lines).deep_view() + Seq::<Seq<char>>::empty());
        },
    }
}

} // verus!
