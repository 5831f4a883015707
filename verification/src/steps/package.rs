//! Packages: from the distribution, from a third-party repository, or from
//! a file behind a URL.

use super::{AnyStep, CloudInitFragment, RepositoryView, Step, StepView};
use crate::text::{opt_view, push_line};
use vstd::prelude::*;
use vstd::string::*;

verus! {

/// Description of a package step.
pub open spec fn package_description(name: Seq<char>) -> Seq<char> {
    "Install "@ + name
}

/// Guard of a package step: the package manager knows the package as
/// installed.
pub open spec fn package_check(name: Seq<char>) -> Seq<char> {
    "dpkg -s "@ + name + " >/dev/null 2>&1"@
}

/// Installs a package unless it is installed already.
pub open spec fn package_install_line(name: Seq<char>) -> Seq<char> {
    package_check(name) + " || apt-get install -y "@ + name
}

/// Fetches a repository's signing key unless its keyring file exists.
pub open spec fn keyring_line(repo: RepositoryView) -> Seq<char> {
    "if [ ! -f "@ + repo.keyring_path + " ]; then curl -fsSL "@ + repo.key_url
        + " | gpg --dearmor -o "@ + repo.keyring_path + "; fi"@
}

/// Writes the repository's source line and refreshes the index unless some
/// source list holds that line already.
pub open spec fn source_line(repo: RepositoryView, name: Seq<char>) -> Seq<char> {
    "if ! grep -q '"@ + repo.repo_line + "' /etc/apt/sources.list.d/*.list 2>/dev/null; then echo '"@
        + repo.repo_line + "' > /etc/apt/sources.list.d/"@ + name + ".list; apt-get update; fi"@
}

/// Shell statements of a package step: the repository bootstrap where a
/// repository is given, then the guarded installation.
pub open spec fn package_bash(name: Seq<char>, repository: Option<RepositoryView>) -> Seq<
    Seq<char>,
> {
    match repository {
        Some(repo) => seq![
            keyring_line(repo),
            source_line(repo, name),
            package_install_line(name),
        ],
        None => seq![package_install_line(name)],
    }
}

/// Fetches a repository's signing key.
pub open spec fn fetch_key_line(repo: RepositoryView) -> Seq<char> {
    "curl -fsSL "@ + repo.key_url + " | gpg --dearmor -o "@ + repo.keyring_path
}

/// Writes the repository's source line.
pub open spec fn write_source_line(repo: RepositoryView, name: Seq<char>) -> Seq<char> {
    "echo '"@ + repo.repo_line + "' > /etc/apt/sources.list.d/"@ + name + ".list"@
}

/// The commands by which the boot-time document registers a package's
/// repository.
pub open spec fn package_repository_setup(
    name: Seq<char>,
    repository: Option<RepositoryView>,
) -> Seq<Seq<char>> {
    match repository {
        Some(repo) => seq![fetch_key_line(repo), write_source_line(repo, name), "apt-get update"@],
        None => Seq::empty(),
    }
}

/// Description of a step that installs a package from a URL.
pub open spec fn deb_description(name: Seq<char>) -> Seq<char> {
    "Install "@ + name + " from URL"@
}

/// Downloads the package file for this machine's architecture, installs it
/// and removes the download.
pub open spec fn deb_install_command(name: Seq<char>, url_template: Seq<char>) -> Seq<char> {
    "ARCH=$(dpkg --print-architecture)\nURL=$(echo '"@ + url_template
        + "' | sed \"s/{{arch}}/$ARCH/g\")\nwget -q \"$URL\" -O /tmp/"@ + name
        + ".deb\ndpkg -i /tmp/"@ + name + ".deb || apt-get install -f -y\nrm -f /tmp/"@ + name
        + ".deb"@
}

/// Shell statements of a step that installs a package from a URL.
pub open spec fn deb_bash(name: Seq<char>, url_template: Seq<char>) -> Seq<Seq<char>> {
    seq![deb_install_command(name, url_template)]
}

/// Guard of a step that installs a package from a URL: the custom check
/// where one is given, else the package query.
pub open spec fn deb_check(name: Seq<char>, custom_check: Option<Seq<char>>) -> Seq<char> {
    match custom_check {
        Some(check) => check,
        None => package_check(name),
    }
}

/// The same installation wrapped in its own guard, for the boot-time
/// document, which has no guards of its own.
pub open spec fn deb_guarded_install(
    name: Seq<char>,
    url_template: Seq<char>,
    custom_check: Option<Seq<char>>,
) -> Seq<char> {
    "if ! "@ + deb_check(name, custom_check)
        + "; then\n    ARCH=$(dpkg --print-architecture)\n    URL=$(echo '"@ + url_template
        + "' | sed \"s/{{arch}}/$ARCH/g\")\n    wget -q \"$URL\" -O /tmp/"@ + name
        + ".deb\n    dpkg -i /tmp/"@ + name + ".deb || apt-get install -f -y\n    rm -f /tmp/"@
        + name + ".deb\nfi"@
}

/// The container runtime's package repository.
pub open spec fn docker_repository() -> RepositoryView {
    RepositoryView {
        key_url: "https://download.docker.com/linux/ubuntu/gpg"@,
        repo_line: "deb [arch=$(dpkg --print-architecture) signed-by=/usr/share/keyrings/docker-archive-keyring.gpg] https://download.docker.com/linux/ubuntu $(lsb_release -cs) stable"@,
        keyring_path: "/usr/share/keyrings/docker-archive-keyring.gpg"@,
    }
}

/// The relational database's package repository.
pub open spec fn postgresql_repository() -> RepositoryView {
    RepositoryView {
        key_url: "https://www.postgresql.org/media/keys/ACCC4CF8.asc"@,
        repo_line: "deb [signed-by=/usr/share/keyrings/postgresql-archive-keyring.gpg] https://apt.postgresql.org/pub/repos/apt $(lsb_release -cs)-pgdg main"@,
        keyring_path: "/usr/share/keyrings/postgresql-archive-keyring.gpg"@,
    }
}

/// An external package repository.
#[derive(Debug, Clone)]
pub struct Repository {
    /// URL of the signing key.
    pub key_url: String,
    /// The source line of the repository.
    pub repo_line: String,
    /// Path where the keyring is stored.
    pub keyring_path: String,
}

impl View for Repository {
    type V = RepositoryView;

    open spec fn view(&self) -> RepositoryView {
        RepositoryView {
            key_url: self.key_url@,
            repo_line: self.repo_line@,
            keyring_path: self.keyring_path@,
        }
    }
}

impl Repository {
    /// The container runtime's official repository.
    pub fn docker() -> (r: Self)
        ensures
            r@ == docker_repository(),
    {
        Repository {
            key_url: String::from_str("https://download.docker.com/linux/ubuntu/gpg"),
            repo_line: String::from_str(
                "deb [arch=$(dpkg --print-architecture) signed-by=/usr/share/keyrings/docker-archive-keyring.gpg] https://download.docker.com/linux/ubuntu $(lsb_release -cs) stable",
            ),
            keyring_path: String::from_str("/usr/share/keyrings/docker-archive-keyring.gpg"),
        }
    }

    /// The relational database's official repository.
    pub fn postgresql() -> (r: Self)
        ensures
            r@ == postgresql_repository(),
    {
        Repository {
            key_url: String::from_str("https://www.postgresql.org/media/keys/ACCC4CF8.asc"),
            repo_line: String::from_str(
                "deb [signed-by=/usr/share/keyrings/postgresql-archive-keyring.gpg] https://apt.postgresql.org/pub/repos/apt $(lsb_release -cs)-pgdg main",
            ),
            keyring_path: String::from_str("/usr/share/keyrings/postgresql-archive-keyring.gpg"),
        }
    }
}

/// View of an optional repository.
pub open spec fn opt_repository_view(repository: Option<Repository>) -> Option<RepositoryView> {
    match repository {
        Some(repo) => Some(repo@),
        None => None,
    }
}

/// Install a package, optionally from an external repository.
#[derive(Debug, Clone)]
pub struct InstallPackage {
    /// Package name.
    pub name: String,
    /// External repository to register first, if any.
    pub repository: Option<Repository>,
    /// Description.
    pub description: String,
}

impl View for InstallPackage {
    type V = StepView;

    open spec fn view(&self) -> StepView {
        StepView::Package {
            name: self.name@,
            repository: opt_repository_view(self.repository),
            description: self.description@,
        }
    }
}

fn check_line(name: &str) -> (r: String)
    ensures
        r@ == package_check(name@),
{
    let mut line = String::from_str("dpkg -s ");
    line.append(name);
    line.append(" >/dev/null 2>&1");
    line
}

impl InstallPackage {
    /// A package step without a repository.
    pub fn new(name: &str) -> (r: Self)
        ensures
            r@ == (StepView::Package {
                name: name@,
                repository: None,
                description: package_description(name@),
            }),
    {
        let mut description = String::from_str("Install ");
        description.append(name);
        InstallPackage { name: String::from_str(name), repository: None, description }
    }

    /// Sets the external repository that holds the package.
    pub fn with_repository(self, repo: Repository) -> (r: Self)
        ensures
            r@ == (StepView::Package {
                name: self.name@,
                repository: Some(repo@),
                description: self.description@,
            }),
    {
        InstallPackage { name: self.name, repository: Some(repo), description: self.description }
    }
}

impl Step for InstallPackage {
    open spec fn model(&self) -> StepView {
        self@
    }

    fn description(&self) -> (r: &str) {
        self.description.as_str()
    }

    fn to_cloud_init(&self) -> (r: CloudInitFragment) {
        let mut runcmd: Vec<String> = Vec::new();
        assert(runcmd.deep_view() =~= Seq::<Seq<char>>::empty());
        match &self.repository {
            Some(repo) => {
                let mut fetch = String::from_str("curl -fsSL ");
                fetch.append(repo.key_url.as_str());
                fetch.append(" | gpg --dearmor -o ");
                fetch.append(repo.keyring_path.as_str());
                push_line(&mut runcmd, fetch);
                let mut source = String::from_str("echo '");
                source.append(repo.repo_line.as_str());
                source.append("' > /etc/apt/sources.list.d/");
                source.append(self.name.as_str());
                source.append(".list");
                push_line(&mut runcmd, source);
                push_line(&mut runcmd, String::from_str("apt-get update"));
                assert(runcmd.deep_view() =~= package_repository_setup(
                    self.name@,
                    opt_repository_view(self.repository),
                ));
            },
            None => {},
        }
        let mut packages: Vec<String> = Vec::new();
        packages.push(self.name.clone());
        let r = CloudInitFragment { packages, write_files: Vec::new(), runcmd };
        assert(r@.packages =~= seq![self.name@]);
        assert(r@.write_files =~= Seq::empty());
        r
    }

    fn to_bash(&self) -> (r: Vec<String>) {
        let name = self.name.as_str();
        let mut cmds: Vec<String> = Vec::new();
        assert(cmds.deep_view() =~= Seq::<Seq<char>>::empty());
        match &self.repository {
            Some(repo) => {
                let mut keyring = String::from_str("if [ ! -f ");
                keyring.append(repo.keyring_path.as_str());
                keyring.append(" ]; then curl -fsSL ");
                keyring.append(repo.key_url.as_str());
                keyring.append(" | gpg --dearmor -o ");
                keyring.append(repo.keyring_path.as_str());
                keyring.append("; fi");
                push_line(&mut cmds, keyring);
                let mut source = String::from_str("if ! grep -q '");
                source.append(repo.repo_line.as_str());
                source.append("' /etc/apt/sources.list.d/*.list 2>/dev/null; then echo '");
                source.append(repo.repo_line.as_str());
                source.append("' > /etc/apt/sources.list.d/");
                source.append(name);
                source.append(".list; apt-get update; fi");
                push_line(&mut cmds, source);
            },
            None => {},
        }
        let mut install = check_line(name);
        install.append(" || apt-get install -y ");
        install.append(name);
        push_line(&mut cmds, install);
        assert(cmds.deep_view() =~= self@.bash());
        cmds
    }

    fn check_command(&self) -> (r: Option<String>) {
        Some(check_line(self.name.as_str()))
    }

    fn into_any(self) -> (r: AnyStep) {
        AnyStep::Package(self)
    }
}

/// Install a package from a file behind a URL.
#[derive(Debug, Clone)]
pub struct InstallDebFromUrl {
    /// Package name, by which the package manager is asked.
    pub name: String,
    /// URL template, which may hold the placeholder `{arch}`.
    pub url_template: String,
    /// A check to use in place of the package query.
    pub custom_check: Option<String>,
    /// Description.
    pub description: String,
}

impl View for InstallDebFromUrl {
    type V = StepView;

    open spec fn view(&self) -> StepView {
        StepView::DebFromUrl {
            name: self.name@,
            url_template: self.url_template@,
            custom_check: opt_view(self.custom_check),
            description: self.description@,
        }
    }
}

/// The step that installs the model runtime.
pub open spec fn ollama_step() -> StepView {
    StepView::DebFromUrl {
        name: "ollama"@,
        url_template: "https://github.com/ollama/ollama/releases/latest/download/ollama-linux-{arch}.deb"@,
        custom_check: Some("command -v ollama >/dev/null 2>&1"@),
        description: deb_description("ollama"@),
    }
}

/// The step that installs the reverse-proxy build.
pub open spec fn tengu_caddy_step() -> StepView {
    StepView::DebFromUrl {
        name: "tengu-caddy"@,
        url_template: "https://github.com/saiden-dev/tengu-caddy/releases/latest/download/tengu-caddy_{arch}.deb"@,
        custom_check: None,
        description: deb_description("tengu-caddy"@),
    }
}

impl InstallDebFromUrl {
    /// A step that installs `name` from `url_template`, guarded by the
    /// package query.
    pub fn new(name: &str, url_template: &str) -> (r: Self)
        ensures
            r@ == (StepView::DebFromUrl {
                name: name@,
                url_template: url_template@,
                custom_check: None,
                description: deb_description(name@),
            }),
    {
        let mut description = String::from_str("Install ");
        description.append(name);
        description.append(" from URL");
        InstallDebFromUrl {
            name: String::from_str(name),
            url_template: String::from_str(url_template),
            custom_check: None,
            description,
        }
    }

    /// Sets a custom check.
    pub fn with_check(self, check: &str) -> (r: Self)
        ensures
            r@ == (StepView::DebFromUrl {
                name: self.name@,
                url_template: self.url_template@,
                custom_check: Some(check@),
                description: self.description@,
            }),
    {
        InstallDebFromUrl {
            name: self.name,
            url_template: self.url_template,
            custom_check: Some(String::from_str(check)),
            description: self.description,
        }
    }

    /// The model runtime, from its release page.
    pub fn ollama() -> (r: Self)
        ensures
            r@ == ollama_step(),
    {
        InstallDebFromUrl::new(
            "ollama",
            "https://github.com/ollama/ollama/releases/latest/download/ollama-linux-{arch}.deb",
        ).with_check("command -v ollama >/dev/null 2>&1")
    }

    /// The reverse-proxy build, from its release page.
    pub fn tengu_caddy() -> (r: Self)
        ensures
            r@ == tengu_caddy_step(),
    {
        InstallDebFromUrl::new(
            "tengu-caddy",
            "https://github.com/saiden-dev/tengu-caddy/releases/latest/download/tengu-caddy_{arch}.deb",
        )
    }
}

impl Step for InstallDebFromUrl {
    open spec fn model(&self) -> StepView {
        self@
    }

    fn description(&self) -> (r: &str) {
        self.description.as_str()
    }

    fn to_cloud_init(&self) -> (r: CloudInitFragment) {
        let name = self.name.as_str();
        let check = match &self.custom_check {
            Some(check) => check.clone(),
            None => check_line(name),
        };
        let mut cmd = String::from_str("if ! ");
        cmd.append(check.as_str());
        cmd.append("; then\n    ARCH=$(dpkg --print-architecture)\n    URL=$(echo '");
        cmd.append(self.url_template.as_str());
        cmd.append("' | sed \"s/{{arch}}/$ARCH/g\")\n    wget -q \"$URL\" -O /tmp/");
        cmd.append(name);
        cmd.append(".deb\n    dpkg -i /tmp/");
        cmd.append(name);
        cmd.append(".deb || apt-get install -f -y\n    rm -f /tmp/");
        cmd.append(name);
        cmd.append(".deb\nfi");
        let mut runcmd: Vec<String> = Vec::new();
        runcmd.push(cmd);
        assert(runcmd.deep_view() =~= seq![
            deb_guarded_install(self.name@, self.url_template@, opt_view(self.custom_check)),
        ]);
        CloudInitFragment::of_commands(runcmd)
    }

    fn to_bash(&self) -> (r: Vec<String>) {
        let name = self.name.as_str();
        let mut cmd = String::from_str("ARCH=$(dpkg --print-architecture)\nURL=$(echo '");
        cmd.append(self.url_template.as_str());
        cmd.append("' | sed \"s/{{arch}}/$ARCH/g\")\nwget -q \"$URL\" -O /tmp/");
        cmd.append(name);
        cmd.append(".deb\ndpkg -i /tmp/");
        cmd.append(name);
        cmd.append(".deb || apt-get install -f -y\nrm -f /tmp/");
        cmd.append(name);
        cmd.append(".deb");
        let mut cmds: Vec<String> = Vec::new();
        cmds.push(cmd);
        assert(cmds.deep_view() =~= self@.bash());
        cmds
    }

    fn check_command(&self) -> (r: Option<String>) {
        match &self.custom_check {
            Some(check) => Some(check.clone()),
            None => Some(check_line(self.name.as_str())),
        }
    }

    fn into_any(self) -> (r: AnyStep) {
        AnyStep::DebFromUrl(self)
    }
}

} // verus!
