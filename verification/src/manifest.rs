//! The manifest: the ordered sequence of steps of one provisioning run,
//! with the metadata of the host that it provisions.

use crate::config::{caddyfile_text, fail2ban_text, platform_config_text, ConfigView, TenguConfig};
use crate::steps::command::RunCommand;
use crate::steps::directory::{directory_description, EnsureDirectory};
use crate::steps::file::{file_description, WriteFile};
use crate::steps::firewall::EnsureFirewall;
use crate::steps::package::{
    deb_description, docker_repository, ollama_step, package_description, postgresql_repository,
    tengu_caddy_step, InstallDebFromUrl, InstallPackage, Repository,
};
use crate::steps::service::{service_description, EnsureService};
use crate::steps::user::{user_description, EnsureUser};
use crate::steps::{AnyStep, RepositoryView, Step, StepView};
use crate::text::{copy_texts, opt_view};
use vstd::prelude::*;
use vstd::string::*;

verus! {

/// Mathematical model of a manifest.
pub ghost struct ManifestView {
    pub hostname: Seq<char>,
    pub fqdn: Option<Seq<char>>,
    pub timezone: Seq<char>,
    pub locale: Seq<char>,
    pub steps: Seq<StepView>,
}

/// Models of a list of steps, in order.
pub open spec fn steps_view(steps: Seq<AnyStep>) -> Seq<StepView> {
    Seq::new(steps.len(), |i: int| steps[i]@)
}

/// The empty manifest for a host.
pub open spec fn empty_manifest(hostname: Seq<char>) -> ManifestView {
    ManifestView {
        hostname,
        fqdn: None,
        timezone: "UTC"@,
        locale: "en_US.UTF-8"@,
        steps: Seq::empty(),
    }
}

/// A package from the distribution.
pub open spec fn package_step(name: Seq<char>) -> StepView {
    StepView::Package { name, repository: None, description: package_description(name) }
}

/// A package from an external repository.
pub open spec fn repository_package_step(name: Seq<char>, repo: RepositoryView) -> StepView {
    StepView::Package { name, repository: Some(repo), description: package_description(name) }
}

/// A directory that belongs to root and that everybody may read.
pub open spec fn system_directory_step(path: Seq<char>) -> StepView {
    StepView::Directory {
        path,
        permissions: Some("0755"@),
        owner: Some("root:root"@),
        description: directory_description(path),
    }
}

/// A file that belongs to root, with the given mode.
pub open spec fn system_file_step(path: Seq<char>, content: Seq<char>, mode: Seq<char>) -> StepView {
    StepView::File {
        path,
        content,
        permissions: Some(mode),
        owner: Some("root:root"@),
        description: file_description(path),
    }
}

/// A service that is enabled and started.
pub open spec fn running_service_step(name: Seq<char>) -> StepView {
    StepView::Service { name, enabled: true, started: true, description: service_description(name) }
}

/// The platform's user: member of the container and sudo groups, with
/// password-less sudo and the configured keys.
pub open spec fn user_phase(c: ConfigView) -> Seq<StepView> {
    seq![
        StepView::User {
            name: c.user,
            groups: seq!["docker"@, "sudo"@],
            shell: "/bin/bash"@,
            sudo: Some("ALL=(ALL) NOPASSWD:ALL"@),
            ssh_keys: c.ssh_keys,
            description: user_description(c.user),
        },
    ]
}

/// The base package set.
pub open spec fn base_package_phase() -> Seq<StepView> {
    seq![
        package_step("curl"@),
        package_step("wget"@),
        package_step("git"@),
        package_step("jq"@),
        package_step("htop"@),
        package_step("vim"@),
        package_step("fail2ban"@),
        package_step("ufw"@),
        package_step("ca-certificates"@),
        package_step("gnupg"@),
        package_step("lsb-release"@),
        package_step("unzip"@),
    ]
}

/// The container runtime and the relational database, from their own
/// repositories.
pub open spec fn repository_package_phase() -> Seq<StepView> {
    seq![
        repository_package_step("docker-ce"@, docker_repository()),
        package_step("docker-ce-cli"@),
        package_step("containerd.io"@),
        package_step("docker-compose-plugin"@),
        repository_package_step("postgresql-16"@, postgresql_repository()),
        package_step("postgresql-16-pgvector"@),
    ]
}

/// The model runtime and the reverse-proxy build, from their release pages.
pub open spec fn url_package_phase() -> Seq<StepView> {
    seq![ollama_step(), tengu_caddy_step()]
}

/// The platform's directories.
pub open spec fn directory_phase() -> Seq<StepView> {
    seq![
        system_directory_step("/etc/tengu"@),
        system_directory_step("/var/lib/tengu"@),
        system_directory_step("/var/lib/tengu/apps"@),
        system_directory_step("/var/lib/tengu/repos"@),
        system_directory_step("/var/log/tengu"@),
        system_directory_step("/etc/caddy/sites"@),
    ]
}

/// The configuration files.
pub open spec fn file_phase(c: ConfigView) -> Seq<StepView> {
    seq![
        system_file_step("/etc/tengu/config.toml"@, platform_config_text(c), "0600"@),
        system_file_step("/etc/caddy/Caddyfile"@, caddyfile_text(c), "0644"@),
        system_file_step("/etc/fail2ban/jail.local"@, fail2ban_text(), "0644"@),
    ]
}

/// The firewall: SSH, HTTP and HTTPS are allowed.
pub open spec fn firewall_phase() -> Seq<StepView> {
    seq![
        StepView::Firewall {
            rules: seq!["22/tcp"@, "80/tcp"@, "443/tcp"@],
            default_incoming: "deny"@,
            default_outgoing: "allow"@,
            description: "Configure firewall"@,
        },
    ]
}

/// The services, and the model runtime's service by guarded commands.
pub open spec fn service_phase() -> Seq<StepView> {
    seq![
        running_service_step("docker"@),
        running_service_step("postgresql"@),
        running_service_step("fail2ban"@),
        running_service_step("caddy"@),
        StepView::Command {
            description: "Enable ollama service"@,
            command: "systemctl enable ollama || true"@,
            unless: Some("systemctl is-enabled ollama >/dev/null 2>&1"@),
        },
        StepView::Command {
            description: "Start ollama service"@,
            command: "systemctl start ollama || true"@,
            unless: Some("systemctl is-active ollama >/dev/null 2>&1"@),
        },
    ]
}

/// Where the platform's own package is fetched from: the latest release
/// where no release is configured, else the configured one.
pub open spec fn payload_url(release: Seq<char>) -> Seq<char> {
    if release.len() == 0 {
        "https://github.com/saiden-dev/tengu/releases/latest/download/tengu_{arch}.deb"@
    } else {
        "https://github.com/saiden-dev/tengu/releases/download/"@ + release + "/tengu_{arch}.deb"@
    }
}

/// The platform's own package and its service.
pub open spec fn payload_phase(c: ConfigView) -> Seq<StepView> {
    seq![
        StepView::DebFromUrl {
            name: "tengu"@,
            url_template: payload_url(c.release),
            custom_check: None,
            description: deb_description("tengu"@),
        },
        running_service_step("tengu"@),
    ]
}

/// The database bootstrap: database, role, privileges and extension, each
/// a command of its own, and each guarded by a query of the system
/// catalogs.
pub open spec fn bootstrap_phase() -> Seq<StepView> {
    seq![
        StepView::Command {
            description: "Create tengu PostgreSQL database"@,
            command: "sudo -u postgres psql -c \"CREATE DATABASE tengu;\" 2>/dev/null || true"@,
            unless: Some("sudo -u postgres psql -lqt | cut -d \\| -f 1 | grep -qw tengu"@),
        },
        StepView::Command {
            description: "Create tengu PostgreSQL user"@,
            command: "sudo -u postgres psql -c \"CREATE USER tengu WITH PASSWORD 'tengu';\" 2>/dev/null || true"@,
            unless: Some(
                "sudo -u postgres psql -tAc \"SELECT 1 FROM pg_roles WHERE rolname='tengu'\" | grep -q 1"@,
            ),
        },
        StepView::Command {
            description: "Grant PostgreSQL privileges to tengu"@,
            command: "sudo -u postgres psql -c \"GRANT ALL PRIVILEGES ON DATABASE tengu TO tengu;\""@,
            unless: Some(
                "sudo -u postgres psql -tAc \"SELECT has_database_privilege('tengu', 'tengu', 'CREATE')\" | grep -qx t"@,
            ),
        },
        StepView::Command {
            description: "Enable pgvector extension"@,
            command: "sudo -u postgres psql -d tengu -c \"CREATE EXTENSION IF NOT EXISTS vector;\""@,
            unless: Some(
                "sudo -u postgres psql -d tengu -tAc \"SELECT 1 FROM pg_extension WHERE extname='vector'\" | grep -q 1"@,
            ),
        },
    ]
}

/// The full installation sequence for a configuration, phase by phase.
pub open spec fn tengu_steps(c: ConfigView) -> Seq<StepView> {
    user_phase(c) + base_package_phase() + repository_package_phase() + url_package_phase()
        + directory_phase() + file_phase(c) + firewall_phase() + service_phase() + payload_phase(c)
        + bootstrap_phase()
}

/// The installation manifest for a configuration.
pub open spec fn tengu_manifest(c: ConfigView) -> ManifestView {
    ManifestView {
        hostname: "tengu"@,
        fqdn: Some("api."@ + c.domain_platform),
        timezone: "UTC"@,
        locale: "en_US.UTF-8"@,
        steps: tengu_steps(c),
    }
}

/// The number of steps of every installation manifest.
pub open spec fn tengu_step_count() -> nat {
    43
}

/// An ordered sequence of steps with the metadata of the host.
#[derive(Debug, Clone)]
pub struct Manifest {
    /// Host name.
    pub hostname: String,
    /// Fully qualified domain name.
    pub fqdn: Option<String>,
    /// Time zone.
    pub timezone: String,
    /// Locale.
    pub locale: String,
    /// The steps, in the order in which they are applied.
    pub steps: Vec<AnyStep>,
}

impl View for Manifest {
    type V = ManifestView;

    open spec fn view(&self) -> ManifestView {
        ManifestView {
            hostname: self.hostname@,
            fqdn: opt_view(self.fqdn),
            timezone: self.timezone@,
            locale: self.locale@,
            steps: steps_view(self.steps@),
        }
    }
}

impl Manifest {
    /// An empty manifest for a host, in UTC and with the US English locale.
    pub fn new(hostname: &str) -> (r: Self)
        ensures
            r@ == empty_manifest(hostname@),
    {
        let r = Manifest {
            hostname: String::from_str(hostname),
            fqdn: None,
            timezone: String::from_str("UTC"),
            locale: String::from_str("en_US.UTF-8"),
            steps: Vec::new(),
        };
        assert(r@.steps =~= Seq::empty());
        r
    }

    /// Sets the fully qualified domain name.
    pub fn with_fqdn(self, fqdn: &str) -> (r: Self)
        ensures
            r@ == (ManifestView { fqdn: Some(fqdn@), ..self@ }),
    {
        Manifest {
            hostname: self.hostname,
            fqdn: Some(String::from_str(fqdn)),
            timezone: self.timezone,
            locale: self.locale,
            steps: self.steps,
        }
    }

    /// Sets the time zone.
    pub fn with_timezone(self, timezone: &str) -> (r: Self)
        ensures
            r@ == (ManifestView { timezone: timezone@, ..self@ }),
    {
        Manifest {
            hostname: self.hostname,
            fqdn: self.fqdn,
            timezone: String::from_str(timezone),
            locale: self.locale,
            steps: self.steps,
        }
    }

    /// Sets the locale.
    pub fn with_locale(self, locale: &str) -> (r: Self)
        ensures
            r@ == (ManifestView { locale: locale@, ..self@ }),
    {
        Manifest {
            hostname: self.hostname,
            fqdn: self.fqdn,
            timezone: self.timezone,
            locale: String::from_str(locale),
            steps: self.steps,
        }
    }

    /// Appends a step: it runs after all steps added before.
    pub fn add_step<S: Step>(&mut self, step: S)
        ensures
            final(self)@ == (ManifestView {
                steps: old(self)@.steps.push(step.model()),
                ..old(self)@
            }),
    {
        self.steps.push(step.into_any());
        assert(steps_view(self.steps@) =~= steps_view(old(self).steps@).push(step.model()));
    }

    /// Appends a step and hands the manifest back.
    pub fn with_step<S: Step>(self, step: S) -> (r: Self)
        ensures
            r@ == (ManifestView { steps: self@.steps.push(step.model()), ..self@ }),
    {
        let mut manifest = self;
        manifest.add_step(step);
        manifest
    }

    /// The number of steps.
    pub fn step_count(&self) -> (n: usize)
        ensures
            n == self@.steps.len(),
    {
        self.steps.len()
    }
}

impl Manifest {
    fn add_user_phase(&mut self, config: &TenguConfig)
        ensures
            final(self)@ == (ManifestView {
                steps: old(self)@.steps + user_phase(config@),
                ..old(self)@
            }),
    {
        let mut groups: Vec<String> = Vec::new();
        groups.push(String::from_str("docker"));
        groups.push(String::from_str("sudo"));
        assert(groups.deep_view() =~= seq!["docker"@, "sudo"@]);
        let keys = copy_texts(&config.ssh_keys);
        self.add_step(
            EnsureUser::new(config.user.as_str()).with_groups(groups).with_sudo(
                "ALL=(ALL) NOPASSWD:ALL",
            ).with_ssh_keys(keys),
        );
        assert(self@.steps =~= old(self)@.steps + user_phase(config@));
    }

    fn add_base_package_phase(&mut self)
        ensures
            final(self)@ == (ManifestView {
                steps: old(self)@.steps + base_package_phase(),
                ..old(self)@
            }),
    {
        self.add_step(InstallPackage::new("curl"));
        self.add_step(InstallPackage::new("wget"));
        self.add_step(InstallPackage::new("git"));
        self.add_step(InstallPackage::new("jq"));
        self.add_step(InstallPackage::new("htop"));
        self.add_step(InstallPackage::new("vim"));
        self.add_step(InstallPackage::new("fail2ban"));
        self.add_step(InstallPackage::new("ufw"));
        self.add_step(InstallPackage::new("ca-certificates"));
        self.add_step(InstallPackage::new("gnupg"));
        self.add_step(InstallPackage::new("lsb-release"));
        self.add_step(InstallPackage::new("unzip"));
        assert(self@.steps =~= old(self)@.steps + base_package_phase());
    }

    fn add_repository_package_phase(&mut self)
        ensures
            final(self)@ == (ManifestView {
                steps: old(self)@.steps + repository_package_phase(),
                ..old(self)@
            }),
    {
        self.add_step(InstallPackage::new("docker-ce").with_repository(Repository::docker()));
        self.add_step(InstallPackage::new("docker-ce-cli"));
        self.add_step(InstallPackage::new("containerd.io"));
        self.add_step(InstallPackage::new("docker-compose-plugin"));
        self.add_step(
            InstallPackage::new("postgresql-16").with_repository(Repository::postgresql()),
        );
        self.add_step(InstallPackage::new("postgresql-16-pgvector"));
        assert(self@.steps =~= old(self)@.steps + repository_package_phase());
    }

    fn add_url_package_phase(&mut self)
        ensures
            final(self)@ == (ManifestView {
                steps: old(self)@.steps + url_package_phase(),
                ..old(self)@
            }),
    {
        self.add_step(InstallDebFromUrl::ollama());
        self.add_step(InstallDebFromUrl::tengu_caddy());
        assert(self@.steps =~= old(self)@.steps + url_package_phase());
    }

    fn add_system_directory(&mut self, path: &str)
        ensures
            final(self)@ == (ManifestView {
                steps: old(self)@.steps.push(system_directory_step(path@)),
                ..old(self)@
            }),
    {
        self.add_step(EnsureDirectory::new(path).with_permissions("0755").with_owner("root:root"));
    }

    fn add_directory_phase(&mut self)
        ensures
            final(self)@ == (ManifestView {
                steps: old(self)@.steps + directory_phase(),
                ..old(self)@
            }),
    {
        self.add_system_directory("/etc/tengu");
        self.add_system_directory("/var/lib/tengu");
        self.add_system_directory("/var/lib/tengu/apps");
        self.add_system_directory("/var/lib/tengu/repos");
        self.add_system_directory("/var/log/tengu");
        self.add_system_directory("/etc/caddy/sites");
        assert(self@.steps =~= old(self)@.steps + directory_phase());
    }

    fn add_system_file(&mut self, path: &str, content: &str, mode: &str)
        ensures
            final(self)@ == (ManifestView {
                steps: old(self)@.steps.push(system_file_step(path@, content@, mode@)),
                ..old(self)@
            }),
    {
        self.add_step(WriteFile::new(path, content).with_permissions(mode).with_owner("root:root"));
    }

    fn add_file_phase(&mut self, config: &TenguConfig)
        ensures
            final(self)@ == (ManifestView {
                steps: old(self)@.steps + file_phase(config@),
                ..old(self)@
            }),
    {
        self.add_system_file(
            "/etc/tengu/config.toml",
            config.tengu_config_toml().as_str(),
            "0600",
        );
        self.add_system_file("/etc/caddy/Caddyfile", config.caddyfile().as_str(), "0644");
        self.add_system_file(
            "/etc/fail2ban/jail.local",
            config.fail2ban_config().as_str(),
            "0644",
        );
        assert(self@.steps =~= old(self)@.steps + file_phase(config@));
    }

    fn add_firewall_phase(&mut self)
        ensures
            final(self)@ == (ManifestView {
                steps: old(self)@.steps + firewall_phase(),
                ..old(self)@
            }),
    {
        let firewall = EnsureFirewall::new().allow("22/tcp").allow("80/tcp").allow("443/tcp");
        assert(firewall@->Firewall_rules =~= seq!["22/tcp"@, "80/tcp"@, "443/tcp"@]);
        self.add_step(firewall);
        assert(self@.steps =~= old(self)@.steps + firewall_phase());
    }

    fn add_service_phase(&mut self)
        ensures
            final(self)@ == (ManifestView {
                steps: old(self)@.steps + service_phase(),
                ..old(self)@
            }),
    {
        self.add_step(EnsureService::new("docker"));
        self.add_step(EnsureService::new("postgresql"));
        self.add_step(EnsureService::new("fail2ban"));
        self.add_step(EnsureService::new("caddy"));
        self.add_step(
            RunCommand::new("Enable ollama service", "systemctl enable ollama || true").unless(
                "systemctl is-enabled ollama >/dev/null 2>&1",
            ),
        );
        self.add_step(
            RunCommand::new("Start ollama service", "systemctl start ollama || true").unless(
                "systemctl is-active ollama >/dev/null 2>&1",
            ),
        );
        assert(self@.steps =~= old(self)@.steps + service_phase());
    }

    fn add_payload_phase(&mut self, config: &TenguConfig)
        ensures
            final(self)@ == (ManifestView {
                steps: old(self)@.steps + payload_phase(config@),
                ..old(self)@
            }),
    {
        let url = if config.release.as_str().is_empty() {
            String::from_str(
                "https://github.com/saiden-dev/tengu/releases/latest/download/tengu_{arch}.deb",
            )
        } else {
            let mut url = String::from_str(
                "https://github.com/saiden-dev/tengu/releases/download/",
            );
            url.append(config.release.as_str());
            url.append("/tengu_{arch}.deb");
            url
        };
        self.add_step(InstallDebFromUrl::new("tengu", url.as_str()));
        self.add_step(EnsureService::new("tengu"));
        assert(self@.steps =~= old(self)@.steps + payload_phase(config@));
    }

    fn add_bootstrap_phase(&mut self)
        ensures
            final(self)@ == (ManifestView {
                steps: old(self)@.steps + bootstrap_phase(),
                ..old(self)@
            }),
    {
        self.add_step(
            RunCommand::new(
                "Create tengu PostgreSQL database",
                "sudo -u postgres psql -c \"CREATE DATABASE tengu;\" 2>/dev/null || true",
            ).unless("sudo -u postgres psql -lqt | cut -d \\| -f 1 | grep -qw tengu"),
        );
        self.add_step(
            RunCommand::new(
                "Create tengu PostgreSQL user",
                "sudo -u postgres psql -c \"CREATE USER tengu WITH PASSWORD 'tengu';\" 2>/dev/null || true",
            ).unless(
                "sudo -u postgres psql -tAc \"SELECT 1 FROM pg_roles WHERE rolname='tengu'\" | grep -q 1",
            ),
        );
        self.add_step(
            RunCommand::new(
                "Grant PostgreSQL privileges to tengu",
                "sudo -u postgres psql -c \"GRANT ALL PRIVILEGES ON DATABASE tengu TO tengu;\"",
            ).unless(
                "sudo -u postgres psql -tAc \"SELECT has_database_privilege('tengu', 'tengu', 'CREATE')\" | grep -qx t",
            ),
        );
        self.add_step(
            RunCommand::new(
                "Enable pgvector extension",
                "sudo -u postgres psql -d tengu -c \"CREATE EXTENSION IF NOT EXISTS vector;\"",
            ).unless(
                "sudo -u postgres psql -d tengu -tAc \"SELECT 1 FROM pg_extension WHERE extname='vector'\" | grep -q 1",
            ),
        );
        assert(self@.steps =~= old(self)@.steps + bootstrap_phase());
    }

    /// The complete installation manifest for a configuration: the same
    /// configuration always gives the same steps in the same order.
    pub fn tengu(config: &TenguConfig) -> (r: Self)
        ensures
            r@ == tengu_manifest(config@),
            r@.steps.len() == tengu_step_count(),
    {
        let mut fqdn = String::from_str("api.");
        fqdn.append(config.domain_platform.as_str());
        let mut manifest = Manifest::new("tengu").with_fqdn(fqdn.as_str()).with_timezone("UTC");
        manifest.add_user_phase(config);
        manifest.add_base_package_phase();
        manifest.add_repository_package_phase();
        manifest.add_url_package_phase();
        manifest.add_directory_phase();
        manifest.add_file_phase(config);
        manifest.add_firewall_phase();
        manifest.add_service_phase();
        manifest.add_payload_phase(config);
        manifest.add_bootstrap_phase();
        assert(manifest@.steps =~= tengu_steps(config@));
        proof {
            lemma_tengu_step_count(config@);
        }
        manifest
    }
}

/// Each of the four commands of the database bootstrap is guarded: the
/// last four steps of every installation manifest are those commands, and
/// each has a guard.
pub proof fn lemma_bootstrap_is_guarded(c: ConfigView, i: int)
    requires
        0 <= i < 4,
    ensures
        bootstrap_phase().len() == 4,
        tengu_manifest(c).steps[tengu_step_count() - 4 + i] == bootstrap_phase()[i],
        bootstrap_phase()[i] is Command,
        bootstrap_phase()[i].check() is Some,
{
    let before = user_phase(c) + base_package_phase() + repository_package_phase()
        + url_package_phase() + directory_phase() + file_phase(c) + firewall_phase()
        + service_phase() + payload_phase(c);
    assert(before.len() == 39);
    assert(tengu_steps(c) == before + bootstrap_phase());
}

/// Every installation manifest has the same number of steps, whatever the
/// configuration: a count taken from one assembly holds for every other
/// assembly.
pub proof fn lemma_tengu_step_count(c: ConfigView)
    ensures
        tengu_manifest(c).steps.len() == tengu_step_count(),
{
}

impl Default for Manifest {
    fn default() -> (r: Self)
        ensures
            r@ == empty_manifest("tengu"@),
    {
        Manifest::new("tengu")
    }
}

} // verus!
