//! Resolved installation parameters and the configuration files that are
//! derived from them.

use vstd::prelude::*;
use vstd::string::*;

verus! {

/// Mathematical model of a configuration.
pub ghost struct ConfigView {
    pub user: Seq<char>,
    pub domain_platform: Seq<char>,
    pub domain_apps: Seq<char>,
    pub cf_api_key: Seq<char>,
    pub cf_email: Seq<char>,
    pub resend_api_key: Seq<char>,
    pub notify_email: Seq<char>,
    pub ssh_keys: Seq<Seq<char>>,
    pub release: Seq<char>,
}

/// The configuration in which every text is empty and no key is given.
pub open spec fn empty_config() -> ConfigView {
    ConfigView {
        user: Seq::empty(),
        domain_platform: Seq::empty(),
        domain_apps: Seq::empty(),
        cf_api_key: Seq::empty(),
        cf_email: Seq::empty(),
        resend_api_key: Seq::empty(),
        notify_email: Seq::empty(),
        ssh_keys: Seq::empty(),
        release: Seq::empty(),
    }
}

/// Content of the intrusion-prevention jail file.
pub open spec fn fail2ban_text() -> Seq<char> {
    "[sshd]\nenabled = true\nport = ssh\nfilter = sshd\nlogpath = /var/log/auth.log\nmaxretry = 3\nbantime = 3600\nfindtime = 600\n"@
}

/// Content of the platform's configuration file.
pub open spec fn platform_config_text(c: ConfigView) -> Seq<char> {
    "# Tengu PaaS Configuration\ndomain = \""@ + c.domain_apps
        + "\"\n\n[cloudflare]\napi_key = \""@ + c.cf_api_key + "\"\nemail = \""@ + c.cf_email
        + "\"\n\n[cloudflare.domains]\nplatform = \""@ + c.domain_platform + "\"\napps = \""@
        + c.domain_apps + "\"\n\n[cloudflare.services]\napi = \"api."@ + c.domain_platform
        + "\"\ndocs = \"docs."@ + c.domain_platform + "\"\ngit = \"git."@ + c.domain_platform
        + "\"\nssh = \"ssh."@ + c.domain_platform + "\"\n"@
}

/// Content of the reverse proxy's configuration file.
pub open spec fn caddyfile_text(c: ConfigView) -> Seq<char> {
    "{\n    email "@ + c.cf_email + "\n}\n\nimport sites/*.caddy\n\napi."@ + c.domain_platform
        + " {\n    reverse_proxy localhost:8080\n}\n\ndocs."@ + c.domain_platform
        + " {\n    reverse_proxy localhost:8080\n}\n\ngit."@ + c.domain_platform
        + " {\n    reverse_proxy localhost:8080\n}\n"@
}

/// The configuration that the examples and tests use.
pub open spec fn test_config_view() -> ConfigView {
    ConfigView {
        user: "testuser"@,
        domain_platform: "test.example.com"@,
        domain_apps: "apps.example.com"@,
        cf_api_key: "test-api-key"@,
        cf_email: "test@example.com"@,
        resend_api_key: "re_test"@,
        notify_email: "notify@example.com"@,
        ssh_keys: seq!["ssh-ed25519 AAAA... test@test"@],
        release: "v0.1.0-test"@,
    }
}

/// Configuration of one installation.
#[derive(Debug, Clone)]
pub struct TenguConfig {
    /// System user name.
    pub user: String,
    /// Platform domain.
    pub domain_platform: String,
    /// Apps domain.
    pub domain_apps: String,
    /// Cloudflare API key.
    pub cf_api_key: String,
    /// Cloudflare account email.
    pub cf_email: String,
    /// Resend API key.
    pub resend_api_key: String,
    /// Notification email.
    pub notify_email: String,
    /// SSH public keys.
    pub ssh_keys: Vec<String>,
    /// Release tag of the platform.
    pub release: String,
}

impl View for TenguConfig {
    type V = ConfigView;

    open spec fn view(&self) -> ConfigView {
        ConfigView {
            user: self.user@,
            domain_platform: self.domain_platform@,
            domain_apps: self.domain_apps@,
            cf_api_key: self.cf_api_key@,
            cf_email: self.cf_email@,
            resend_api_key: self.resend_api_key@,
            notify_email: self.notify_email@,
            ssh_keys: self.ssh_keys.deep_view(),
            release: self.release@,
        }
    }
}

impl Default for TenguConfig {
    fn default() -> (r: Self)
        ensures
            r@ == empty_config(),
    {
        let r = TenguConfig {
            user: String::new(),
            domain_platform: String::new(),
            domain_apps: String::new(),
            cf_api_key: String::new(),
            cf_email: String::new(),
            resend_api_key: String::new(),
            notify_email: String::new(),
            ssh_keys: Vec::new(),
            release: String::new(),
        };
        assert(r.ssh_keys.deep_view() =~= Seq::empty());
        r
    }
}

impl TenguConfig {
    /// A builder that starts from the empty configuration.
    pub fn builder() -> (r: TenguConfigBuilder)
        ensures
            r@ == empty_config(),
    {
        TenguConfigBuilder::default()
    }

    /// The intrusion-prevention jail file.
    pub fn fail2ban_config(&self) -> (r: String)
        ensures
            r@ == fail2ban_text(),
    {
        String::from_str(
            "[sshd]\nenabled = true\nport = ssh\nfilter = sshd\nlogpath = /var/log/auth.log\nmaxretry = 3\nbantime = 3600\nfindtime = 600\n",
        )
    }

    /// The platform's configuration file.
    pub fn tengu_config_toml(&self) -> (r: String)
        ensures
            r@ == platform_config_text(self@),
    {
        let platform = self.domain_platform.as_str();
        let mut out = String::from_str("# Tengu PaaS Configuration\ndomain = \"");
        out.append(self.domain_apps.as_str());
        out.append("\"\n\n[cloudflare]\napi_key = \"");
        out.append(self.cf_api_key.as_str());
        out.append("\"\nemail = \"");
        out.append(self.cf_email.as_str());
        out.append("\"\n\n[cloudflare.domains]\nplatform = \"");
        out.append(platform);
        out.append("\"\napps = \"");
        out.append(self.domain_apps.as_str());
        out.append("\"\n\n[cloudflare.services]\napi = \"api.");
        out.append(platform);
        out.append("\"\ndocs = \"docs.");
        out.append(platform);
        out.append("\"\ngit = \"git.");
        out.append(platform);
        out.append("\"\nssh = \"ssh.");
        out.append(platform);
        out.append("\"\n");
        out
    }

    /// The reverse proxy's configuration file.
    pub fn caddyfile(&self) -> (r: String)
        ensures
            r@ == caddyfile_text(self@),
    {
        let platform = self.domain_platform.as_str();
        let mut out = String::from_str("{\n    email ");
        out.append(self.cf_email.as_str());
        out.append("\n}\n\nimport sites/*.caddy\n\napi.");
        out.append(platform);
        out.append(" {\n    reverse_proxy localhost:8080\n}\n\ndocs.");
        out.append(platform);
        out.append(" {\n    reverse_proxy localhost:8080\n}\n\ngit.");
        out.append(platform);
        out.append(" {\n    reverse_proxy localhost:8080\n}\n");
        out
    }

    /// A fixed configuration for examples and tests.
    pub fn test_config() -> (r: Self)
        ensures
            r@ == test_config_view(),
    {
        let mut ssh_keys: Vec<String> = Vec::new();
        ssh_keys.push(String::from_str("ssh-ed25519 AAAA... test@test"));
        assert(ssh_keys.deep_view() =~= seq!["ssh-ed25519 AAAA... test@test"@]);
        TenguConfig {
            user: String::from_str("testuser"),
            domain_platform: String::from_str("test.example.com"),
            domain_apps: String::from_str("apps.example.com"),
            cf_api_key: String::from_str("test-api-key"),
            cf_email: String::from_str("test@example.com"),
            resend_api_key: String::from_str("re_test"),
            notify_email: String::from_str("notify@example.com"),
            ssh_keys,
            release: String::from_str("v0.1.0-test"),
        }
    }
}

/// Builder of a configuration: each method sets one field and keeps the
/// others.
#[derive(Debug, Clone)]
pub struct TenguConfigBuilder {
    pub config: TenguConfig,
}

impl View for TenguConfigBuilder {
    type V = ConfigView;

    open spec fn view(&self) -> ConfigView {
        self.config@
    }
}

impl Default for TenguConfigBuilder {
    fn default() -> (r: Self)
        ensures
            r@ == empty_config(),
    {
        TenguConfigBuilder { config: TenguConfig::default() }
    }
}

impl TenguConfigBuilder {
    /// Sets the system user name.
    pub fn user(self, user: &str) -> (r: Self)
        ensures
            r@ == (ConfigView { user: user@, ..self@ }),
    {
        let mut config = self.config;
        config.user = String::from_str(user);
        TenguConfigBuilder { config }
    }

    /// Sets the platform domain.
    pub fn domain_platform(self, domain: &str) -> (r: Self)
        ensures
            r@ == (ConfigView { domain_platform: domain@, ..self@ }),
    {
        let mut config = self.config;
        config.domain_platform = String::from_str(domain);
        TenguConfigBuilder { config }
    }

    /// Sets the apps domain.
    pub fn domain_apps(self, domain: &str) -> (r: Self)
        ensures
            r@ == (ConfigView { domain_apps: domain@, ..self@ }),
    {
        let mut config = self.config;
        config.domain_apps = String::from_str(domain);
        TenguConfigBuilder { config }
    }

    /// Sets the Cloudflare API key.
    pub fn cf_api_key(self, key: &str) -> (r: Self)
        ensures
            r@ == (ConfigView { cf_api_key: key@, ..self@ }),
    {
        let mut config = self.config;
        config.cf_api_key = String::from_str(key);
        TenguConfigBuilder { config }
    }

    /// Sets the Cloudflare account email.
    pub fn cf_email(self, email: &str) -> (r: Self)
        ensures
            r@ == (ConfigView { cf_email: email@, ..self@ }),
    {
        let mut config = self.config;
        config.cf_email = String::from_str(email);
        TenguConfigBuilder { config }
    }

    /// Sets the Resend API key.
    pub fn resend_api_key(self, key: &str) -> (r: Self)
        ensures
            r@ == (ConfigView { resend_api_key: key@, ..self@ }),
    {
        let mut config = self.config;
        config.resend_api_key = String::from_str(key);
        TenguConfigBuilder { config }
    }

    /// Sets the notification email.
    pub fn notify_email(self, email: &str) -> (r: Self)
        ensures
            r@ == (ConfigView { notify_email: email@, ..self@ }),
    {
        let mut config = self.config;
        config.notify_email = String::from_str(email);
        TenguConfigBuilder { config }
    }

    /// Sets the SSH public keys.
    pub fn ssh_keys(self, keys: Vec<String>) -> (r: Self)
        ensures
            r@ == (ConfigView { ssh_keys: keys.deep_view(), ..self@ }),
    {
        let mut config = self.config;
        config.ssh_keys = keys;
        TenguConfigBuilder { config }
    }

    /// Sets the release tag.
    pub fn release(self, release: &str) -> (r: Self)
        ensures
            r@ == (ConfigView { release: release@, ..self@ }),
    {
        let mut config = self.config;
        config.release = String::from_str(release);
        TenguConfigBuilder { config }
    }

    /// The configuration that was built.
    pub fn build(self) -> (r: TenguConfig)
        ensures
            r@ == self@,
    {
        self.config
    }
}

} // verus!
