use sha2::Digest;
use tengu_provision::steps::file::{digest_guard_command, write_command};
use tengu_provision::steps::{
    AnyStep, EnsureDirectory, EnsureFirewall, EnsureService, EnsureUser, InstallDebFromUrl,
    InstallPackage, Repository, RunCommand, UfwRule, WriteFile,
};
use tengu_provision::{BashRenderer, CloudInitRenderer, Manifest, Renderer, Step, TenguConfig};

#[test]
fn test_install_package_idempotent() {
    let step = InstallPackage::new("vim");
    let bash = step.to_bash();

    assert_eq!(bash.len(), 1);
    assert!(bash[0].contains("dpkg -s vim"));
    assert!(bash[0].contains("apt-get install -y vim"));
}

#[test]
fn test_ensure_user_creates_user() {
    let step = EnsureUser::new("testuser")
        .with_groups(vec!["docker".to_string(), "sudo".to_string()])
        .with_sudo("ALL=(ALL) NOPASSWD:ALL");

    let bash = step.to_bash();

    assert!(bash
        .iter()
        .any(|c| c.contains("id testuser") && c.contains("useradd")));
    assert!(bash
        .iter()
        .any(|c| c.contains("docker") && c.contains("usermod")));
    assert!(bash.iter().any(|c| c.contains("/etc/sudoers.d/testuser")));
}

#[test]
fn test_write_file_uses_checksum() {
    let step = WriteFile::new("/etc/test.conf", "test content").with_permissions("0644");

    let bash = step.to_bash();
    let check = step.check_command();

    assert!(bash.iter().any(|c| c.contains("sha256sum")));
    assert!(check.is_some());
    assert!(check.unwrap().contains("sha256sum"));
}

#[test]
fn test_ensure_directory_idempotent() {
    let step = EnsureDirectory::new("/var/lib/tengu")
        .with_permissions("0755")
        .with_owner("root:root");

    let check = step.check_command();
    assert!(check.is_some());
    assert!(check.unwrap().contains("[ -d /var/lib/tengu ]"));
}

#[test]
fn test_ensure_service_idempotent() {
    let step = EnsureService::new("docker");
    let bash = step.to_bash();

    assert!(bash.iter().any(|c| c.contains("systemctl is-enabled")));
    assert!(bash.iter().any(|c| c.contains("systemctl is-active")));
}

#[test]
fn test_run_command_with_unless() {
    let step = RunCommand::new("Create directory", "mkdir /test").unless("[ -d /test ]");

    let bash = step.to_bash();
    let check = step.check_command();

    assert!(bash[0].contains("[ -d /test ] || { mkdir /test; }"));
    assert_eq!(check, Some("[ -d /test ]".to_string()));
}

#[test]
fn test_manifest_tengu_has_all_phases() {
    let config = TenguConfig::test_config();
    let manifest = Manifest::tengu(&config);

    assert!(
        manifest.steps.len() > 20,
        "Expected many steps, got {}",
        manifest.steps.len()
    );

    let descriptions: Vec<&str> = manifest.steps.iter().map(|s| s.description()).collect();

    assert!(descriptions.iter().any(|d| d.contains("user")));
    assert!(descriptions.iter().any(|d| d.contains("curl")));
    assert!(descriptions.iter().any(|d| d.contains("docker")));
    assert!(descriptions.iter().any(|d| d.contains("postgresql")));
    assert!(descriptions
        .iter()
        .any(|d| d.contains("firewall") || d.contains("Firewall")));
}

#[test]
fn test_bash_renderer_verbose() {
    let config = TenguConfig::test_config();
    let manifest = Manifest::tengu(&config);
    let renderer = BashRenderer::new().verbose(true);

    let script = renderer.render(&manifest).unwrap();

    assert!(script.contains("TENGU_STEP:START"));
    assert!(script.contains("TENGU_STEP:DONE"));
    assert!(script.contains("TENGU_STEP:SKIP"));
    assert!(script.contains("GREEN="));
}

#[test]
fn test_bash_renderer_no_color() {
    let config = TenguConfig::test_config();
    let manifest = Manifest::tengu(&config);
    let renderer = BashRenderer::new().verbose(true).color(false);

    let script = renderer.render(&manifest).unwrap();

    assert!(script.contains("TENGU_STEP:START"));
    assert!(!script.contains("GREEN="));
}

#[test]
fn test_cloud_init_renderer() {
    let config = TenguConfig::test_config();
    let manifest = Manifest::tengu(&config);
    let renderer = CloudInitRenderer::new();

    let yaml = renderer.render_with_config(&manifest, &config).unwrap();

    assert!(yaml.starts_with("#cloud-config"));
    assert!(yaml.contains("testuser"));
    assert!(yaml.contains("packages:"));
}

#[test]
fn run_command_without_guard_is_the_command() {
    let step = RunCommand::new("List", "ls /");
    assert_eq!(step.description(), "List");
    assert_eq!(step.to_bash(), vec!["ls /".to_string()]);
    assert_eq!(step.check_command(), None);
    let fragment = step.to_cloud_init();
    assert!(fragment.packages.is_empty());
    assert!(fragment.write_files.is_empty());
    assert_eq!(fragment.runcmd, vec!["ls /".to_string()]);
}

#[test]
fn directory_commands_are_exact() {
    let step = EnsureDirectory::new("/var/lib/tengu")
        .with_permissions("0755")
        .with_owner("root:root");
    assert_eq!(step.description(), "Ensure directory /var/lib/tengu");
    assert_eq!(
        step.to_bash(),
        vec![
            "mkdir -p /var/lib/tengu".to_string(),
            "chmod 0755 /var/lib/tengu".to_string(),
            "chown root:root /var/lib/tengu".to_string(),
        ]
    );
    assert_eq!(step.check_command(), Some("[ -d /var/lib/tengu ]".to_string()));
    let bare = EnsureDirectory::new("/x");
    assert_eq!(bare.to_bash(), vec!["mkdir -p /x".to_string()]);
    assert_eq!(bare.to_cloud_init().runcmd, vec!["mkdir -p /x".to_string()]);
}

#[test]
fn install_package_guard_and_document_fragment() {
    let step = InstallPackage::new("vim");
    assert_eq!(step.description(), "Install vim");
    assert_eq!(
        step.check_command(),
        Some("dpkg -s vim >/dev/null 2>&1".to_string())
    );
    assert_eq!(
        step.to_bash(),
        vec!["dpkg -s vim >/dev/null 2>&1 || apt-get install -y vim".to_string()]
    );
    let fragment = step.to_cloud_init();
    assert_eq!(fragment.packages, vec!["vim".to_string()]);
    assert!(fragment.runcmd.is_empty());
    assert!(fragment.write_files.is_empty());
}

#[test]
fn install_package_with_repository_bootstraps_it() {
    let step = InstallPackage::new("docker-ce").with_repository(Repository::docker());
    let bash = step.to_bash();
    assert_eq!(bash.len(), 3);
    assert_eq!(
        bash[0],
        "if [ ! -f /usr/share/keyrings/docker-archive-keyring.gpg ]; then curl -fsSL https://download.docker.com/linux/ubuntu/gpg | gpg --dearmor -o /usr/share/keyrings/docker-archive-keyring.gpg; fi"
    );
    assert!(bash[1].starts_with("if ! grep -q 'deb [arch=$(dpkg --print-architecture) signed-by="));
    assert!(bash[1].ends_with("' > /etc/apt/sources.list.d/docker-ce.list; apt-get update; fi"));
    assert_eq!(bash[2], "dpkg -s docker-ce >/dev/null 2>&1 || apt-get install -y docker-ce");
    let fragment = step.to_cloud_init();
    assert_eq!(fragment.packages, vec!["docker-ce".to_string()]);
    assert_eq!(fragment.runcmd.len(), 3);
    assert_eq!(
        fragment.runcmd[0],
        "curl -fsSL https://download.docker.com/linux/ubuntu/gpg | gpg --dearmor -o /usr/share/keyrings/docker-archive-keyring.gpg"
    );
    assert_eq!(fragment.runcmd[2], "apt-get update");
    let pg = Repository::postgresql();
    assert_eq!(pg.key_url, "https://www.postgresql.org/media/keys/ACCC4CF8.asc");
    assert_eq!(pg.keyring_path, "/usr/share/keyrings/postgresql-archive-keyring.gpg");
}

#[test]
fn deb_from_url_commands_are_exact() {
    let step = InstallDebFromUrl::new("tool", "https://example.com/tool_{arch}.deb");
    assert_eq!(step.description(), "Install tool from URL");
    assert_eq!(
        step.to_bash(),
        vec![
            "ARCH=$(dpkg --print-architecture)\nURL=$(echo 'https://example.com/tool_{arch}.deb' | sed \"s/{{arch}}/$ARCH/g\")\nwget -q \"$URL\" -O /tmp/tool.deb\ndpkg -i /tmp/tool.deb || apt-get install -f -y\nrm -f /tmp/tool.deb"
                .to_string()
        ]
    );
    assert_eq!(
        step.check_command(),
        Some("dpkg -s tool >/dev/null 2>&1".to_string())
    );
    let checked = step.with_check("command -v tool");
    assert_eq!(checked.check_command(), Some("command -v tool".to_string()));
    assert_eq!(
        checked.to_cloud_init().runcmd,
        vec![
            "if ! command -v tool; then\n    ARCH=$(dpkg --print-architecture)\n    URL=$(echo 'https://example.com/tool_{arch}.deb' | sed \"s/{{arch}}/$ARCH/g\")\n    wget -q \"$URL\" -O /tmp/tool.deb\n    dpkg -i /tmp/tool.deb || apt-get install -f -y\n    rm -f /tmp/tool.deb\nfi"
                .to_string()
        ]
    );
    let ollama = InstallDebFromUrl::ollama();
    assert_eq!(ollama.name, "ollama");
    assert_eq!(
        ollama.check_command(),
        Some("command -v ollama >/dev/null 2>&1".to_string())
    );
    let caddy = InstallDebFromUrl::tengu_caddy();
    assert_eq!(caddy.name, "tengu-caddy");
    assert_eq!(caddy.custom_check, None);
}

#[test]
fn service_guards_follow_what_is_asked() {
    let both = EnsureService::new("docker");
    assert_eq!(both.description(), "Ensure service docker");
    assert_eq!(
        both.to_bash(),
        vec![
            "systemctl is-enabled docker >/dev/null 2>&1 || systemctl enable docker".to_string(),
            "systemctl is-active docker >/dev/null 2>&1 || systemctl start docker".to_string(),
        ]
    );
    assert_eq!(
        both.check_command(),
        Some("systemctl is-active docker >/dev/null 2>&1".to_string())
    );
    let enabled_only = EnsureService::new("docker").started(false);
    assert_eq!(enabled_only.to_bash().len(), 1);
    assert_eq!(
        enabled_only.check_command(),
        Some("systemctl is-enabled docker >/dev/null 2>&1".to_string())
    );
    let neither = EnsureService::new("docker").started(false).enabled(false);
    assert!(neither.to_bash().is_empty());
    assert_eq!(neither.check_command(), None);
}

#[test]
fn firewall_commands_are_exact() {
    let step = EnsureFirewall::new().allow("22/tcp").allow("443/tcp");
    assert_eq!(step.description(), "Configure firewall");
    assert_eq!(
        step.to_bash(),
        vec![
            "ufw default deny incoming".to_string(),
            "ufw default allow outgoing".to_string(),
            "ufw allow 22/tcp".to_string(),
            "ufw allow 443/tcp".to_string(),
            "ufw status | grep -q 'Status: active' || ufw --force enable".to_string(),
        ]
    );
    assert_eq!(
        step.check_command(),
        Some("ufw status | grep -q 'Status: active'".to_string())
    );
    let open = EnsureFirewall::default()
        .default_incoming("allow")
        .default_outgoing("deny");
    assert_eq!(open.to_bash()[0], "ufw default allow incoming");
    assert_eq!(open.to_bash()[1], "ufw default deny outgoing");
    assert_eq!(UfwRule::new("80/tcp").allow, "80/tcp");
}

#[test]
fn user_commands_are_exact() {
    let step = EnsureUser::new("ann")
        .with_groups(vec!["docker".to_string(), "sudo".to_string()])
        .with_shell("/bin/zsh")
        .with_sudo("ALL=(ALL) NOPASSWD:ALL")
        .with_ssh_keys(vec!["ssh-ed25519 AAAA ann's key".to_string()]);
    assert_eq!(step.description(), "Ensure user ann exists");
    assert_eq!(step.check_command(), Some("id ann >/dev/null 2>&1".to_string()));
    assert_eq!(
        step.to_bash(),
        vec![
            "id ann >/dev/null 2>&1 || useradd -m -s /bin/zsh ann".to_string(),
            "for g in docker sudo; do getent group $g >/dev/null && usermod -aG $g ann 2>/dev/null || true; done".to_string(),
            "echo 'ann ALL=(ALL) NOPASSWD:ALL' > /etc/sudoers.d/ann && chmod 440 /etc/sudoers.d/ann".to_string(),
            "mkdir -p /home/ann/.ssh && chmod 700 /home/ann/.ssh".to_string(),
            "grep -qF 'ssh-ed25519 AAAA ann'\\''s key' /home/ann/.ssh/authorized_keys 2>/dev/null || echo 'ssh-ed25519 AAAA ann'\\''s key' >> /home/ann/.ssh/authorized_keys".to_string(),
            "chmod 600 /home/ann/.ssh/authorized_keys && chown -R ann:ann /home/ann/.ssh".to_string(),
        ]
    );
    let plain = EnsureUser::new("bob");
    assert_eq!(
        plain.to_bash(),
        vec!["id bob >/dev/null 2>&1 || useradd -m -s /bin/bash bob".to_string()]
    );
}

#[test]
fn write_file_embeds_the_digest_of_its_content() {
    let step = WriteFile::new("/etc/test.conf", "hello");
    assert_eq!(step.description(), "Write /etc/test.conf");
    assert_eq!(
        step.content_hash(),
        "2cf24dba5fb0a30e26e83b2ac5b9e29e1b161e5c1fa7425e73043362938b9824"
    );
    assert_eq!(
        step.check_command(),
        Some(
            "[ -f '/etc/test.conf' ] && [ \"$(sha256sum '/etc/test.conf' | cut -d' ' -f1)\" = \"2cf24dba5fb0a30e26e83b2ac5b9e29e1b161e5c1fa7425e73043362938b9824\" ]"
                .to_string()
        )
    );
    assert_eq!(
        step.to_bash(),
        vec![
            "mkdir -p \"$(dirname '/etc/test.conf')\"".to_string(),
            "CURRENT=$(sha256sum '/etc/test.conf' 2>/dev/null | cut -d' ' -f1 || echo 'none')\nif [ \"$CURRENT\" != \"2cf24dba5fb0a30e26e83b2ac5b9e29e1b161e5c1fa7425e73043362938b9824\" ]; then\n    head -c -1 > '/etc/test.conf' << 'TENGU_EOF'\nhello\nTENGU_EOF\nfi"
                .to_string(),
        ]
    );

    let changed = WriteFile::new("/etc/test.conf", "hello!");
    assert_eq!(
        changed.content_hash(),
        "ce06092fb948d9ffac7d1a376e404b26b7575bcc11ee05a4615fef4fec3a308b"
    );
    assert_ne!(changed.check_command(), step.check_command());
    assert!(changed.to_bash()[1].contains("ce06092fb948d9ffac7d1a376e404b26b7575bcc11ee05a4615fef4fec3a308b"));
    assert!(!changed.to_bash()[1].contains("2cf24dba5fb0a30e26e83b2ac5b9e29e1b161e5c1fa7425e73043362938b9824"));
}

#[test]
fn write_file_digest_is_over_utf8_bytes() {
    assert_eq!(
        WriteFile::new("/x", "").content_hash(),
        "e3b0c44298fc1c149afbf4c8996fb92427ae41e4649b934ca495991b7852b855"
    );
    assert_eq!(
        WriteFile::new("/x", "é").content_hash(),
        "4a99557e4033c3539de2eb65472017cad5f9557f7a0625a09f1c3f6e2ba69c4c"
    );
}

#[test]
fn write_file_mode_and_owner_are_quoted() {
    let step = WriteFile::new("/etc/a b", "x")
        .with_permissions("0600")
        .with_owner("root:root");
    let bash = step.to_bash();
    assert_eq!(bash.len(), 4);
    assert_eq!(bash[2], "chmod 0600 '/etc/a b'");
    assert_eq!(bash[3], "chown root:root '/etc/a b'");
    let fragment = step.to_cloud_init();
    assert_eq!(fragment.write_files.len(), 1);
    assert_eq!(fragment.write_files[0].path, "/etc/a b");
    assert_eq!(fragment.write_files[0].content, "x");
    assert_eq!(fragment.write_files[0].permissions, Some("0600".to_string()));
    assert_eq!(fragment.write_files[0].owner, Some("root:root".to_string()));
    assert!(fragment.runcmd.is_empty());
}

#[test]
fn heredoc_delimiter_avoids_the_content() {
    assert_eq!(WriteFile::new("/x", "plain").heredoc_delimiter(), "TENGU_EOF");
    assert_eq!(
        WriteFile::new("/x", "a TENGU_EOF b").heredoc_delimiter(),
        "__TENGU_FILE_END__"
    );
    assert_eq!(
        WriteFile::new("/x", "TENGU_EOF __TENGU_FILE_END__").heredoc_delimiter(),
        "__FILE_CONTENT_END_MARKER__"
    );
    assert_eq!(
        WriteFile::new("/x", "__TENGU_FILE_END__").heredoc_delimiter(),
        "TENGU_EOF"
    );
    assert_eq!(
        WriteFile::new("/x", "TENGU_EOF __TENGU_FILE_END__ __FILE_CONTENT_END_MARKER__")
            .heredoc_delimiter(),
        "__FILE_CONTENT_END_MARKER__"
    );
    let escalated = WriteFile::new("/x", "TENGU_EOF").to_bash();
    assert!(escalated[1].contains("<< '__TENGU_FILE_END__'\nTENGU_EOF\n__TENGU_FILE_END__\nfi"));
}

#[test]
fn any_step_answers_as_its_variant() {
    let step = InstallPackage::new("jq");
    let any = InstallPackage::new("jq").into_any();
    assert!(matches!(any, AnyStep::Package(_)));
    assert_eq!(any.description(), step.description());
    assert_eq!(any.to_bash(), step.to_bash());
    assert_eq!(any.check_command(), step.check_command());
    assert_eq!(any.to_cloud_init().packages, step.to_cloud_init().packages);
}

#[test]
fn manifest_keeps_the_order_of_its_steps() {
    let mut manifest = Manifest::new("box")
        .with_fqdn("box.example.com")
        .with_timezone("Europe/Paris")
        .with_locale("fr_FR.UTF-8")
        .with_step(InstallPackage::new("b"))
        .with_step(InstallPackage::new("a"));
    manifest.add_step(InstallPackage::new("b"));
    assert_eq!(manifest.hostname, "box");
    assert_eq!(manifest.fqdn, Some("box.example.com".to_string()));
    assert_eq!(manifest.timezone, "Europe/Paris");
    assert_eq!(manifest.locale, "fr_FR.UTF-8");
    let descriptions: Vec<&str> = manifest.steps.iter().map(|s| s.description()).collect();
    assert_eq!(descriptions, vec!["Install b", "Install a", "Install b"]);
    assert_eq!(manifest.step_count(), 3);
    let empty = Manifest::default();
    assert_eq!(empty.hostname, "tengu");
    assert_eq!(empty.fqdn, None);
    assert_eq!(empty.timezone, "UTC");
    assert_eq!(empty.locale, "en_US.UTF-8");
    assert_eq!(empty.step_count(), 0);
}

#[test]
fn installation_manifest_is_the_same_for_the_same_configuration() {
    let config = TenguConfig::test_config();
    let first = Manifest::tengu(&config);
    let second = Manifest::tengu(&config);
    assert_eq!(first.steps.len(), 43);
    assert_eq!(first.fqdn, Some("api.test.example.com".to_string()));
    assert_eq!(first.hostname, "tengu");
    let a: Vec<Vec<String>> = first.steps.iter().map(|s| s.to_bash()).collect();
    let b: Vec<Vec<String>> = second.steps.iter().map(|s| s.to_bash()).collect();
    assert_eq!(a, b);
    let descriptions: Vec<&str> = first.steps.iter().map(|s| s.description()).collect();
    assert_eq!(descriptions[0], "Ensure user testuser exists");
    assert_eq!(descriptions[1], "Install curl");
    assert_eq!(descriptions[12], "Install unzip");
    assert_eq!(descriptions[13], "Install docker-ce");
    assert_eq!(descriptions[19], "Install ollama from URL");
    assert_eq!(descriptions[21], "Ensure directory /etc/tengu");
    assert_eq!(descriptions[27], "Write /etc/tengu/config.toml");
    assert_eq!(descriptions[30], "Configure firewall");
    assert_eq!(descriptions[31], "Ensure service docker");
    assert_eq!(descriptions[37], "Install tengu from URL");
    assert_eq!(descriptions[38], "Ensure service tengu");
    assert_eq!(descriptions[42], "Enable pgvector extension");
    assert_eq!(
        first.steps[37].to_bash()[0].lines().nth(1),
        Some("URL=$(echo 'https://github.com/saiden-dev/tengu/releases/download/v0.1.0-test/tengu_{arch}.deb' | sed \"s/{{arch}}/$ARCH/g\")")
    );
    assert_eq!(
        first.steps[41].check_command(),
        Some(
            "sudo -u postgres psql -tAc \"SELECT has_database_privilege('tengu', 'tengu', 'CREATE')\" | grep -qx t"
                .to_string()
        )
    );
    let other = TenguConfig::builder().user("someone").build();
    let latest = Manifest::tengu(&other);
    assert_eq!(latest.steps.len(), 43);
    assert!(latest.steps[37].to_bash()[0]
        .contains("https://github.com/saiden-dev/tengu/releases/latest/download/tengu_{arch}.deb"));
}

#[test]
fn configuration_files_are_exact() {
    let config = TenguConfig::builder()
        .user("chi")
        .domain_platform("tengu.to")
        .domain_apps("tengu.host")
        .cf_api_key("key")
        .cf_email("me@example.com")
        .resend_api_key("re_1")
        .notify_email("ops@example.com")
        .ssh_keys(vec!["ssh-ed25519 AAAA".to_string()])
        .release("v1")
        .build();
    assert_eq!(config.user, "chi");
    assert_eq!(config.resend_api_key, "re_1");
    assert_eq!(config.notify_email, "ops@example.com");
    assert_eq!(config.ssh_keys, vec!["ssh-ed25519 AAAA".to_string()]);
    assert_eq!(config.release, "v1");
    assert_eq!(
        config.tengu_config_toml(),
        "# Tengu PaaS Configuration\ndomain = \"tengu.host\"\n\n[cloudflare]\napi_key = \"key\"\nemail = \"me@example.com\"\n\n[cloudflare.domains]\nplatform = \"tengu.to\"\napps = \"tengu.host\"\n\n[cloudflare.services]\napi = \"api.tengu.to\"\ndocs = \"docs.tengu.to\"\ngit = \"git.tengu.to\"\nssh = \"ssh.tengu.to\"\n"
    );
    assert_eq!(
        config.caddyfile(),
        "{\n    email me@example.com\n}\n\nimport sites/*.caddy\n\napi.tengu.to {\n    reverse_proxy localhost:8080\n}\n\ndocs.tengu.to {\n    reverse_proxy localhost:8080\n}\n\ngit.tengu.to {\n    reverse_proxy localhost:8080\n}\n"
    );
    assert_eq!(
        config.fail2ban_config(),
        "[sshd]\nenabled = true\nport = ssh\nfilter = sshd\nlogpath = /var/log/auth.log\nmaxretry = 3\nbantime = 3600\nfindtime = 600\n"
    );
    let empty = TenguConfig::default();
    assert_eq!(empty.user, "");
    assert!(empty.ssh_keys.is_empty());
}

#[test]
fn file_commands_for_a_given_digest_are_exact() {
    assert_eq!(
        digest_guard_command("/etc/x", "abc123"),
        "[ -f '/etc/x' ] && [ \"$(sha256sum '/etc/x' | cut -d' ' -f1)\" = \"abc123\" ]"
    );
    assert_eq!(
        write_command("/etc/x", "abc123", "END", "one\ntwo"),
        "CURRENT=$(sha256sum '/etc/x' 2>/dev/null | cut -d' ' -f1 || echo 'none')\nif [ \"$CURRENT\" != \"abc123\" ]; then\n    head -c -1 > '/etc/x' << 'END'\none\ntwo\nEND\nfi"
    );
    assert_eq!(
        tengu_provision::digest::content_hash("hello"),
        "2cf24dba5fb0a30e26e83b2ac5b9e29e1b161e5c1fa7425e73043362938b9824"
    );
}

#[test]
fn database_bootstrap_commands_are_each_guarded() {
    let manifest = Manifest::tengu(&TenguConfig::test_config());
    let bootstrap = &manifest.steps[39..];
    assert_eq!(bootstrap.len(), 4);
    let descriptions: Vec<&str> = bootstrap.iter().map(|s| s.description()).collect();
    assert_eq!(
        descriptions,
        vec![
            "Create tengu PostgreSQL database",
            "Create tengu PostgreSQL user",
            "Grant PostgreSQL privileges to tengu",
            "Enable pgvector extension",
        ]
    );
    for step in bootstrap {
        let guard = step.check_command().unwrap();
        assert!(guard.starts_with("sudo -u postgres psql "));
        let bash = step.to_bash();
        assert_eq!(bash.len(), 1);
        assert!(bash[0].starts_with(&format!("{} || {{ ", guard)));
    }
    assert_eq!(
        bootstrap[2].to_bash()[0],
        "sudo -u postgres psql -tAc \"SELECT has_database_privilege('tengu', 'tengu', 'CREATE')\" | grep -qx t || { sudo -u postgres psql -c \"GRANT ALL PRIVILEGES ON DATABASE tengu TO tengu;\"; }"
    );
}

#[test]
fn what_the_rewrite_leaves_has_the_digest_of_the_guard() {
    for content in ["hello", "", "line\n", "two\nlines\n\n", "é ü\n", "TENGU_EOF inside"] {
        let step = WriteFile::new("/etc/test.conf", content);
        let digest = step.content_hash();
        assert_eq!(digest.len(), 64);
        let delimiter = step.heredoc_delimiter();
        let command = &step.to_bash()[1];
        let opening = format!("    head -c -1 > '/etc/test.conf' << '{}'\n", delimiter);
        let closing = format!("{}\nfi", delimiter);
        let start = command.find(&opening).unwrap() + opening.len();
        assert!(command.ends_with(&closing));
        let document = &command.as_bytes()[start..command.len() - closing.len()];
        let written = &document[..document.len() - 1];
        assert_eq!(written, content.as_bytes());
        assert_eq!(hex::encode(sha2::Sha256::digest(written)), digest);
        assert!(command.contains(&format!("if [ \"$CURRENT\" != \"{}\" ]; then", digest)));
        assert!(step.check_command().unwrap().ends_with(&format!("= \"{}\" ]", digest)));
    }
}
