use tengu_provision::render::cloud_init::{frame_document, merge_fragments, CloudInitUserConfig};
use serde_yaml::Value;
use tengu_provision::render::yaml::{texts_value, Mapping};
use tengu_provision::render::RenderError;
use tengu_provision::steps::{InstallPackage, Repository, RunCommand, WriteFile};
use tengu_provision::{CloudInitRenderer, Manifest, Renderer, TenguConfig};

#[test]
fn document_is_exact() {
    let config = TenguConfig::test_config();
    let manifest = Manifest::new("demo")
        .with_step(InstallPackage::new("vim"))
        .with_step(WriteFile::new("/etc/test.conf", "hello").with_permissions("0644"))
        .with_step(RunCommand::new("Say it's done", "echo done"));
    let yaml = CloudInitRenderer::new()
        .render_with_config(&manifest, &config)
        .unwrap();
    assert_eq!(
        yaml,
        "#cloud-config\n\
hostname: demo\n\
timezone: UTC\n\
locale: en_US.UTF-8\n\
ssh_pwauth: false\n\
disable_root: true\n\
users:\n\
- name: testuser\n\
\x20 groups: sudo, docker\n\
\x20 shell: /bin/bash\n\
\x20 sudo: ALL=(ALL) NOPASSWD:ALL\n\
\x20 ssh_authorized_keys:\n\
\x20 - ssh-ed25519 AAAA... test@test\n\
package_update: true\n\
package_upgrade: true\n\
packages:\n\
- vim\n\
write_files:\n\
- path: /etc/test.conf\n\
\x20 content: hello\n\
\x20 permissions: '0644'\n\
runcmd:\n\
- echo done\n\
final_message: Tengu PaaS server ready!\n"
    );
}

#[test]
fn document_without_user_or_steps_leaves_the_lists_out() {
    let manifest = Manifest::new("bare").with_fqdn("bare.example.com");
    let yaml = CloudInitRenderer::new().render(&manifest).unwrap();
    assert_eq!(
        yaml,
        "#cloud-config\n\
hostname: bare\n\
fqdn: bare.example.com\n\
timezone: UTC\n\
locale: en_US.UTF-8\n\
ssh_pwauth: false\n\
disable_root: true\n\
package_update: true\n\
package_upgrade: true\n\
final_message: Tengu PaaS server ready!\n"
    );
    assert_eq!(CloudInitRenderer::default().render(&manifest), Ok(yaml));
}

#[test]
fn document_packages_are_sorted_and_unique() {
    let manifest = Manifest::new("demo")
        .with_step(InstallPackage::new("vim"))
        .with_step(InstallPackage::new("curl"))
        .with_step(InstallPackage::new("vim"))
        .with_step(InstallPackage::new("Zsh"))
        .with_step(InstallPackage::new("curl"))
        .with_step(InstallPackage::new("cur"));
    let merged = merge_fragments(&manifest);
    assert_eq!(merged.packages, vec!["vim", "curl", "vim", "Zsh", "curl", "cur"]);
    let document = CloudInitRenderer::new().document(&manifest);
    assert_eq!(document.packages, vec!["Zsh", "cur", "curl", "vim"]);
    let yaml = CloudInitRenderer::new().render(&manifest).unwrap();
    assert!(yaml.starts_with("#cloud-config\n"));
    assert!(yaml.contains("packages:\n- Zsh\n- cur\n- curl\n- vim\n"));
    assert_eq!(yaml.matches("- vim\n").count(), 1);
}

#[test]
fn document_for_one_package_lists_it_once() {
    let manifest = Manifest::new("demo").with_step(InstallPackage::new("vim"));
    let step_fragment = tengu_provision::Step::to_cloud_init(&manifest.steps[0]);
    assert_eq!(step_fragment.packages, vec!["vim"]);
    let document = CloudInitRenderer::new().document(&manifest);
    assert_eq!(document.packages, vec!["vim"]);
    assert!(document.user.is_none());
}

#[test]
fn document_keeps_files_and_commands_in_step_order() {
    let manifest = Manifest::new("demo")
        .with_step(RunCommand::new("two", "echo 2"))
        .with_step(WriteFile::new("/b", "B"))
        .with_step(InstallPackage::new("docker-ce").with_repository(Repository::docker()))
        .with_step(WriteFile::new("/a", "A").with_owner("root:root"))
        .with_step(RunCommand::new("one", "echo 1").unless("true"));
    let document = CloudInitRenderer::new().document(&manifest);
    let paths: Vec<&str> = document.write_files.iter().map(|f| f.path.as_str()).collect();
    assert_eq!(paths, vec!["/b", "/a"]);
    assert_eq!(document.runcmd.len(), 5);
    assert_eq!(document.runcmd[0], "echo 2");
    assert_eq!(document.runcmd[3], "apt-get update");
    assert_eq!(document.runcmd[4], "true || { echo 1; }");
    assert_eq!(document.packages, vec!["docker-ce"]);
    assert_eq!(document.hostname, "demo");
    assert_eq!(document.fqdn, None);
}

#[test]
fn installation_document_holds_each_package_once() {
    let config = TenguConfig::test_config();
    let manifest = Manifest::tengu(&config);
    let renderer = CloudInitRenderer::for_config(&config);
    let document = renderer.document(&manifest);
    assert_eq!(document.packages.len(), 18);
    let mut sorted = document.packages.clone();
    sorted.sort();
    sorted.dedup();
    assert_eq!(document.packages, sorted);
    assert_eq!(document.write_files.len(), 3);
    let user = document.user.unwrap();
    assert_eq!(user.name, "testuser");
    assert_eq!(user.groups, vec!["sudo", "docker"]);
    assert_eq!(user.shell, "/bin/bash");
    assert_eq!(user.sudo, "ALL=(ALL) NOPASSWD:ALL");
    assert_eq!(user.ssh_authorized_keys, config.ssh_keys);
}

#[test]
fn frame_puts_the_marker_first_and_passes_failures_on() {
    assert_eq!(
        frame_document(Ok("a: 1\n".to_string())),
        Ok("#cloud-config\na: 1\n".to_string())
    );
    assert_eq!(
        frame_document(Ok(String::new())),
        Ok("#cloud-config\n".to_string())
    );
    let failed = frame_document(Err("no".to_string()));
    assert_eq!(failed, Err(RenderError::Serialization("no".to_string())));
    assert_eq!(failed.unwrap_err().message(), "Failed to serialize document: no");
}

#[test]
fn yaml_values_are_built_from_their_parts() {
    let list = texts_value(&vec!["x".to_string(), "y".to_string()]);
    assert_eq!(
        list,
        Value::Sequence(vec![Value::String("x".to_string()), Value::String("y".to_string())])
    );
    assert_eq!(texts_value(&Vec::new()), Value::Sequence(Vec::new()));
    let mut mapping = Mapping::new();
    mapping.put("k", Value::Bool(true));
    mapping.omit("skipped");
    mapping.put("a", list);
    let value = mapping.finish();
    let table = value.as_mapping().unwrap();
    let keys: Vec<&str> = table.keys().map(|k| k.as_str().unwrap()).collect();
    assert_eq!(keys, vec!["k", "a"]);
    assert_eq!(value["k"], Value::Bool(true));
    assert_eq!(serde_yaml::to_string(&value).unwrap(), "k: true\na:\n- x\n- y\n");
    assert_eq!(Mapping::new().finish(), Value::Mapping(serde_yaml::Mapping::new()));
}

#[test]
fn user_record_lists_keys_only_where_there_are_some() {
    let user = CloudInitUserConfig {
        name: "ann".to_string(),
        groups: vec!["a".to_string(), "b".to_string(), "c".to_string()],
        shell: "/bin/sh".to_string(),
        sudo: "ALL".to_string(),
        ssh_authorized_keys: Vec::new(),
    };
    let copy = user.duplicate();
    assert_eq!(copy.name, "ann");
    assert_eq!(copy.groups, user.groups);
    let value = user.to_yaml();
    let keys: Vec<&str> = value
        .as_mapping()
        .unwrap()
        .keys()
        .map(|k| k.as_str().unwrap())
        .collect();
    assert_eq!(keys, vec!["name", "groups", "shell", "sudo"]);
    assert_eq!(value["groups"], Value::String("a, b, c".to_string()));
    let renderer = CloudInitRenderer { user_config: Some(user) };
    let yaml = renderer.render(&Manifest::new("h")).unwrap();
    assert!(yaml.contains("users:\n- name: ann\n  groups: a, b, c\n  shell: /bin/sh\n  sudo: ALL\npackage_update: true\n"));
}

#[test]
fn document_values_mirror_the_document() {
    let manifest = Manifest::new("demo")
        .with_step(WriteFile::new("/a", "A").with_owner("root:root"))
        .with_step(InstallPackage::new("vim"));
    let document = CloudInitRenderer::new().document(&manifest);
    let value = document.to_yaml();
    assert_eq!(value["hostname"], Value::String("demo".to_string()));
    assert_eq!(value["ssh_pwauth"], Value::Bool(false));
    assert_eq!(value["disable_root"], Value::Bool(true));
    assert_eq!(value["package_update"], Value::Bool(true));
    assert_eq!(value["package_upgrade"], Value::Bool(true));
    assert_eq!(value["packages"], Value::Sequence(vec![Value::String("vim".to_string())]));
    assert_eq!(value["final_message"], Value::String("Tengu PaaS server ready!".to_string()));
    assert!(value.get("fqdn").is_none());
    assert!(value.get("users").is_none());
    assert!(value.get("runcmd").is_none());
    let file = document.write_files[0].to_yaml();
    assert_eq!(value["write_files"][0], file);
    let keys: Vec<&str> = file
        .as_mapping()
        .unwrap()
        .keys()
        .map(|k| k.as_str().unwrap())
        .collect();
    assert_eq!(keys, vec!["path", "content", "owner"]);
    assert_eq!(
        serde_yaml::to_string(&serde_yaml::from_str::<Value>(&serde_yaml::to_string(&value).unwrap()).unwrap())
            .unwrap(),
        serde_yaml::to_string(&value).unwrap()
    );
}
