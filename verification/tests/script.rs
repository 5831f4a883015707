use tengu_provision::progress::{MarkerAction, ProgressEvent};
use tengu_provision::render::bash::ScriptPart;
use tengu_provision::steps::{EnsureService, InstallPackage, RunCommand, WriteFile};
use tengu_provision::{BashRenderer, Manifest, Renderer, TenguConfig};

fn small_manifest() -> Manifest {
    Manifest::new("demo")
        .with_step(InstallPackage::new("vim"))
        .with_step(RunCommand::new("Say it's done", "echo done"))
}

fn markers(parts: &[ScriptPart]) -> Vec<ProgressEvent> {
    let mut out = Vec::new();
    for part in parts {
        if let ScriptPart::Marker(event) = part {
            out.push(event.clone());
        }
    }
    out
}

fn shell(parts: &[ScriptPart]) -> Vec<String> {
    let mut out = Vec::new();
    for part in parts {
        if let ScriptPart::Shell(text) = part {
            out.push(text.clone());
        }
    }
    out
}

#[test]
fn renderer_switches_default_to_quiet_with_color() {
    let renderer = BashRenderer::new();
    assert!(!renderer.verbose);
    assert!(renderer.color);
    assert_eq!(BashRenderer::default(), renderer);
    let set = renderer.verbose(true).color(false);
    assert!(set.verbose);
    assert!(!set.color);
}

#[test]
fn quiet_script_is_exact() {
    let script = BashRenderer::new().render(&small_manifest()).unwrap();
    assert_eq!(
        script,
        "#!/usr/bin/env bash\n\
if dpkg -s vim >/dev/null 2>&1; then\n\
:\n\
else\n\
(\n\
set -e\n\
dpkg -s vim >/dev/null 2>&1 || apt-get install -y vim\n\
)\n\
if [ $? -ne 0 ]; then\n\
exit 1\n\
fi\n\
fi\n\
(\n\
set -e\n\
echo done\n\
)\n\
if [ $? -ne 0 ]; then\n\
exit 1\n\
fi\n"
    );
}

#[test]
fn verbose_script_without_color_is_exact() {
    let script = BashRenderer::new()
        .verbose(true)
        .color(false)
        .render(&small_manifest())
        .unwrap();
    assert_eq!(
        script,
        "#!/usr/bin/env bash\n\
printf '%s\\n' 'TENGU_STEP:START:1:Install vim'\n\
if dpkg -s vim >/dev/null 2>&1; then\n\
:\n\
printf '%s\\n' 'TENGU_STEP:SKIP:1:Install vim'\n\
else\n\
(\n\
set -e\n\
dpkg -s vim >/dev/null 2>&1 || apt-get install -y vim\n\
)\n\
if [ $? -ne 0 ]; then\n\
printf '%s\\n' 'TENGU_STEP:FAIL:1:Install vim'\n\
exit 1\n\
fi\n\
printf '%s\\n' 'TENGU_STEP:DONE:1:Install vim'\n\
fi\n\
printf '%s\\n' 'TENGU_STEP:START:2:Say it'\\''s done'\n\
(\n\
set -e\n\
echo done\n\
)\n\
if [ $? -ne 0 ]; then\n\
printf '%s\\n' 'TENGU_STEP:FAIL:2:Say it'\\''s done'\n\
exit 1\n\
fi\n\
printf '%s\\n' 'TENGU_STEP:DONE:2:Say it'\\''s done'\n\
printf '%s\\n' 'TENGU_STEP:COMPLETE:2:Provisioning complete'\n"
    );
}

#[test]
fn verbose_script_with_color_defines_and_uses_the_colors() {
    let script = BashRenderer::new()
        .verbose(true)
        .render(&small_manifest())
        .unwrap();
    assert!(script.starts_with(
        "#!/usr/bin/env bash\nRED='\\033[0;31m'\nGREEN='\\033[0;32m'\nYELLOW='\\033[1;33m'\nBLUE='\\033[0;34m'\nNC='\\033[0m'\nprintf '%b%s%b\\n' \"$BLUE\" 'TENGU_STEP:START:1:Install vim' \"$NC\"\n"
    ));
    assert!(script.contains("printf '%b%s%b\\n' \"$YELLOW\" 'TENGU_STEP:SKIP:1:Install vim' \"$NC\"\n"));
    assert!(script.contains("printf '%b%s%b\\n' \"$RED\" 'TENGU_STEP:FAIL:1:Install vim' \"$NC\"\n"));
    assert!(script.contains("printf '%b%s%b\\n' \"$GREEN\" 'TENGU_STEP:DONE:1:Install vim' \"$NC\"\n"));
    assert!(script.ends_with(
        "printf '%b%s%b\\n' \"$GREEN\" 'TENGU_STEP:COMPLETE:2:Provisioning complete' \"$NC\"\n"
    ));
}

#[test]
fn script_guards_the_install_of_vim() {
    let manifest = Manifest::new("demo").with_step(InstallPackage::new("vim"));
    let script = BashRenderer::new().verbose(true).render(&manifest).unwrap();
    let guard = script.find("if dpkg -s vim >/dev/null 2>&1; then").unwrap();
    let install = script.find("apt-get install -y vim").unwrap();
    assert!(guard < install);
}

#[test]
fn complete_marker_counts_the_steps() {
    let config = TenguConfig::test_config();
    let manifest = Manifest::tengu(&config);
    let parts = BashRenderer::new().verbose(true).plan(&manifest);
    let complete: Vec<ProgressEvent> = markers(&parts)
        .into_iter()
        .filter(|e| e.action == MarkerAction::Complete)
        .collect();
    assert_eq!(complete.len(), 1);
    assert_eq!(complete[0].index, manifest.steps.len());
    assert_eq!(complete[0].index, Manifest::tengu(&config).steps.len());
    assert_eq!(complete[0].index, 43);
    assert!(matches!(parts.last(), Some(ScriptPart::Marker(e)) if e.action == MarkerAction::Complete));
    let script = BashRenderer::new().verbose(true).color(false).render(&manifest).unwrap();
    assert!(script.ends_with("printf '%s\\n' 'TENGU_STEP:COMPLETE:43:Provisioning complete'\n"));

    let none = BashRenderer::new().verbose(true).color(false).render(&Manifest::new("x")).unwrap();
    assert_eq!(
        none,
        "#!/usr/bin/env bash\nprintf '%s\\n' 'TENGU_STEP:COMPLETE:0:Provisioning complete'\n"
    );
}

#[test]
fn start_markers_number_the_steps_from_one() {
    let manifest = Manifest::tengu(&TenguConfig::test_config());
    let parts = BashRenderer::new().verbose(true).plan(&manifest);
    let starts: Vec<ProgressEvent> = markers(&parts)
        .into_iter()
        .filter(|e| e.action == MarkerAction::Start)
        .collect();
    assert_eq!(starts.len(), 43);
    for (i, event) in starts.iter().enumerate() {
        assert_eq!(event.index, i + 1);
        assert_eq!(event.description, tengu_provision::Step::description(&manifest.steps[i]));
    }
}

#[test]
fn disabling_color_removes_the_definitions_and_keeps_the_markers() {
    let manifest = Manifest::tengu(&TenguConfig::test_config());
    let colored = BashRenderer::new().verbose(true).color(true).plan(&manifest);
    let plain = BashRenderer::new().verbose(true).color(false).plan(&manifest);
    assert_eq!(colored.iter().filter(|p| matches!(p, ScriptPart::Color(_))).count(), 5);
    assert_eq!(plain.iter().filter(|p| matches!(p, ScriptPart::Color(_))).count(), 0);
    assert_eq!(markers(&colored), markers(&plain));
    assert!(!markers(&plain).is_empty());
    assert_eq!(shell(&colored), shell(&plain));
    let script = BashRenderer::new().verbose(true).color(false).render(&manifest).unwrap();
    for name in ["RED=", "GREEN=", "YELLOW=", "BLUE=", "NC="] {
        assert!(!script.contains(name));
    }
    assert!(!script.contains("$NC"));
    assert!(script.contains("TENGU_STEP:START:1:"));
}

#[test]
fn disabling_verbose_removes_the_markers_and_keeps_the_commands() {
    let manifest = Manifest::tengu(&TenguConfig::test_config());
    let verbose = BashRenderer::new().verbose(true).plan(&manifest);
    let quiet = BashRenderer::new().verbose(false).plan(&manifest);
    assert!(markers(&quiet).is_empty());
    assert!(quiet.iter().all(|p| matches!(p, ScriptPart::Shell(_))));
    assert_eq!(shell(&quiet), shell(&verbose));
    let script = BashRenderer::new().render(&manifest).unwrap();
    assert!(!script.contains("TENGU_STEP:"));
    assert!(!script.contains("GREEN="));
    assert!(script.contains("dpkg -s curl >/dev/null 2>&1 || apt-get install -y curl\n"));
    let quiet_without_color = BashRenderer::new().color(false).render(&manifest).unwrap();
    assert_eq!(script, quiet_without_color);
}

#[test]
fn unguarded_step_has_no_skip_marker() {
    let manifest = Manifest::new("x")
        .with_step(EnsureService::new("a").started(false).enabled(false));
    let parts = BashRenderer::new().verbose(true).plan(&manifest);
    let actions: Vec<MarkerAction> = markers(&parts).iter().map(|e| e.action).collect();
    assert_eq!(
        actions,
        vec![
            MarkerAction::Start,
            MarkerAction::Fail,
            MarkerAction::Done,
            MarkerAction::Complete
        ]
    );
    assert_eq!(
        shell(&parts),
        vec!["#!/usr/bin/env bash", "(", "set -e", ")", "if [ $? -ne 0 ]; then", "exit 1", "fi"]
    );
}

#[test]
fn script_embeds_multi_line_commands_as_they_are() {
    let manifest = Manifest::new("x").with_step(WriteFile::new("/etc/test.conf", "hello"));
    let script = BashRenderer::new().render(&manifest).unwrap();
    assert!(script.contains(
        "then\n    head -c -1 > '/etc/test.conf' << 'TENGU_EOF'\nhello\nTENGU_EOF\nfi\n)\n"
    ));
    let part = ScriptPart::Shell("a\nb".to_string());
    assert_eq!(part.text(true), "a\nb");
    let color = ScriptPart::Color("X='1'".to_string());
    assert_eq!(color.text(false), "X='1'");
}

#[test]
fn render_is_the_script() {
    let manifest = small_manifest();
    let renderer = BashRenderer::new().verbose(true);
    assert_eq!(renderer.render(&manifest), Ok(renderer.script(&manifest)));
}
