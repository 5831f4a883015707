use tengu_provision::render::bash::ScriptPart;
use tengu_provision::{BashRenderer, Manifest, TenguConfig};
use tengu_provision::progress::{
    label, parse_marker, parse_progress_marker, strip_ansi_codes, summary, trim, IndicatorAction,
    MarkerAction, ProgressEvent, ProgressTracker,
};

fn event(action: MarkerAction, index: usize, description: &str) -> ProgressEvent {
    ProgressEvent { action, index, description: description.to_string() }
}

#[test]
fn wire_text_follows_the_format() {
    assert_eq!(
        event(MarkerAction::Start, 3, "Install docker").wire_text(),
        "TENGU_STEP:START:3:Install docker"
    );
    assert_eq!(event(MarkerAction::Done, 10, "").wire_text(), "TENGU_STEP:DONE:10:");
    assert_eq!(event(MarkerAction::Skip, 0, "a:b").wire_text(), "TENGU_STEP:SKIP:0:a:b");
    assert_eq!(event(MarkerAction::Fail, 7, "x").wire_text(), "TENGU_STEP:FAIL:7:x");
    assert_eq!(
        event(MarkerAction::Complete, 43, "Provisioning complete").wire_text(),
        "TENGU_STEP:COMPLETE:43:Provisioning complete"
    );
    assert_eq!(MarkerAction::Start.name(), "START");
    assert_eq!(MarkerAction::Complete.name(), "COMPLETE");
}

#[test]
fn strip_removes_escape_sequences() {
    assert_eq!(strip_ansi_codes("plain"), "plain");
    assert_eq!(strip_ansi_codes(""), "");
    assert_eq!(strip_ansi_codes("\x1b[0;32mgreen\x1b[0m"), "green");
    assert_eq!(strip_ansi_codes("a\x1b[1;33;44mb\x1b[Kc"), "abc");
    assert_eq!(strip_ansi_codes("a\x1bb"), "ab");
    assert_eq!(strip_ansi_codes("a\x1b"), "a");
    assert_eq!(strip_ansi_codes("a\x1b\x1b[mb"), "ab");
    assert_eq!(strip_ansi_codes("a\x1b[12;34"), "a");
    assert_eq!(strip_ansi_codes("a\x1b[?25lb"), "ab");
    assert_eq!(strip_ansi_codes("[0m stays"), "[0m stays");
    assert_eq!(strip_ansi_codes("é\x1b[1mü"), "éü");
}

#[test]
fn trim_removes_white_space_at_both_ends() {
    assert_eq!(trim("  a b \t\r\n"), "a b");
    assert_eq!(trim(""), "");
    assert_eq!(trim(" \n "), "");
    assert_eq!(trim("x"), "x");
    assert_eq!(trim("\u{a0}x\u{3000}"), "x");
    assert_eq!(trim("\u{200b}x"), "\u{200b}x");
    assert_eq!(trim("\u{85} x \u{2028}\u{2029}\u{1680}\u{202f}\u{205f}\u{2003}"), "x");
}

#[test]
fn markers_are_parsed() {
    assert_eq!(
        parse_progress_marker("TENGU_STEP:START:3:Install docker"),
        Some(event(MarkerAction::Start, 3, "Install docker"))
    );
    assert_eq!(
        parse_progress_marker("TENGU_STEP:DONE:3:Install docker"),
        Some(event(MarkerAction::Done, 3, "Install docker"))
    );
    assert_eq!(
        parse_progress_marker("TENGU_STEP:SKIP:12:a: b: c"),
        Some(event(MarkerAction::Skip, 12, "a: b: c"))
    );
    assert_eq!(
        parse_progress_marker("TENGU_STEP:FAIL:1:"),
        Some(event(MarkerAction::Fail, 1, ""))
    );
    assert_eq!(
        parse_progress_marker("TENGU_STEP:COMPLETE:43"),
        Some(event(MarkerAction::Complete, 43, ""))
    );
    assert_eq!(
        parse_progress_marker("TENGU_STEP:COMPLETE:43:Provisioning complete"),
        Some(event(MarkerAction::Complete, 43, "Provisioning complete"))
    );
    assert_eq!(
        parse_progress_marker("TENGU_STEP:START:+7:x"),
        Some(event(MarkerAction::Start, 7, "x"))
    );
    assert_eq!(
        parse_progress_marker("TENGU_STEP:START:007:x"),
        Some(event(MarkerAction::Start, 7, "x"))
    );
}

#[test]
fn markers_are_found_behind_colors_and_white_space() {
    assert_eq!(
        parse_progress_marker("\x1b[0;34mTENGU_STEP:START:3:Install docker\x1b[0m\r"),
        Some(event(MarkerAction::Start, 3, "Install docker"))
    );
    assert_eq!(
        parse_progress_marker("   TENGU_STEP:DONE:3:Install docker  "),
        Some(event(MarkerAction::Done, 3, "Install docker"))
    );
    assert_eq!(
        parse_progress_marker("TENGU_\x1b[1mSTEP:DONE:3:x"),
        Some(event(MarkerAction::Done, 3, "x"))
    );
    assert_eq!(
        parse_marker("\x1b[0;34mTENGU_STEP:START:3:Install docker"),
        None
    );
    assert_eq!(
        parse_marker("TENGU_STEP:START:3:Install docker"),
        Some(event(MarkerAction::Start, 3, "Install docker"))
    );
    assert_eq!(parse_marker(" TENGU_STEP:START:3:x"), None);
}

#[test]
fn other_lines_are_no_markers() {
    for line in [
        "",
        "Setting up docker-ce ...",
        "TENGU_STEP",
        "TENGU_STEP:",
        "TENGU_STEP:START",
        "TENGU_STEP:START:",
        "TENGU_STEP:START::x",
        "TENGU_STEP:START:x:3",
        "TENGU_STEP:START:-1:x",
        "TENGU_STEP:START:3.5:x",
        "TENGU_STEP:START: 3:x",
        "TENGU_STEP:START:+:x",
        "TENGU_STEP:START:99999999999999999999999999:x",
        "TENGU_STEP:BEGIN:3:x",
        "TENGU_STEP:start:3:x",
        "TENGU_STEP::3:x",
        "tengu_step:START:3:x",
        "echo TENGU_STEP:START:3:x",
        "XTENGU_STEP:START:3:x",
    ] {
        assert_eq!(parse_progress_marker(line), None, "{}", line);
    }
    assert_eq!(
        parse_progress_marker("TENGU_STEP:START:18446744073709551615:x").map(|e| e.index),
        "18446744073709551615".parse::<usize>().ok()
    );
    assert_eq!(parse_progress_marker("TENGU_STEP:START:18446744073709551616:x"), None);
}

#[test]
fn start_then_done_is_one_cycle_and_one_summary() {
    let mut tracker = ProgressTracker::new(43);
    let mut actions = Vec::new();
    for line in [
        "Reading package lists...",
        "TENGU_STEP:START:3:Install docker",
        "Unpacking docker-ce ...",
        "TENGU_STEP:DONE:3:Install docker",
        "done",
    ] {
        actions.extend(tracker.on_line(line));
    }
    actions.extend(tracker.finish());
    assert_eq!(
        actions,
        vec![
            IndicatorAction::Open { step: 3, total: 43, description: "Install docker".to_string() },
            IndicatorAction::Close,
            IndicatorAction::Summary {
                step: 3,
                total: 43,
                outcome: MarkerAction::Done,
                description: "Install docker".to_string()
            },
        ]
    );
    assert!(!tracker.open);
    assert_eq!(tracker.total, 43);
}

#[test]
fn a_start_replaces_the_open_indicator() {
    let mut tracker = ProgressTracker::new(5);
    assert_eq!(
        tracker.on_line("TENGU_STEP:START:1:one"),
        vec![IndicatorAction::Open { step: 1, total: 5, description: "one".to_string() }]
    );
    assert!(tracker.open);
    assert_eq!(
        tracker.on_line("\x1b[0;34mTENGU_STEP:START:2:two\x1b[0m"),
        vec![
            IndicatorAction::Close,
            IndicatorAction::Open { step: 2, total: 5, description: "two".to_string() }
        ]
    );
    assert_eq!(
        tracker.on_line("TENGU_STEP:SKIP:2:two"),
        vec![
            IndicatorAction::Close,
            IndicatorAction::Summary {
                step: 2,
                total: 5,
                outcome: MarkerAction::Skip,
                description: "two".to_string()
            }
        ]
    );
    assert_eq!(
        tracker.on_line("TENGU_STEP:FAIL:3:three"),
        vec![IndicatorAction::Summary {
            step: 3,
            total: 5,
            outcome: MarkerAction::Fail,
            description: "three".to_string()
        }]
    );
    assert_eq!(tracker.on_line("TENGU_STEP:START:4:four").len(), 1);
    assert_eq!(
        tracker.on_event(event(MarkerAction::Complete, 5, "")),
        vec![IndicatorAction::Close]
    );
    assert!(!tracker.open);
    assert_eq!(tracker.on_line("TENGU_STEP:COMPLETE:5:x"), Vec::new());
    assert_eq!(tracker.finish(), Vec::new());
    tracker.on_line("TENGU_STEP:START:5:five");
    assert_eq!(tracker.finish(), vec![IndicatorAction::Close]);
    assert_eq!(tracker.finish(), Vec::new());
}

#[test]
fn summaries_are_one_line_each() {
    assert_eq!(label(3, 43), "[3/43]");
    assert_eq!(summary(3, 43, MarkerAction::Done, "Install docker"), "[3/43] v Install docker");
    assert_eq!(
        summary(4, 43, MarkerAction::Skip, "Install vim"),
        "[4/43] o Install vim (skipped)"
    );
    assert_eq!(summary(5, 43, MarkerAction::Fail, "Install jq"), "[5/43] x Install jq");
}

#[test]
fn markers_are_read_back_as_they_were_written() {
    for action in [
        MarkerAction::Start,
        MarkerAction::Done,
        MarkerAction::Skip,
        MarkerAction::Fail,
        MarkerAction::Complete,
    ] {
        for index in [0usize, 1, 9, 10, 43, 65535, usize::MAX] {
            for description in ["", "x", "Install docker", "a: b", "it's", "é ü", ":", " lead"] {
                let e = event(action, index, description);
                let wire = e.wire_text();
                assert_eq!(parse_marker(&wire), Some(e.clone()));
                assert_eq!(parse_progress_marker(&wire), Some(e.clone()));
                let colored = format!("\x1b[0;34m{}\x1b[0m\r", wire);
                assert_eq!(parse_progress_marker(&colored), Some(e));
            }
        }
    }
    let trailing = event(MarkerAction::Start, 1, "ends in space ");
    assert_eq!(
        parse_progress_marker(&trailing.wire_text()),
        Some(event(MarkerAction::Start, 1, "ends in space"))
    );
}

#[test]
fn the_installation_script_reports_what_the_driver_expects() {
    let config = TenguConfig::test_config();
    let manifest = Manifest::tengu(&config);
    let parts = BashRenderer::new().verbose(true).plan(&manifest);
    let mut tracker = ProgressTracker::new(manifest.steps.len());
    let mut opened = 0;
    let mut closed = 0;
    let mut summaries = 0;
    for part in &parts {
        if let ScriptPart::Marker(e) = part {
            if e.action == MarkerAction::Fail {
                continue;
            }
            let line = format!("\x1b[0;32m{}\x1b[0m", e.wire_text());
            assert_eq!(parse_progress_marker(&line).as_ref(), Some(e));
            for action in tracker.on_line(&line) {
                match action {
                    IndicatorAction::Open { total, .. } => {
                        assert_eq!(opened, closed);
                        assert_eq!(total, 43);
                        opened += 1;
                    }
                    IndicatorAction::Close => {
                        closed += 1;
                        assert_eq!(opened, closed);
                    }
                    IndicatorAction::Summary { .. } => {
                        assert_eq!(opened, closed);
                        summaries += 1;
                    }
                }
            }
        }
    }
    assert!(!tracker.open);
    assert_eq!(opened, 43);
    assert_eq!(closed, 43);
    assert!(summaries >= 43);
}
