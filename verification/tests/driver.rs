use tengu_provision::progress::{IndicatorAction, MarkerAction};
use tengu_provision::remote::{
    Command, Driver, DriverEvent, DriverState, Reaction, MAX_CONNECT_ATTEMPTS,
    RETRY_DELAY_SECONDS,
};
use tengu_provision::{Baremetal, BashRenderer, Manifest, ProvisionError, Renderer, TenguConfig};

fn quiet(command: Command) -> Reaction {
    Reaction { display: Vec::new(), command }
}

#[test]
fn host_address_names_user_and_host() {
    let plain = Baremetal::new("example.com", 22);
    assert_eq!(plain.user, "root");
    assert_eq!(plain.host, "example.com");
    assert_eq!(plain.port, 22);
    let named = Baremetal::new("chi@10.0.0.5", 2222);
    assert_eq!(named.user, "chi");
    assert_eq!(named.host, "10.0.0.5");
    assert_eq!(named.port, 2222);
    let twice = Baremetal::new("a@b@c", 1);
    assert_eq!(twice.user, "a");
    assert_eq!(twice.host, "b@c");
    let empty_user = Baremetal::new("@host", 1);
    assert_eq!(empty_user.user, "");
    assert_eq!(empty_user.host, "host");
    let empty_host = Baremetal::new("user@", 1);
    assert_eq!(empty_host.user, "user");
    assert_eq!(empty_host.host, "");
}

#[test]
fn remote_shell_arguments_are_exact() {
    let target = Baremetal::new("chi@example.com", 2222);
    assert_eq!(target.ssh_destination(), "chi@example.com");
    let common = vec![
        "-o",
        "StrictHostKeyChecking=no",
        "-o",
        "UserKnownHostsFile=/dev/null",
        "-o",
        "LogLevel=ERROR",
        "-p",
        "2222",
    ];
    assert_eq!(target.ssh_args(), common);
    let mut connect = common.clone();
    connect.extend(["-o", "ConnectTimeout=5", "-o", "BatchMode=yes", "chi@example.com", "true"]);
    assert_eq!(target.connect_args(), connect);
    let mut upload = common.clone();
    upload.extend([
        "chi@example.com",
        "cat > /tmp/tengu-provision.sh && chmod +x /tmp/tengu-provision.sh",
    ]);
    assert_eq!(target.upload_args(), upload);
    let mut execute = common.clone();
    execute.extend(["-t", "chi@example.com", "sudo /tmp/tengu-provision.sh"]);
    assert_eq!(target.execute_args(), execute);
    let mut cleanup = common.clone();
    cleanup.extend(["chi@example.com", "rm -f /tmp/tengu-provision.sh"]);
    assert_eq!(target.cleanup_args(), cleanup);
    assert_eq!(Baremetal::new("h", 0).ssh_args()[7], "0");
    assert_eq!(Baremetal::new("h", 65535).ssh_args()[7], "65535");
}

#[test]
fn generated_script_is_verbose_and_colored() {
    let config = TenguConfig::test_config();
    let script = Baremetal::generate_script(&config).unwrap();
    let expected = BashRenderer::new()
        .verbose(true)
        .color(true)
        .render(&Manifest::tengu(&config))
        .unwrap();
    assert_eq!(script, expected);
    assert!(script.contains("GREEN="));
    assert!(script.ends_with("'TENGU_STEP:COMPLETE:43:Provisioning complete' \"$NC\"\n"));
    assert_eq!(Baremetal::expected_steps(&config), 43);
    assert_eq!(Baremetal::expected_steps(&TenguConfig::default()), 43);
}

#[test]
fn connection_retries_are_bounded() {
    let mut driver = Driver::new(Baremetal::new("chi@unreachable.example", 22), 43);
    assert_eq!(driver.state, DriverState::Connecting { attempts: 0 });
    assert!(!driver.is_over());
    let mut retries = 0;
    let last = loop {
        let reaction = driver.on_event(DriverEvent::ConnectResult { success: false });
        assert!(reaction.display.is_empty());
        match reaction.command {
            Command::RetryConnect { delay_seconds } => {
                assert_eq!(delay_seconds, 2);
                retries += 1;
                assert_eq!(driver.state, DriverState::Connecting { attempts: retries });
                assert!(retries < 30, "the driver retries for ever");
            }
            other => break other,
        }
    };
    assert_eq!(retries, 29);
    assert_eq!(
        last,
        Command::Abort {
            error: ProvisionError::ConnectionTimeout {
                host: "unreachable.example".to_string(),
                port: 22
            }
        }
    );
    assert_eq!(driver.state, DriverState::Failed);
    assert!(driver.is_over());
    assert_eq!(MAX_CONNECT_ATTEMPTS, 30);
    assert_eq!(RETRY_DELAY_SECONDS, 2);
    assert_eq!(
        driver.on_event(DriverEvent::ConnectResult { success: true }),
        quiet(Command::Wait)
    );
    assert_eq!(driver.state, DriverState::Failed);
}

#[test]
fn a_run_that_succeeds_goes_through_every_state() {
    let mut driver = Driver::new(Baremetal::new("host", 22), 2);
    assert_eq!(
        driver.on_event(DriverEvent::ConnectResult { success: false }),
        quiet(Command::RetryConnect { delay_seconds: 2 })
    );
    assert_eq!(
        driver.on_event(DriverEvent::ConnectResult { success: true }),
        quiet(Command::Upload)
    );
    assert_eq!(driver.state, DriverState::Uploading);
    assert_eq!(
        driver.on_event(DriverEvent::UploadResult { success: true, stderr: String::new() }),
        quiet(Command::Execute)
    );
    assert_eq!(driver.state, DriverState::Executing);
    assert_eq!(
        driver.on_event(DriverEvent::OutputLine { line: "noise".to_string() }),
        quiet(Command::Wait)
    );
    assert_eq!(
        driver.on_event(DriverEvent::OutputLine { line: "TENGU_STEP:START:1:one".to_string() }),
        Reaction {
            display: vec![IndicatorAction::Open {
                step: 1,
                total: 2,
                description: "one".to_string()
            }],
            command: Command::Wait
        }
    );
    assert_eq!(driver.state, DriverState::Executing);
    assert_eq!(
        driver.on_event(DriverEvent::OutputLine { line: "TENGU_STEP:DONE:1:one".to_string() }),
        Reaction {
            display: vec![
                IndicatorAction::Close,
                IndicatorAction::Summary {
                    step: 1,
                    total: 2,
                    outcome: MarkerAction::Done,
                    description: "one".to_string()
                }
            ],
            command: Command::Wait
        }
    );
    driver.on_event(DriverEvent::OutputLine { line: "TENGU_STEP:START:2:two".to_string() });
    assert_eq!(
        driver.on_event(DriverEvent::ScriptExited { success: true, status: "exit status: 0".to_string() }),
        Reaction { display: vec![IndicatorAction::Close], command: Command::Cleanup }
    );
    assert_eq!(driver.state, DriverState::CleaningUp);
    assert!(!driver.is_over());
    assert_eq!(
        driver.on_event(DriverEvent::CleanupResult { success: true }),
        quiet(Command::Finish)
    );
    assert_eq!(driver.state, DriverState::Done);
    assert!(driver.is_over());
}

#[test]
fn failures_end_the_run_with_their_error() {
    let mut upload = Driver::new(Baremetal::new("host", 22), 2);
    upload.on_event(DriverEvent::ConnectResult { success: true });
    assert_eq!(
        upload.on_event(DriverEvent::UploadResult {
            success: false,
            stderr: "Permission denied".to_string()
        }),
        quiet(Command::Abort {
            error: ProvisionError::UploadFailed { stderr: "Permission denied".to_string() }
        })
    );
    assert_eq!(upload.state, DriverState::Failed);

    let mut script = Driver::new(Baremetal::new("host", 22), 2);
    script.on_event(DriverEvent::ConnectResult { success: true });
    script.on_event(DriverEvent::UploadResult { success: true, stderr: String::new() });
    script.on_event(DriverEvent::OutputLine { line: "TENGU_STEP:START:1:one".to_string() });
    assert_eq!(
        script.on_event(DriverEvent::OutputLine { line: "TENGU_STEP:FAIL:1:one".to_string() })
            .display
            .len(),
        2
    );
    assert_eq!(
        script.on_event(DriverEvent::ScriptExited {
            success: false,
            status: "exit status: 1".to_string()
        }),
        quiet(Command::Abort {
            error: ProvisionError::ScriptFailed { status: "exit status: 1".to_string() }
        })
    );
    assert_eq!(script.state, DriverState::Failed);

    let mut cleanup = Driver::new(Baremetal::new("host", 22), 2);
    cleanup.on_event(DriverEvent::ConnectResult { success: true });
    cleanup.on_event(DriverEvent::UploadResult { success: true, stderr: String::new() });
    cleanup.on_event(DriverEvent::ScriptExited { success: true, status: String::new() });
    assert_eq!(
        cleanup.on_event(DriverEvent::CleanupResult { success: false }),
        quiet(Command::FinishWithWarning { warning: ProvisionError::CleanupFailed })
    );
    assert_eq!(cleanup.state, DriverState::Done);
}

#[test]
fn events_that_do_not_belong_are_passed_over() {
    let mut driver = Driver::new(Baremetal::new("host", 22), 2);
    for event in [
        DriverEvent::UploadResult { success: true, stderr: String::new() },
        DriverEvent::OutputLine { line: "TENGU_STEP:START:1:one".to_string() },
        DriverEvent::ScriptExited { success: true, status: String::new() },
        DriverEvent::CleanupResult { success: true },
    ] {
        assert_eq!(driver.on_event(event), quiet(Command::Wait));
        assert_eq!(driver.state, DriverState::Connecting { attempts: 0 });
        assert!(!driver.tracker.open);
    }
}

#[test]
fn errors_have_messages() {
    assert_eq!(
        ProvisionError::ConfigurationInvalid {
            missing: vec!["cloudflare.api_key".to_string(), "resend.api_key".to_string()]
        }
        .message(),
        "Missing required credentials: cloudflare.api_key, resend.api_key"
    );
    assert_eq!(
        ProvisionError::ConnectionTimeout { host: "h".to_string(), port: 2222 }.message(),
        "Could not connect to h:2222 via SSH"
    );
    assert_eq!(
        ProvisionError::UploadFailed { stderr: "denied".to_string() }.message(),
        "Failed to upload script: denied"
    );
    assert_eq!(
        ProvisionError::ScriptFailed { status: "exit status: 1".to_string() }.message(),
        "Provisioning script failed with exit code: exit status: 1"
    );
    assert_eq!(
        ProvisionError::CleanupFailed.message(),
        "Warning: Could not remove temp script"
    );
    assert!(!ProvisionError::CleanupFailed.is_fatal());
    assert!(ProvisionError::ScriptFailed { status: String::new() }.is_fatal());
    assert!(ProvisionError::UploadFailed { stderr: String::new() }.is_fatal());
    assert!(ProvisionError::ConnectionTimeout { host: String::new(), port: 0 }.is_fatal());
    assert!(ProvisionError::ConfigurationInvalid { missing: Vec::new() }.is_fatal());
}
