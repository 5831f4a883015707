//! Provisioning of a host that already runs, over a remote shell: how the
//! host is addressed, which commands reach it, and the state machine that
//! decides what happens next. The state machine performs nothing itself:
//! it is told what happened and says what to do.

use crate::config::TenguConfig;
use crate::error::{ErrorView, ProvisionError};
use crate::manifest::{tengu_manifest, tengu_step_count, Manifest};
use crate::progress::{
    actions_view, closing, line_actions, open_after_line, IndicatorAction, IndicatorView,
    ProgressTracker,
};
use crate::render::bash::{script_parts, script_text, BashRenderer};
use crate::render::{RenderError, Renderer};
use crate::text::{chars_of, decimal, decimal_string, find_char, find_from, push_line, string_of};
use vstd::prelude::*;
use vstd::string::*;

verus! {

/// How often a connection is attempted before the run gives up.
pub const MAX_CONNECT_ATTEMPTS: u32 = 30;

/// How long to wait between two attempts to connect, in seconds.
pub const RETRY_DELAY_SECONDS: u64 = 2;

/// Mathematical model of a host to provision.
pub ghost struct TargetView {
    pub host: Seq<char>,
    pub user: Seq<char>,
    pub port: u16,
}

/// What a host address names: `user@host` names both; a bare host is
/// reached as root. The first `@` separates the two.
pub open spec fn target_of(address: Seq<char>, port: u16) -> TargetView {
    let at = find_from(address, '@', 0);
    if at < address.len() {
        TargetView { host: address.subrange(at + 1, address.len() as int), user: address.subrange(0, at), port }
    } else {
        TargetView { host: address, user: "root"@, port }
    }
}

impl TargetView {
    /// The destination of the remote shell: `user@host`.
    pub open spec fn destination(self) -> Seq<char> {
        self.user + "@"@ + self.host
    }

    /// The options that every remote shell command carries: host keys are
    /// neither checked nor recorded, only errors are logged, and the port
    /// is given.
    pub open spec fn ssh_args(self) -> Seq<Seq<char>> {
        seq![
            "-o"@,
            "StrictHostKeyChecking=no"@,
            "-o"@,
            "UserKnownHostsFile=/dev/null"@,
            "-o"@,
            "LogLevel=ERROR"@,
            "-p"@,
            decimal(self.port as nat),
        ]
    }

    /// The arguments of the no-op that tests whether the host is
    /// reachable, within five seconds and without asking anything.
    pub open spec fn connect_args(self) -> Seq<Seq<char>> {
        self.ssh_args() + seq![
            "-o"@,
            "ConnectTimeout=5"@,
            "-o"@,
            "BatchMode=yes"@,
            self.destination(),
            "true"@,
        ]
    }

    /// The arguments of the command that writes its input to the script's
    /// place on the host and makes it executable.
    pub open spec fn upload_args(self) -> Seq<Seq<char>> {
        self.ssh_args() + seq![
            self.destination(),
            "cat > /tmp/tengu-provision.sh && chmod +x /tmp/tengu-provision.sh"@,
        ]
    }

    /// The arguments of the command that runs the script with elevated
    /// privilege under a pseudo-terminal.
    pub open spec fn execute_args(self) -> Seq<Seq<char>> {
        self.ssh_args() + seq!["-t"@, self.destination(), "sudo /tmp/tengu-provision.sh"@]
    }

    /// The arguments of the command that removes the script from the host.
    pub open spec fn cleanup_args(self) -> Seq<Seq<char>> {
        self.ssh_args() + seq![self.destination(), "rm -f /tmp/tengu-provision.sh"@]
    }
}

/// A host that is provisioned over a remote shell.
#[derive(Debug, Clone, PartialEq, Eq)]
pub struct Baremetal {
    /// Host name or address.
    pub host: String,
    /// User to log in as.
    pub user: String,
    /// Port of the remote shell.
    pub port: u16,
}

impl View for Baremetal {
    type V = TargetView;

    open spec fn view(&self) -> TargetView {
        TargetView { host: self.host@, user: self.user@, port: self.port }
    }
}

impl Baremetal {
    /// The host that an address names: `hostname`, reached as root,
    /// or `user@hostname`.
    pub fn new(host: &str, port: u16) -> (r: Self)
        ensures
            r@ == target_of(host@, port),
    {
        let chars = chars_of(host);
        let at = find_char(&chars, '@', 0);
        if at < chars.len() {
            Baremetal {
                host: string_of(&chars, at + 1, chars.len()),
                user: string_of(&chars, 0, at),
                port,
            }
        } else {
            Baremetal { host: String::from_str(host), user: String::from_str("root"), port }
        }
    }

    /// The provisioning script for a configuration: verbose and in color.
    pub fn generate_script(config: &TenguConfig) -> (r: Result<String, RenderError>)
        ensures
            r matches Ok(script) && script@ == script_text(
                script_parts(tengu_manifest(config@), true, true),
                true,
            ),
    {
        let manifest = Manifest::tengu(config);
        let renderer = BashRenderer::new().verbose(true).color(true);
        renderer.render(&manifest)
    }

    /// The number of steps that the script for a configuration runs,
    /// found by assembling the manifest anew.
    pub fn expected_steps(config: &TenguConfig) -> (r: usize)
        ensures
            r == tengu_manifest(config@).steps.len(),
            r == tengu_step_count(),
    {
        Manifest::tengu(config).step_count()
    }

    /// The destination of the remote shell.
    pub fn ssh_destination(&self) -> (r: String)
        ensures
            r@ == self@.destination(),
    {
        let mut out = self.user.clone();
        out.append("@");
        out.append(self.host.as_str());
        out
    }

    /// The options that every remote shell command carries.
    pub fn ssh_args(&self) -> (r: Vec<String>)
        ensures
            r.deep_view() == self@.ssh_args(),
    {
        let mut args: Vec<String> = Vec::new();
        assert(args.deep_view() =~= Seq::<Seq<char>>::empty());
        push_line(&mut args, String::from_str("-o"));
        push_line(&mut args, String::from_str("StrictHostKeyChecking=no"));
        push_line(&mut args, String::from_str("-o"));
        push_line(&mut args, String::from_str("UserKnownHostsFile=/dev/null"));
        push_line(&mut args, String::from_str("-o"));
        push_line(&mut args, String::from_str("LogLevel=ERROR"));
        push_line(&mut args, String::from_str("-p"));
        push_line(&mut args, decimal_string(self.port as usize));
        assert(args.deep_view() =~= self@.ssh_args());
        args
    }

    /// The arguments of the no-op that tests whether the host is reachable.
    pub fn connect_args(&self) -> (r: Vec<String>)
        ensures
            r.deep_view() == self@.connect_args(),
    {
        let mut args = self.ssh_args();
        push_line(&mut args, String::from_str("-o"));
        push_line(&mut args, String::from_str("ConnectTimeout=5"));
        push_line(&mut args, String::from_str("-o"));
        push_line(&mut args, String::from_str("BatchMode=yes"));
        push_line(&mut args, self.ssh_destination());
        push_line(&mut args, String::from_str("true"));
        assert(args.deep_view() =~= self@.connect_args());
        args
    }

    /// The arguments of the command that takes the script on its input.
    pub fn upload_args(&self) -> (r: Vec<String>)
        ensures
            r.deep_view() == self@.upload_args(),
    {
        let mut args = self.ssh_args();
        push_line(&mut args, self.ssh_destination());
        push_line(
            &mut args,
            String::from_str("cat > /tmp/tengu-provision.sh && chmod +x /tmp/tengu-provision.sh"),
        );
        assert(args.deep_view() =~= self@.upload_args());
        args
    }

    /// The arguments of the command that runs the script.
    pub fn execute_args(&self) -> (r: Vec<String>)
        ensures
            r.deep_view() == self@.execute_args(),
    {
        let mut args = self.ssh_args();
        push_line(&mut args, String::from_str("-t"));
        push_line(&mut args, self.ssh_destination());
        push_line(&mut args, String::from_str("sudo /tmp/tengu-provision.sh"));
        assert(args.deep_view() =~= self@.execute_args());
        args
    }

    /// The arguments of the command that removes the script.
    pub fn cleanup_args(&self) -> (r: Vec<String>)
        ensures
            r.deep_view() == self@.cleanup_args(),
    {
        let mut args = self.ssh_args();
        push_line(&mut args, self.ssh_destination());
        push_line(&mut args, String::from_str("rm -f /tmp/tengu-provision.sh"));
        assert(args.deep_view() =~= self@.cleanup_args());
        args
    }
}

/// Where a run stands.
#[derive(Debug, Clone, Copy, PartialEq, Eq, Structural)]
pub enum DriverState {
    /// Waiting for the host to accept a connection; `attempts` have failed.
    Connecting { attempts: u32 },
    /// The script is being written to the host.
    Uploading,
    /// The script runs and its output is read.
    Executing,
    /// The script is being removed from the host.
    CleaningUp,
    /// The run is through.
    Done,
    /// The run was given up.
    Failed,
}

/// Mathematical model of what happened outside.
pub ghost enum HappeningView {
    ConnectResult { success: bool },
    UploadResult { success: bool, stderr: Seq<char> },
    OutputLine { line: Seq<char> },
    ScriptExited { success: bool, status: Seq<char> },
    CleanupResult { success: bool },
}

/// What happened outside since the last command.
#[derive(Debug, Clone, PartialEq, Eq)]
pub enum DriverEvent {
    /// An attempt to connect ended.
    ConnectResult { success: bool },
    /// The upload ended; `stderr` is what the remote side wrote to its
    /// error stream, or why the transport failed.
    UploadResult { success: bool, stderr: String },
    /// The script wrote a line.
    OutputLine { line: String },
    /// The script's output is closed and the script ended, with this exit
    /// status.
    ScriptExited { success: bool, status: String },
    /// The removal of the script ended.
    CleanupResult { success: bool },
}

impl View for DriverEvent {
    type V = HappeningView;

    open spec fn view(&self) -> HappeningView {
        match self {
            DriverEvent::ConnectResult { success } => HappeningView::ConnectResult {
                success: *success,
            },
            DriverEvent::UploadResult { success, stderr } => HappeningView::UploadResult {
                success: *success,
                stderr: stderr@,
            },
            DriverEvent::OutputLine { line } => HappeningView::OutputLine { line: line@ },
            DriverEvent::ScriptExited { success, status } => HappeningView::ScriptExited {
                success: *success,
                status: status@,
            },
            DriverEvent::CleanupResult { success } => HappeningView::CleanupResult {
                success: *success,
            },
        }
    }
}

/// Mathematical model of a command.
pub ghost enum CommandView {
    Connect,
    RetryConnect { delay_seconds: u64 },
    Upload,
    Execute,
    Cleanup,
    Wait,
    Finish,
    FinishWithWarning { warning: ErrorView },
    Abort { error: ErrorView },
}

/// What is to be done next outside.
#[derive(Debug, Clone, PartialEq, Eq)]
pub enum Command {
    /// Try to connect now.
    Connect,
    /// Wait for the delay, then try to connect again.
    RetryConnect { delay_seconds: u64 },
    /// Write the script to the host.
    Upload,
    /// Run the script and report its output line by line, then its exit.
    Execute,
    /// Remove the script from the host.
    Cleanup,
    /// Nothing new: go on with what is under way.
    Wait,
    /// The run succeeded.
    Finish,
    /// The run succeeded; the warning is to be shown.
    FinishWithWarning { warning: ProvisionError },
    /// The run failed with this error.
    Abort { error: ProvisionError },
}

impl View for Command {
    type V = CommandView;

    open spec fn view(&self) -> CommandView {
        match self {
            Command::Connect => CommandView::Connect,
            Command::RetryConnect { delay_seconds } => CommandView::RetryConnect {
                delay_seconds: *delay_seconds,
            },
            Command::Upload => CommandView::Upload,
            Command::Execute => CommandView::Execute,
            Command::Cleanup => CommandView::Cleanup,
            Command::Wait => CommandView::Wait,
            Command::Finish => CommandView::Finish,
            Command::FinishWithWarning { warning } => CommandView::FinishWithWarning {
                warning: warning@,
            },
            Command::Abort { error } => CommandView::Abort { error: error@ },
        }
    }
}

/// Mathematical model of a reaction.
pub ghost struct ReactionView {
    pub display: Seq<IndicatorView>,
    pub command: CommandView,
}

/// The driver's answer to an event: what the progress display is to do,
/// and what is to be done next.
#[derive(Debug, Clone, PartialEq, Eq)]
pub struct Reaction {
    pub display: Vec<IndicatorAction>,
    pub command: Command,
}

impl View for Reaction {
    type V = ReactionView;

    open spec fn view(&self) -> ReactionView {
        ReactionView { display: actions_view(self.display@), command: self.command@ }
    }
}

/// Mathematical model of a driver.
pub ghost struct DriverView {
    pub target: TargetView,
    pub total: nat,
    pub open: bool,
    pub state: DriverState,
}

/// A reaction that leaves the display alone.
pub open spec fn quiet(command: CommandView) -> ReactionView {
    ReactionView { display: Seq::empty(), command }
}

/// The transition function of a run: the next state and the reaction to
/// an event.
///
/// A failed attempt to connect is followed by another one after the delay,
/// until the budget of attempts is spent. A failed upload and a failed
/// script end the run. While the script runs, its lines drive the progress
/// display and nothing else. A failed cleanup is a warning. An event that
/// does not belong to the state is passed over.
pub open spec fn driver_next(d: DriverView, e: HappeningView) -> (DriverView, ReactionView) {
    match (d.state, e) {
        (DriverState::Connecting { attempts }, HappeningView::ConnectResult { success }) => {
            if success {
                (DriverView { state: DriverState::Uploading, ..d }, quiet(CommandView::Upload))
            } else if attempts + 1 >= MAX_CONNECT_ATTEMPTS {
                (
                    DriverView { state: DriverState::Failed, ..d },
                    quiet(
                        CommandView::Abort {
                            error: ErrorView::ConnectionTimeout {
                                host: d.target.host,
                                port: d.target.port,
                            },
                        },
                    ),
                )
            } else {
                (
                    DriverView {
                        state: DriverState::Connecting { attempts: (attempts + 1) as u32 },
                        ..d
                    },
                    quiet(CommandView::RetryConnect { delay_seconds: RETRY_DELAY_SECONDS }),
                )
            }
        },
        (DriverState::Uploading, HappeningView::UploadResult { success, stderr }) => {
            if success {
                (DriverView { state: DriverState::Executing, ..d }, quiet(CommandView::Execute))
            } else {
                (
                    DriverView { state: DriverState::Failed, ..d },
                    quiet(CommandView::Abort { error: ErrorView::UploadFailed { stderr } }),
                )
            }
        },
        (DriverState::Executing, HappeningView::OutputLine { line }) => (
            DriverView { open: open_after_line(d.open, line), ..d },
            ReactionView {
                display: line_actions(d.open, d.total, line),
                command: CommandView::Wait,
            },
        ),
        (DriverState::Executing, HappeningView::ScriptExited { success, status }) => {
            if success {
                (
                    DriverView { state: DriverState::CleaningUp, open: false, ..d },
                    ReactionView { display: closing(d.open), command: CommandView::Cleanup },
                )
            } else {
                (
                    DriverView { state: DriverState::Failed, open: false, ..d },
                    ReactionView {
                        display: closing(d.open),
                        command: CommandView::Abort { error: ErrorView::ScriptFailed { status } },
                    },
                )
            }
        },
        (DriverState::CleaningUp, HappeningView::CleanupResult { success }) => (
            DriverView { state: DriverState::Done, ..d },
            quiet(
                if success {
                    CommandView::Finish
                } else {
                    CommandView::FinishWithWarning { warning: ErrorView::CleanupFailed }
                },
            ),
        ),
        _ => (d, quiet(CommandView::Wait)),
    }
}

/// The state machine of one run against one host.
#[derive(Debug, Clone, PartialEq, Eq)]
pub struct Driver {
    /// The host.
    pub target: Baremetal,
    /// The progress display's state.
    pub tracker: ProgressTracker,
    /// Where the run stands.
    pub state: DriverState,
}

impl View for Driver {
    type V = DriverView;

    open spec fn view(&self) -> DriverView {
        DriverView {
            target: self.target@,
            total: self.tracker.total as nat,
            open: self.tracker.open,
            state: self.state,
        }
    }
}

fn silent(command: Command) -> (r: Reaction)
    ensures
        r@ == quiet(command@),
{
    let r = Reaction { display: Vec::new(), command };
    assert(actions_view(r.display@) =~= Seq::empty());
    r
}

impl Driver {
    /// A run that has not connected yet. Its first command is to connect.
    pub fn new(target: Baremetal, total_steps: usize) -> (r: Self)
        ensures
            r@ == (DriverView {
                target: target@,
                total: total_steps as nat,
                open: false,
                state: DriverState::Connecting { attempts: 0 },
            }),
    {
        Driver {
            target,
            tracker: ProgressTracker::new(total_steps),
            state: DriverState::Connecting { attempts: 0 },
        }
    }

    /// Whether the run has ended, well or badly.
    pub fn is_over(&self) -> (r: bool)
        ensures
            r == (self.state is Done || self.state is Failed),
    {
        match self.state {
            DriverState::Done => true,
            DriverState::Failed => true,
            _ => false,
        }
    }

    /// Takes what happened and says what to do next.
    pub fn on_event(&mut self, event: DriverEvent) -> (r: Reaction)
        ensures
            (final(self)@, r@) == driver_next(old(self)@, event@),
    {
        match (self.state, event) {
            (DriverState::Connecting { attempts }, DriverEvent::ConnectResult { success }) => {
                if success {
                    self.state = DriverState::Uploading;
                    silent(Command::Upload)
                } else if attempts >= MAX_CONNECT_ATTEMPTS - 1 {
                    self.state = DriverState::Failed;
                    silent(
                        Command::Abort {
                            error: ProvisionError::ConnectionTimeout {
                                host: self.target.host.clone(),
                                port: self.target.port,
                            },
                        },
                    )
                } else {
                    self.state = DriverState::Connecting { attempts: attempts + 1 };
                    silent(Command::RetryConnect { delay_seconds: RETRY_DELAY_SECONDS })
                }
            },
            (DriverState::Uploading, DriverEvent::UploadResult { success, stderr }) => {
                if success {
                    self.state = DriverState::Executing;
                    silent(Command::Execute)
                } else {
                    self.state = DriverState::Failed;
                    silent(Command::Abort { error: ProvisionError::UploadFailed { stderr } })
                }
            },
            (DriverState::Executing, DriverEvent::OutputLine { line }) => {
                let display = self.tracker.on_line(line.as_str());
                Reaction { display, command: Command::Wait }
            },
            (DriverState::Executing, DriverEvent::ScriptExited { success, status }) => {
                let display = self.tracker.finish();
                if success {
                    self.state = DriverState::CleaningUp;
                    Reaction { display, command: Command::Cleanup }
                } else {
                    self.state = DriverState::Failed;
                    Reaction {
                        display,
                        command: Command::Abort { error: ProvisionError::ScriptFailed { status } },
                    }
                }
            },
            (DriverState::CleaningUp, DriverEvent::CleanupResult { success }) => {
                self.state = DriverState::Done;
                if success {
                    silent(Command::Finish)
                } else {
                    silent(Command::FinishWithWarning { warning: ProvisionError::CleanupFailed })
                }
            },
            _ => silent(Command::Wait),
        }
    }
}

/// The driver after a number of failed attempts to connect in a row.
pub open spec fn after_failed_connects(d: DriverView, failures: nat) -> DriverView
    decreases failures,
{
    if failures == 0 {
        d
    } else {
        driver_next(
            after_failed_connects(d, (failures - 1) as nat),
            HappeningView::ConnectResult { success: false },
        ).0
    }
}

/// A host that never accepts a connection does not hold the run for ever:
/// each failure but the last asks for another attempt, the last failure
/// within the budget ends the run with a connection timeout that names the
/// host and the port, and the run has then failed.
pub proof fn lemma_connecting_gives_up(d: DriverView, failures: nat)
    requires
        d.state == (DriverState::Connecting { attempts: 0 }),
        failures < MAX_CONNECT_ATTEMPTS,
    ensures
        after_failed_connects(d, failures) == (DriverView {
            state: DriverState::Connecting { attempts: failures as u32 },
            ..d
        }),
        failures + 1 < MAX_CONNECT_ATTEMPTS ==> driver_next(
            after_failed_connects(d, failures),
            HappeningView::ConnectResult { success: false },
        ).1 == quiet(CommandView::RetryConnect { delay_seconds: RETRY_DELAY_SECONDS }),
        failures + 1 == MAX_CONNECT_ATTEMPTS ==> driver_next(
            after_failed_connects(d, failures),
            HappeningView::ConnectResult { success: false },
        ).1 == quiet(
            CommandView::Abort {
                error: ErrorView::ConnectionTimeout { host: d.target.host, port: d.target.port },
            },
        ),
        after_failed_connects(d, MAX_CONNECT_ATTEMPTS as nat).state is Failed,
{
    lemma_failed_connects(d, failures);
    lemma_failed_connects(d, (MAX_CONNECT_ATTEMPTS - 1) as nat);
}

proof fn lemma_failed_connects(d: DriverView, failures: nat)
    requires
        d.state == (DriverState::Connecting { attempts: 0 }),
        failures < MAX_CONNECT_ATTEMPTS,
    ensures
        after_failed_connects(d, failures) == (DriverView {
            state: DriverState::Connecting { attempts: failures as u32 },
            ..d
        }),
    decreases failures,
{
    if failures > 0 {
        lemma_failed_connects(d, (failures - 1) as nat);
    }
}

} // verus!
