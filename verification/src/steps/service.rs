//! Services that must be enabled or running.

use super::{optional_line, push_optional, AnyStep, CloudInitFragment, Step, StepView};
use vstd::prelude::*;
use vstd::string::*;

verus! {

/// Description of a service step.
pub open spec fn service_description(name: Seq<char>) -> Seq<char> {
    "Ensure service "@ + name
}

/// The query whether a service is in the given state (`is-enabled`,
/// `is-active`), made silent.
pub open spec fn service_query(query: Seq<char>, name: Seq<char>) -> Seq<char> {
    "systemctl "@ + query + " "@ + name + " >/dev/null 2>&1"@
}

/// Bring a service into a state unless the query says it is there already.
pub open spec fn service_ensure(query: Seq<char>, action: Seq<char>, name: Seq<char>) -> Seq<
    char,
> {
    service_query(query, name) + " || systemctl "@ + action + " "@ + name
}

/// Shell statements of a service step: enabling and starting are guarded
/// one by one.
pub open spec fn service_bash(name: Seq<char>, enabled: bool, started: bool) -> Seq<Seq<char>> {
    optional_line(
        if enabled {
            Some(service_ensure("is-enabled"@, "enable"@, name))
        } else {
            None
        },
    ) + optional_line(
        if started {
            Some(service_ensure("is-active"@, "start"@, name))
        } else {
            None
        },
    )
}

/// Guard of a service step: running where it is to be started, else enabled
/// where it is to be enabled, else none.
pub open spec fn service_check(name: Seq<char>, enabled: bool, started: bool) -> Option<
    Seq<char>,
> {
    if started {
        Some(service_query("is-active"@, name))
    } else if enabled {
        Some(service_query("is-enabled"@, name))
    } else {
        None
    }
}

/// Ensure that a systemd service is enabled, started, or both.
#[derive(Debug, Clone)]
pub struct EnsureService {
    /// Service name.
    pub name: String,
    /// Whether to enable the service.
    pub enabled: bool,
    /// Whether to start the service.
    pub started: bool,
    /// Description.
    pub description: String,
}

impl View for EnsureService {
    type V = StepView;

    open spec fn view(&self) -> StepView {
        StepView::Service {
            name: self.name@,
            enabled: self.enabled,
            started: self.started,
            description: self.description@,
        }
    }
}

fn query_line(query: &str, name: &str) -> (r: String)
    ensures
        r@ == service_query(query@, name@),
{
    let mut line = String::from_str("systemctl ");
    line.append(query);
    line.append(" ");
    line.append(name);
    line.append(" >/dev/null 2>&1");
    line
}

fn ensure_line(query: &str, action: &str, name: &str) -> (r: String)
    ensures
        r@ == service_ensure(query@, action@, name@),
{
    let mut line = query_line(query, name);
    line.append(" || systemctl ");
    line.append(action);
    line.append(" ");
    line.append(name);
    line
}

impl EnsureService {
    /// A service step that enables and starts the service.
    pub fn new(name: &str) -> (r: Self)
        ensures
            r@ == (StepView::Service {
                name: name@,
                enabled: true,
                started: true,
                description: service_description(name@),
            }),
    {
        let mut description = String::from_str("Ensure service ");
        description.append(name);
        EnsureService { name: String::from_str(name), enabled: true, started: true, description }
    }

    /// Sets whether the service is to be enabled.
    pub fn enabled(self, enabled: bool) -> (r: Self)
        ensures
            r@ == (StepView::Service {
                name: self.name@,
                enabled,
                started: self.started,
                description: self.description@,
            }),
    {
        EnsureService {
            name: self.name,
            enabled,
            started: self.started,
            description: self.description,
        }
    }

    /// Sets whether the service is to be started.
    pub fn started(self, started: bool) -> (r: Self)
        ensures
            r@ == (StepView::Service {
                name: self.name@,
                enabled: self.enabled,
                started,
                description: self.description@,
            }),
    {
        EnsureService {
            name: self.name,
            enabled: self.enabled,
            started,
            description: self.description,
        }
    }
}

impl Step for EnsureService {
    open spec fn model(&self) -> StepView {
        self@
    }

    fn description(&self) -> (r: &str) {
        self.description.as_str()
    }

    fn to_cloud_init(&self) -> (r: CloudInitFragment) {
        CloudInitFragment::of_commands(self.to_bash())
    }

    fn to_bash(&self) -> (r: Vec<String>) {
        let mut cmds: Vec<String> = Vec::new();
        assert(cmds.deep_view() =~= Seq::<Seq<char>>::empty());
        let enable = if self.enabled {
            Some(ensure_line("is-enabled", "enable", self.name.as_str()))
        } else {
            None
        };
        push_optional(&mut cmds, enable);
        let start = if self.started {
            Some(ensure_line("is-active", "start", self.name.as_str()))
        } else {
            None
        };
        push_optional(&mut cmds, start);
        assert(cmds.deep_view() =~= self@.bash());
        cmds
    }

    fn check_command(&self) -> (r: Option<String>) {
        if self.started {
            Some(query_line("is-active", self.name.as_str()))
        } else if self.enabled {
            Some(query_line("is-enabled", self.name.as_str()))
        } else {
            None
        }
    }

    fn into_any(self) -> (r: AnyStep) {
        AnyStep::Service(self)
    }
}

} // verus!
