use vstd::prelude::*;

use crate::render::{Span, Tone, span};
use crate::text::same_text;
use crate::watch::text_of;

verus! {

/// Where a deployment of an app stands.
#[derive(Clone, Copy, Debug, PartialEq, Eq, Structural)]
pub enum DeploymentStatus {
    Created,
    InProgress,
    Deployed,
    Success,
    Failed,
}

/// The severity of a log entry.
#[derive(Clone, Copy, Debug, PartialEq, Eq, Structural)]
pub enum LogLevel {
    Debug,
    Info,
    Warn,
    Error,
}

/// Where a managed database stands.
#[derive(Clone, Copy, Debug, PartialEq, Eq, Structural)]
pub enum DatabaseState {
    Initializing,
    Ready,
    Paused,
    Stopping,
    Error,
}

/// A database's reported status.
#[derive(Clone, Copy, Debug)]
pub struct DatabaseStatus {
    pub state: DatabaseState,
}

/// The compute a database asks for.
#[derive(Clone, Debug)]
pub struct ComputeRequested {
    pub vcpu: String,
    pub memory: String,
}

#[derive(Clone, Debug)]
pub struct DatabaseCompute {
    pub requested: ComputeRequested,
}

pub open spec fn deployment_status_name(s: DeploymentStatus) -> Seq<char> {
    match s {
        DeploymentStatus::Created => "created"@,
        DeploymentStatus::InProgress => "in_progress"@,
        DeploymentStatus::Deployed => "deployed"@,
        DeploymentStatus::Success => "success"@,
        DeploymentStatus::Failed => "failed"@,
    }
}

pub open spec fn deployment_status_tone(s: DeploymentStatus) -> Tone {
    match s {
        DeploymentStatus::Created => Tone::Yellow,
        DeploymentStatus::InProgress => Tone::Blue,
        DeploymentStatus::Deployed => Tone::Green,
        DeploymentStatus::Success => Tone::Green,
        DeploymentStatus::Failed => Tone::Red,
    }
}

impl DeploymentStatus {
    /// The status as the API names it.
    pub fn as_str(&self) -> (r: &'static str)
        ensures
            r@ == deployment_status_name(*self),
    {
        match self {
            DeploymentStatus::Created => "created",
            DeploymentStatus::InProgress => "in_progress",
            DeploymentStatus::Deployed => "deployed",
            DeploymentStatus::Success => "success",
            DeploymentStatus::Failed => "failed",
        }
    }

    /// The status as listed: its name, colored by how it went.
    pub fn styled(&self) -> (r: Span)
        ensures
            r@ == (deployment_status_name(*self), deployment_status_tone(*self)),
    {
        let tone = match self {
            DeploymentStatus::Created => Tone::Yellow,
            DeploymentStatus::InProgress => Tone::Blue,
            DeploymentStatus::Deployed => Tone::Green,
            DeploymentStatus::Success => Tone::Green,
            DeploymentStatus::Failed => Tone::Red,
        };
        span(self.as_str(), tone)
    }
}

pub open spec fn log_level_name(l: LogLevel) -> Seq<char> {
    match l {
        LogLevel::Debug => "DEBUG"@,
        LogLevel::Info => "INFO"@,
        LogLevel::Warn => "WARN"@,
        LogLevel::Error => "ERROR"@,
    }
}

/// A level as listed in the log view: padded to a common width.
pub open spec fn log_level_label(l: LogLevel) -> (Seq<char>, Tone) {
    match l {
        LogLevel::Debug => ("DEBUG"@, Tone::Dimmed),
        LogLevel::Info => ("INFO "@, Tone::Blue),
        LogLevel::Warn => ("WARN "@, Tone::Yellow),
        LogLevel::Error => ("ERROR"@, Tone::Red),
    }
}

impl LogLevel {
    /// The level in capitals.
    pub fn as_str(&self) -> (r: &'static str)
        ensures
            r@ == log_level_name(*self),
    {
        match self {
            LogLevel::Debug => "DEBUG",
            LogLevel::Info => "INFO",
            LogLevel::Warn => "WARN",
            LogLevel::Error => "ERROR",
        }
    }

    pub fn styled(&self) -> (r: Span)
        ensures
            r@ == log_level_label(*self),
    {
        match self {
            LogLevel::Debug => span("DEBUG", Tone::Dimmed),
            LogLevel::Info => span("INFO ", Tone::Blue),
            LogLevel::Warn => span("WARN ", Tone::Yellow),
            LogLevel::Error => span("ERROR", Tone::Red),
        }
    }
}

pub open spec fn database_state_name(s: DatabaseState) -> Seq<char> {
    match s {
        DatabaseState::Initializing => "Initializing"@,
        DatabaseState::Ready => "Ready"@,
        DatabaseState::Paused => "Paused"@,
        DatabaseState::Stopping => "Stopping"@,
        DatabaseState::Error => "Error"@,
    }
}

pub open spec fn database_state_tone(s: DatabaseState) -> Tone {
    match s {
        DatabaseState::Initializing => Tone::Yellow,
        DatabaseState::Ready => Tone::Green,
        DatabaseState::Paused => Tone::Dimmed,
        DatabaseState::Stopping => Tone::Yellow,
        DatabaseState::Error => Tone::Red,
    }
}

impl DatabaseState {
    pub fn as_str(&self) -> (r: &'static str)
        ensures
            r@ == database_state_name(*self),
    {
        match self {
            DatabaseState::Initializing => "Initializing",
            DatabaseState::Ready => "Ready",
            DatabaseState::Paused => "Paused",
            DatabaseState::Stopping => "Stopping",
            DatabaseState::Error => "Error",
        }
    }

    pub fn styled(&self) -> (r: Span)
        ensures
            r@ == (database_state_name(*self), database_state_tone(*self)),
    {
        let tone = match self {
            DatabaseState::Initializing => Tone::Yellow,
            DatabaseState::Ready => Tone::Green,
            DatabaseState::Paused => Tone::Dimmed,
            DatabaseState::Stopping => Tone::Yellow,
            DatabaseState::Error => Tone::Red,
        };
        span(self.as_str(), tone)
    }
}

/// Whether changing a database's compute needs its current settings: when
/// only one of CPU and memory is given, the other is kept as it is.
pub fn compute_needs_current(vcpu: &Option<String>, memory: &Option<String>) -> (r: bool)
    ensures
        r == (vcpu is Some != memory is Some),
{
    vcpu.is_some() != memory.is_some()
}

/// The compute to request in an update: the given CPU and memory, the
/// current value standing in for the one not given; none when neither is.
pub fn compute_update(
    vcpu: Option<String>,
    memory: Option<String>,
    current: Option<ComputeRequested>,
) -> (r: Option<DatabaseCompute>)
    requires
        vcpu is Some != memory is Some ==> current is Some,
    ensures
        (vcpu is None && memory is None) <==> r is None,
        r matches Some(c) ==> Some(c.requested.vcpu@) == match text_of(vcpu) {
            Some(v) => Some(v),
            None => Some(current->0.vcpu@),
        },
        r matches Some(c) ==> Some(c.requested.memory@) == match text_of(memory) {
            Some(m) => Some(m),
            None => Some(current->0.memory@),
        },
{
    match (vcpu, memory) {
        (Some(v), Some(m)) => Some(DatabaseCompute { requested: ComputeRequested { vcpu: v, memory: m } }),
        (Some(v), None) => {
            let cur = current.unwrap();
            Some(DatabaseCompute { requested: ComputeRequested { vcpu: v, memory: cur.memory } })
        },
        (None, Some(m)) => {
            let cur = current.unwrap();
            Some(DatabaseCompute { requested: ComputeRequested { vcpu: cur.vcpu, memory: m } })
        },
        (None, None) => None,
    }
}

/// The first position in `names` that holds `name`, if any: how a named
/// resource is found in a listing.
pub fn find_by_name(names: &Vec<String>, name: &str) -> (r: Option<usize>)
    ensures
        r matches Some(i) ==> i < names@.len() && names@[i as int]@ == name@ && forall|j: int|
            0 <= j < i ==> #[trigger] names@[j]@ != name@,
        r is None ==> forall|j: int| 0 <= j < names@.len() ==> #[trigger] names@[j]@ != name@,
{
    let mut i: usize = 0;
    while i < names.len()
        invariant
            i <= names@.len(),
            forall|j: int| 0 <= j < i ==> #[trigger] names@[j]@ != name@,
        decreases names@.len() - i,
    {
        if same_text(&names[i], name) {
            return Some(i);
        }
        i = i + 1;
    }
    None
}

} // verus!
