use vstd::prelude::*;

verus! {

/// Error type for agent operations.
#[derive(Debug)]
pub enum AgentError {
    SensorError(String),
    ActuationError(String),
    HandoffError(String),
    NoFallback,
}

/// The message of an agent error.
pub open spec fn error_message(e: AgentError) -> Seq<char> {
    match e {
        AgentError::SensorError(s) => "sensor error: "@ + s@,
        AgentError::ActuationError(s) => "actuation failed: "@ + s@,
        AgentError::HandoffError(s) => "handoff failed: "@ + s@,
        AgentError::NoFallback => "no fallback available"@,
    }
}

impl AgentError {
    /// The message of this error.
    pub fn to_string(&self) -> (r: String)
        ensures
            r@ == error_message(*self),
    {
        match self {
            AgentError::SensorError(s) => {
                let mut m = "sensor error: ".to_owned();
                m.append(s.as_str());
                m
            },
            AgentError::ActuationError(s) => {
                let mut m = "actuation failed: ".to_owned();
                m.append(s.as_str());
                m
            },
            AgentError::HandoffError(s) => {
                let mut m = "handoff failed: ".to_owned();
                m.append(s.as_str());
                m
            },
            AgentError::NoFallback => "no fallback available".to_owned(),
        }
    }
}

/// Emergency actions that bypass normal decision flow.
#[derive(Debug, Clone, PartialEq, Eq, Structural)]
pub enum EmergencyAction {
    Shutdown,
    Surface,
    Mayday,
}

} // verus!
