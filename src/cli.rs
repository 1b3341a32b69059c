//! The command line's commands, as plain values, and the verdicts of the
//! commands that report: what they print and how they exit.

use vstd::prelude::*;

verus! {

/// The parsed command line.
#[derive(Debug)]
pub struct Cli {
    pub command: Option<Commands>,
}

/// The top-level commands.
#[derive(Debug)]
pub enum Commands {
    /// Commands related to the web server.
    Server { command: Option<ServerCommands> },
    /// Getting and setting the health state of the monitored application.
    State { command: Option<StateCommands> },
    /// Getting and setting the deployment phase.
    Phase { command: Option<PhaseCommands> },
    /// A quick health check of the server environment.
    Check,
}

/// Commands of the web server.
#[derive(Debug)]
pub enum ServerCommands {
    /// Starts the web server.
    Start,
    /// Tells whether the web server runs.
    Status,
}

/// Commands on the health state.
#[derive(Debug)]
pub enum StateCommands {
    /// Prints the health state.
    Get,
    /// Sets the health state, with an optional message.
    Update { health_state: HealthState, message: Option<String> },
}

/// A health state as given on the command line.
#[derive(Clone, Copy, Debug, PartialEq, Eq, Structural)]
pub enum HealthState {
    Healthy,
    Unhealthy,
}

/// Commands on the deployment phase.
#[derive(Debug)]
pub enum PhaseCommands {
    /// Prints the deployment phase.
    Get,
    /// Sets the deployment phase.
    Update { phase: DeploymentPhase },
}

/// A deployment phase as given on the command line.
#[derive(Clone, Copy, Debug, PartialEq, Eq, Structural)]
pub enum DeploymentPhase {
    Deploying,
    Online,
}

impl HealthState {
    /// Reads a health state in any case; the error names the text.
    pub fn parse(s: &str) -> (r: Result<HealthState, String>)
        ensures
            match crate::status::health_of_text(s@) {
                Some(h) => r == Ok::<HealthState, String>(HealthState::from_spec(h)),
                None => r matches Err(e) && e@ == "Invalid state: "@ + s@,
            },
    {
        match crate::status::HealthState::from_name(s) {
            Some(h) => Ok(HealthState::from_status(h)),
            None => Err(String::from_str("Invalid state: ").concat(s)),
        }
    }

    /// The command-line state of a status health state.
    pub open spec fn from_spec(h: crate::status::HealthState) -> HealthState {
        match h {
            crate::status::HealthState::Healthy => HealthState::Healthy,
            crate::status::HealthState::Unhealthy => HealthState::Unhealthy,
        }
    }

    /// The command-line state of a status health state.
    pub fn from_status(h: crate::status::HealthState) -> (r: HealthState)
        ensures
            r == HealthState::from_spec(h),
    {
        match h {
            crate::status::HealthState::Healthy => HealthState::Healthy,
            crate::status::HealthState::Unhealthy => HealthState::Unhealthy,
        }
    }
}

impl DeploymentPhase {
    /// Reads a deployment phase in any case; the error names the text.
    pub fn parse(s: &str) -> (r: Result<DeploymentPhase, String>)
        ensures
            match crate::status::phase_of_text(s@) {
                Some(p) => r == Ok::<DeploymentPhase, String>(DeploymentPhase::from_spec(p)),
                None => r matches Err(e) && e@ == "Invalid phase: "@ + s@,
            },
    {
        match crate::status::DeploymentPhase::from_name(s) {
            Some(p) => Ok(DeploymentPhase::from_status(p)),
            None => Err(String::from_str("Invalid phase: ").concat(s)),
        }
    }

    /// The command-line phase of a status phase.
    pub open spec fn from_spec(p: crate::status::DeploymentPhase) -> DeploymentPhase {
        match p {
            crate::status::DeploymentPhase::Deploying => DeploymentPhase::Deploying,
            crate::status::DeploymentPhase::Online => DeploymentPhase::Online,
        }
    }

    /// The command-line phase of a status phase.
    pub fn from_status(p: crate::status::DeploymentPhase) -> (r: DeploymentPhase)
        ensures
            r == DeploymentPhase::from_spec(p),
    {
        match p {
            crate::status::DeploymentPhase::Deploying => DeploymentPhase::Deploying,
            crate::status::DeploymentPhase::Online => DeploymentPhase::Online,
        }
    }
}

impl std::str::FromStr for HealthState {
    type Err = String;

    fn from_str(s: &str) -> Result<Self, Self::Err> {
        HealthState::parse(s)
    }
}

impl std::str::FromStr for DeploymentPhase {
    type Err = String;

    fn from_str(s: &str) -> Result<Self, Self::Err> {
        DeploymentPhase::parse(s)
    }
}

impl From<HealthState> for crate::status::HealthState {
    fn from(arg: HealthState) -> (r: crate::status::HealthState) {
        match arg {
            HealthState::Healthy => crate::status::HealthState::Healthy,
            HealthState::Unhealthy => crate::status::HealthState::Unhealthy,
        }
    }
}

impl vstd::std_specs::convert::FromSpecImpl<HealthState> for crate::status::HealthState {
    open spec fn obeys_from_spec() -> bool {
        true
    }

    open spec fn from_spec(arg: HealthState) -> crate::status::HealthState {
        match arg {
            HealthState::Healthy => crate::status::HealthState::Healthy,
            HealthState::Unhealthy => crate::status::HealthState::Unhealthy,
        }
    }
}

impl From<DeploymentPhase> for crate::status::DeploymentPhase {
    fn from(arg: DeploymentPhase) -> (r: crate::status::DeploymentPhase) {
        match arg {
            DeploymentPhase::Deploying => crate::status::DeploymentPhase::Deploying,
            DeploymentPhase::Online => crate::status::DeploymentPhase::Online,
        }
    }
}

impl vstd::std_specs::convert::FromSpecImpl<DeploymentPhase> for crate::status::DeploymentPhase {
    open spec fn obeys_from_spec() -> bool {
        true
    }

    open spec fn from_spec(arg: DeploymentPhase) -> crate::status::DeploymentPhase {
        match arg {
            DeploymentPhase::Deploying => crate::status::DeploymentPhase::Deploying,
            DeploymentPhase::Online => crate::status::DeploymentPhase::Online,
        }
    }
}

/// What the quick check command prints for an outcome, and its exit code:
/// `ok` and 0 on success, `error: <message>` and 1 on failure.
pub fn check_report(outcome: &Result<(), String>) -> (r: (String, i32))
    ensures
        match outcome {
            Ok(()) => (r.0)@ == "ok"@ && r.1 == 0,
            Err(m) => (r.0)@ == "error: "@ + m@ && r.1 == 1,
        },
{
    match outcome {
        Ok(()) => (String::from_str("ok"), 0),
        Err(m) => (String::from_str("error: ").concat(m.as_str()), 1),
    }
}

/// The exit code of the state command: 0 when healthy, 1 when not.
pub fn state_exit_code(state: crate::status::HealthState) -> (r: i32)
    ensures
        r == (if state == crate::status::HealthState::Healthy { 0i32 } else { 1i32 }),
{
    match state {
        crate::status::HealthState::Healthy => 0,
        crate::status::HealthState::Unhealthy => 1,
    }
}

} // verus!
