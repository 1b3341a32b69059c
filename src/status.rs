//! The shared status record: health state, accumulated messages and
//! deployment phase, with its text and JSON forms.

use vstd::prelude::*;
use crate::text::{
    concat3, join, joined, json_literal, json_literal_of, lower_of, lowercase, same_text, views,
};

verus! {

/// Health of the monitored application.
#[derive(Clone, Copy, Debug, PartialEq, Eq, Structural)]
pub enum HealthState {
    Healthy,
    Unhealthy,
}

/// Deployment phase: while deploying, periodic checks are held back.
#[derive(Clone, Copy, Debug, PartialEq, Eq, Structural)]
pub enum DeploymentPhase {
    Deploying,
    Online,
}

/// The lowercase name of a health state.
pub open spec fn health_name(h: HealthState) -> Seq<char> {
    match h {
        HealthState::Healthy => "healthy"@,
        HealthState::Unhealthy => "unhealthy"@,
    }
}

/// The lowercase name of a deployment phase.
pub open spec fn phase_name(p: DeploymentPhase) -> Seq<char> {
    match p {
        DeploymentPhase::Deploying => "deploying"@,
        DeploymentPhase::Online => "online"@,
    }
}

/// The health state whose name a lowercase text is.
pub open spec fn health_of_name(t: Seq<char>) -> Option<HealthState> {
    if t == "healthy"@ {
        Some(HealthState::Healthy)
    } else if t == "unhealthy"@ {
        Some(HealthState::Unhealthy)
    } else {
        None
    }
}

/// The deployment phase whose name a lowercase text is.
pub open spec fn phase_of_name(t: Seq<char>) -> Option<DeploymentPhase> {
    if t == "deploying"@ {
        Some(DeploymentPhase::Deploying)
    } else if t == "online"@ {
        Some(DeploymentPhase::Online)
    } else {
        None
    }
}

/// The health state a text names, in any case.
pub open spec fn health_of_text(s: Seq<char>) -> Option<HealthState> {
    health_of_name(lower_of(s))
}

/// The deployment phase a text names, in any case.
pub open spec fn phase_of_text(s: Seq<char>) -> Option<DeploymentPhase> {
    phase_of_name(lower_of(s))
}

/// The HTTP status code that reports a health state.
pub open spec fn health_code(h: HealthState) -> u16 {
    match h {
        HealthState::Healthy => 200,
        HealthState::Unhealthy => 503,
    }
}

impl HealthState {
    /// The lowercase name of this state.
    pub fn name(&self) -> (r: &'static str)
        ensures
            r@ == health_name(*self),
    {
        match self {
            HealthState::Healthy => "healthy",
            HealthState::Unhealthy => "unhealthy",
        }
    }

    /// The state named by a text that is already lowercase.
    pub fn from_lowercase_name(t: &str) -> (r: Option<HealthState>)
        ensures
            r == health_of_name(t@),
    {
        if same_text(t, "healthy") {
            Some(HealthState::Healthy)
        } else if same_text(t, "unhealthy") {
            Some(HealthState::Unhealthy)
        } else {
            None
        }
    }

    /// The state named by a text, compared without regard to case.
    pub fn from_name(s: &str) -> (r: Option<HealthState>)
        ensures
            r == health_of_text(s@),
    {
        let lowered = lowercase(s);
        HealthState::from_lowercase_name(lowered.as_str())
    }

    /// HTTP status code that reports this state: 200 when healthy, 503 when
    /// not.
    pub fn status_code(&self) -> (r: u16)
        ensures
            r == health_code(*self),
    {
        match self {
            HealthState::Healthy => 200,
            HealthState::Unhealthy => 503,
        }
    }
}

impl DeploymentPhase {
    /// The lowercase name of this phase.
    pub fn name(&self) -> (r: &'static str)
        ensures
            r@ == phase_name(*self),
    {
        match self {
            DeploymentPhase::Deploying => "deploying",
            DeploymentPhase::Online => "online",
        }
    }

    /// The phase named by a text that is already lowercase.
    pub fn from_lowercase_name(t: &str) -> (r: Option<DeploymentPhase>)
        ensures
            r == phase_of_name(t@),
    {
        if same_text(t, "deploying") {
            Some(DeploymentPhase::Deploying)
        } else if same_text(t, "online") {
            Some(DeploymentPhase::Online)
        } else {
            None
        }
    }

    /// The phase named by a text, compared without regard to case.
    pub fn from_name(s: &str) -> (r: Option<DeploymentPhase>)
        ensures
            r == phase_of_text(s@),
    {
        let lowered = lowercase(s);
        DeploymentPhase::from_lowercase_name(lowered.as_str())
    }
}

impl TryFrom<&str> for HealthState {
    type Error = &'static str;

    fn try_from(value: &str) -> Result<Self, Self::Error> {
        match HealthState::from_name(value) {
            Some(h) => Ok(h),
            None => Err("Invalid health state"),
        }
    }
}

impl TryFrom<&str> for DeploymentPhase {
    type Error = &'static str;

    fn try_from(value: &str) -> Result<Self, Self::Error> {
        match DeploymentPhase::from_name(value) {
            Some(p) => Ok(p),
            None => Err("Invalid deployment phase"),
        }
    }
}

impl vstd::std_specs::convert::TryFromSpecImpl<&str> for HealthState {
    open spec fn obeys_try_from_spec() -> bool {
        true
    }

    open spec fn try_from_spec(value: &str) -> Result<Self, &'static str> {
        match health_of_text(value@) {
            Some(h) => Ok(h),
            None => Err("Invalid health state"),
        }
    }
}

impl vstd::std_specs::convert::TryFromSpecImpl<&str> for DeploymentPhase {
    open spec fn obeys_try_from_spec() -> bool {
        true
    }

    open spec fn try_from_spec(value: &str) -> Result<Self, &'static str> {
        match phase_of_text(value@) {
            Some(p) => Ok(p),
            None => Err("Invalid deployment phase"),
        }
    }
}

/// The status record as a mathematical value.
pub struct StatusView {
    pub state: HealthState,
    pub messages: Seq<Seq<char>>,
    pub phase: DeploymentPhase,
}

/// The shared status record: health state, the failure messages accumulated
/// so far (append-only), and the deployment phase.
pub struct Status {
    pub state: HealthState,
    pub messages: Vec<String>,
    pub phase: DeploymentPhase,
}

impl View for Status {
    type V = StatusView;

    open spec fn view(&self) -> StatusView {
        StatusView { state: self.state, messages: views(self.messages@), phase: self.phase }
    }
}

/// The one-line text form of a status: the health name, then the messages
/// joined by `", "` after a `": "` where there are any.
pub open spec fn status_text(s: StatusView) -> Seq<char> {
    if s.messages.len() == 0 {
        health_name(s.state)
    } else {
        health_name(s.state) + ": "@ + joined(s.messages, ", "@)
    }
}

/// The JSON object of a status, given the JSON string literal of each
/// message.
pub open spec fn status_json(state: HealthState, literals: Seq<Seq<char>>, phase: DeploymentPhase) -> Seq<char> {
    "{\"state\":\""@ + health_name(state) + "\",\"messages\":["@ + joined(literals, ","@)
        + "],\"phase\":\""@ + phase_name(phase) + "\"}"@
}

/// The JSON string literal of each text.
pub open spec fn literals_of(texts: Seq<Seq<char>>) -> Seq<Seq<char>> {
    texts.map_values(|t: Seq<char>| json_literal_of(t))
}

/// The JSON body that reports a status.
pub open spec fn status_body(s: StatusView) -> Seq<char> {
    status_json(s.state, literals_of(s.messages), s.phase)
}

/// Writes the JSON object of a status from the JSON string literals of its
/// messages, fields in the order state, messages, phase.
pub fn frame_status_json(state: HealthState, literals: &Vec<String>, phase: DeploymentPhase) -> (r: String)
    ensures
        r@ == status_json(state, views(literals@), phase),
{
    let mut out = String::from_str("{\"state\":\"");
    out.append(state.name());
    out.append("\",\"messages\":[");
    let list = join(literals, ",");
    out.append(list.as_str());
    out.append("],\"phase\":\"");
    out.append(phase.name());
    out.append("\"}");
    out
}

impl Status {
    /// A fresh status: healthy, no messages, online.
    pub fn new() -> (r: Status)
        ensures
            r@ == (StatusView { state: HealthState::Healthy, messages: Seq::empty(), phase: DeploymentPhase::Online }),
    {
        Status::with_phase(DeploymentPhase::Online)
    }

    /// A fresh status in the given phase: healthy, no messages.
    pub fn with_phase(phase: DeploymentPhase) -> (r: Status)
        ensures
            r@ == (StatusView { state: HealthState::Healthy, messages: Seq::empty(), phase }),
    {
        let r = Status { state: HealthState::Healthy, messages: Vec::new(), phase };
        assert(r@.messages =~= Seq::empty());
        r
    }

    /// Appends a message.
    pub fn add_message(&mut self, message: String)
        ensures
            final(self)@ == (StatusView { messages: old(self)@.messages.push(message@), ..old(self)@ }),
    {
        self.messages.push(message);
        assert(final(self)@.messages =~= old(self)@.messages.push(message@));
    }

    /// Sets the health state, and appends the message where one is given.
    /// Earlier messages stay.
    pub fn set_health(&mut self, state: HealthState, message: Option<String>)
        ensures
            final(self)@ == (StatusView {
                state,
                messages: match message {
                    Some(m) => old(self)@.messages.push(m@),
                    None => old(self)@.messages,
                },
                ..old(self)@
            }),
    {
        self.state = state;
        match message {
            Some(m) => self.add_message(m),
            None => {},
        }
    }

    /// Sets the deployment phase; state and messages stay.
    pub fn set_phase(&mut self, phase: DeploymentPhase)
        ensures
            final(self)@ == (StatusView { phase, ..old(self)@ }),
    {
        self.phase = phase;
    }

    /// The one-line text form: `healthy`, or `unhealthy: first, second`.
    pub fn to_string(&self) -> (r: String)
        ensures
            r@ == status_text(self@),
    {
        if self.messages.len() == 0 {
            String::from_str(self.state.name())
        } else {
            let list = join(&self.messages, ", ");
            concat3(self.state.name(), ": ", list.as_str())
        }
    }

    /// The JSON object of this status, `{"state":..,"messages":[..],"phase":..}`,
    /// with each message written by serde_json.
    pub fn to_json(&self) -> (r: String)
        ensures
            r@ == status_body(self@),
    {
        let mut literals: Vec<String> = Vec::new();
        let mut i: usize = 0;
        while i < self.messages.len()
            invariant
                i <= self.messages.len(),
                literals.len() == i,
                views(literals@) =~= literals_of(views(self.messages@)).take(i as int),
            decreases self.messages.len() - i,
        {
            let l = json_literal(self.messages[i].as_str());
            let ghost prev = literals@;
            literals.push(l);
            proof {
                assert(views(literals@) =~= views(prev).push(l@));
            }
            i = i + 1;
        }
        proof {
            assert(literals_of(views(self.messages@)).take(i as int) =~= literals_of(views(self.messages@)));
        }
        frame_status_json(self.state, &literals, self.phase)
    }

    /// What the status endpoint answers: the HTTP status code of the health
    /// state, and the JSON body.
    pub fn reply(&self) -> (r: (u16, String))
        ensures
            r.0 == health_code(self.state),
            r.1@ == status_body(self@),
    {
        (self.state.status_code(), self.to_json())
    }
}

/// The status endpoint answers 503 while unhealthy and 200 while healthy, and
/// its body lists the current messages, each as its JSON string literal, in
/// order.
pub proof fn lemma_reply_reflects_status(s: StatusView)
    ensures
        health_code(s.state) == (if s.state == HealthState::Unhealthy { 503u16 } else { 200u16 }),
        status_body(s) == status_json(s.state, literals_of(s.messages), s.phase),
        literals_of(s.messages).len() == s.messages.len(),
        forall|k: int|
            0 <= k < s.messages.len() ==> #[trigger] literals_of(s.messages)[k] == json_literal_of(s.messages[k]),
{
}

} // verus!
