//! The status service's write side: a PATCH body with optional `health`,
//! `phase` and `message` fields, each read from the JSON body as absent, a
//! string, or another value. The body is checked as a whole first; only a
//! valid one changes the status, and then in one step.

use vstd::prelude::*;
use crate::status::{health_of_text, phase_of_text, DeploymentPhase, HealthState, Status, StatusView};

verus! {

/// One optional field of a PATCH body.
#[derive(Debug)]
pub enum Field {
    /// The field is not there.
    Absent,
    /// The field is a JSON string.
    Text(String),
    /// The field is there but is not a JSON string.
    NotText,
}

/// A PATCH body, field by field.
#[derive(Debug)]
pub struct PatchRequest {
    pub health: Field,
    pub phase: Field,
    pub message: Field,
}

/// Why a PATCH body is refused.
#[derive(Clone, Copy, Debug, PartialEq, Eq, Structural)]
pub enum PatchError {
    /// `health` is a string that names no health state.
    InvalidHealth,
    /// `health` is not a string.
    HealthNotText,
    /// `phase` is a string that names no deployment phase.
    InvalidPhase,
    /// `phase` is not a string.
    PhaseNotText,
    /// `message` is not a string.
    MessageNotText,
}

/// The first fault of a PATCH body, looking at `health`, then `phase`, then
/// `message`; `None` for a valid body.
pub open spec fn patch_error(req: PatchRequest) -> Option<PatchError> {
    if req.health is NotText {
        Some(PatchError::HealthNotText)
    } else if (req.health matches Field::Text(t) && health_of_text(t@) is None) {
        Some(PatchError::InvalidHealth)
    } else if req.phase is NotText {
        Some(PatchError::PhaseNotText)
    } else if (req.phase matches Field::Text(t) && phase_of_text(t@) is None) {
        Some(PatchError::InvalidPhase)
    } else if req.message is NotText {
        Some(PatchError::MessageNotText)
    } else {
        None
    }
}

/// The status after a valid PATCH body: the health state and phase it names
/// set, its message appended.
pub open spec fn patched(s: StatusView, req: PatchRequest) -> StatusView {
    StatusView {
        state: match req.health {
            Field::Text(t) => match health_of_text(t@) {
                Some(h) => h,
                None => s.state,
            },
            _ => s.state,
        },
        messages: match req.message {
            Field::Text(m) => s.messages.push(m@),
            _ => s.messages,
        },
        phase: match req.phase {
            Field::Text(t) => match phase_of_text(t@) {
                Some(p) => p,
                None => s.phase,
            },
            _ => s.phase,
        },
    }
}

/// What a PATCH body does to a status: the outcome, and the status after it.
pub open spec fn patch_effect(s: StatusView, req: PatchRequest) -> (Result<(), PatchError>, StatusView) {
    match patch_error(req) {
        Some(e) => (Err(e), s),
        None => (Ok(()), patched(s, req)),
    }
}

/// Applies a PATCH body: a body with a fault changes nothing and says which;
/// a valid one sets what it names and appends its message, all at once.
pub fn apply_patch(status: &mut Status, req: &PatchRequest) -> (r: Result<(), PatchError>)
    ensures
        (r, final(status)@) == patch_effect(old(status)@, *req),
{
    let health = match &req.health {
        Field::Absent => None,
        Field::NotText => {
            return Err(PatchError::HealthNotText);
        },
        Field::Text(t) => match HealthState::from_name(t.as_str()) {
            Some(h) => Some(h),
            None => {
                return Err(PatchError::InvalidHealth);
            },
        },
    };
    let phase = match &req.phase {
        Field::Absent => None,
        Field::NotText => {
            return Err(PatchError::PhaseNotText);
        },
        Field::Text(t) => match DeploymentPhase::from_name(t.as_str()) {
            Some(p) => Some(p),
            None => {
                return Err(PatchError::InvalidPhase);
            },
        },
    };
    let message = match &req.message {
        Field::Absent => None,
        Field::NotText => {
            return Err(PatchError::MessageNotText);
        },
        Field::Text(m) => Some(m.clone()),
    };
    match health {
        Some(h) => status.state = h,
        None => {},
    }
    match phase {
        Some(p) => status.phase = p,
        None => {},
    }
    match message {
        Some(m) => status.add_message(m),
        None => {},
    }
    Ok(())
}

/// The HTTP status code of a PATCH outcome: 200 when accepted, 400 when
/// refused.
pub open spec fn patch_code(r: Result<(), PatchError>) -> u16 {
    match r {
        Ok(()) => 200,
        Err(_) => 400,
    }
}

/// The body that answers a PATCH outcome.
pub open spec fn patch_text(r: Result<(), PatchError>) -> Seq<char> {
    match r {
        Ok(()) => "Status updated."@,
        Err(PatchError::InvalidHealth) => "Invalid health state"@,
        Err(PatchError::HealthNotText) => "Invalid health state."@,
        Err(PatchError::InvalidPhase) => "Invalid deployment phase"@,
        Err(PatchError::PhaseNotText) => "Invalid deployment phase."@,
        Err(PatchError::MessageNotText) => "Invalid message."@,
    }
}

/// What the status service answers to a PATCH outcome: code and body.
pub fn patch_reply(r: &Result<(), PatchError>) -> (out: (u16, &'static str))
    ensures
        out.0 == patch_code(*r),
        out.1@ == patch_text(*r),
{
    match r {
        Ok(()) => (200, "Status updated."),
        Err(PatchError::InvalidHealth) => (400, "Invalid health state"),
        Err(PatchError::HealthNotText) => (400, "Invalid health state."),
        Err(PatchError::InvalidPhase) => (400, "Invalid deployment phase"),
        Err(PatchError::PhaseNotText) => (400, "Invalid deployment phase."),
        Err(PatchError::MessageNotText) => (400, "Invalid message."),
    }
}

/// A PATCH whose `health` names no health state is refused with a client
/// error and leaves the status as it was.
pub proof fn lemma_bogus_health_refused(s: StatusView, req: PatchRequest)
    requires
        req.health matches Field::Text(t) && health_of_text(t@) is None,
    ensures
        patch_effect(s, req) == (Err::<(), PatchError>(PatchError::InvalidHealth), s),
        patch_code(patch_effect(s, req).0) == 400,
{
}

/// A PATCH that names a health state and carries a message sets the state and
/// appends the message, both in the one step.
pub proof fn lemma_health_and_message_together(s: StatusView, req: PatchRequest, h: HealthState)
    requires
        req.health matches Field::Text(t) && health_of_text(t@) == Some(h),
        req.phase is Absent,
        req.message is Text,
    ensures
        patch_effect(s, req).0 is Ok,
        patch_code(patch_effect(s, req).0) == 200,
        req.message matches Field::Text(m) && patch_effect(s, req).1 == (StatusView {
            state: h,
            messages: s.messages.push(m@),
            phase: s.phase,
        }),
{
}

} // verus!
