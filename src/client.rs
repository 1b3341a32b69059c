//! What a client of the status service sends and expects: endpoint URLs,
//! PATCH bodies, and the info body by which the service makes itself known.

use vstd::prelude::*;
use crate::config::{base_url, ServerConfig};
use crate::status::{health_name, phase_name, DeploymentPhase, HealthState};
use crate::text::{json_literal, json_literal_of, same_text};

verus! {

/// The URL of an endpoint of the status service.
pub open spec fn url_for(server: ServerConfig, uri: Seq<char>) -> Seq<char> {
    base_url(server) + "/"@ + uri
}

/// The URL of an endpoint of the status service: the base URL, a `/`, then
/// the endpoint.
pub fn get_url(server: &ServerConfig, uri: &str) -> (r: String)
    ensures
        r@ == url_for(*server, uri@),
{
    let mut r = server.base_url();
    r.append("/");
    r.append(uri);
    r
}

/// The info body of an application of the given name and version.
pub open spec fn info_text(name: Seq<char>, version: Seq<char>) -> Seq<char> {
    "{\"name\": \""@ + name + "\", \"version\": \""@ + version + "\"}"@
}

/// The info body: `{"name": "<name>", "version": "<version>"}`.
pub fn info_body(name: &str, version: &str) -> (r: String)
    ensures
        r@ == info_text(name@, version@),
{
    let mut r = String::from_str("{\"name\": \"");
    r.append(name);
    r.append("\", \"version\": \"");
    r.append(version);
    r.append("\"}");
    r
}

/// Whether a body is the info body of this application: that is how a client
/// tells its own server from another process on the port.
pub fn is_own_info(body: &str, name: &str, version: &str) -> (r: bool)
    ensures
        r == (body@ == info_text(name@, version@)),
{
    let expected = info_body(name, version);
    same_text(body, expected.as_str())
}

/// The PATCH body that sets a health state, with a message given as its JSON
/// string literal.
pub open spec fn health_patch_text(state: HealthState, literal: Option<Seq<char>>) -> Seq<char> {
    match literal {
        Some(l) => "{\"health\":\""@ + health_name(state) + "\",\"message\":"@ + l + "}"@,
        None => "{\"health\":\""@ + health_name(state) + "\"}"@,
    }
}

/// Writes the PATCH body that sets a health state, with a message given as
/// its JSON string literal.
pub fn frame_health_patch(state: HealthState, literal: Option<&str>) -> (r: String)
    ensures
        r@ == health_patch_text(state, match literal {
            Some(l) => Some(l@),
            None => None,
        }),
{
    let mut r = String::from_str("{\"health\":\"");
    r.append(state.name());
    match literal {
        Some(l) => {
            r.append("\",\"message\":");
            r.append(l);
            r.append("}");
        },
        None => {
            r.append("\"}");
        },
    }
    r
}

/// The PATCH body that sets a health state and appends an optional message,
/// written as its JSON string literal.
pub fn health_patch_body(state: HealthState, message: Option<&str>) -> (r: String)
    ensures
        r@ == health_patch_text(state, match message {
            Some(m) => Some(json_literal_of(m@)),
            None => None,
        }),
{
    match message {
        None => frame_health_patch(state, None),
        Some(m) => {
            let l = json_literal(m);
            frame_health_patch(state, Some(l.as_str()))
        },
    }
}

/// The PATCH body that sets a deployment phase.
pub open spec fn phase_patch_text(phase: DeploymentPhase) -> Seq<char> {
    "{\"phase\":\""@ + phase_name(phase) + "\"}"@
}

/// Writes the PATCH body that sets a deployment phase.
pub fn phase_patch_body(phase: DeploymentPhase) -> (r: String)
    ensures
        r@ == phase_patch_text(phase),
{
    let mut r = String::from_str("{\"phase\":\"");
    r.append(phase.name());
    r.append("\"}");
    r
}

} // verus!
