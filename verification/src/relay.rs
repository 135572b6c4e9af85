//! The HTTP relay, as far as it is decision logic: which verb, URL and
//! body a command turns into, and how a relay outcome is classified. The
//! network round-trip itself is carried out by the caller, which hands
//! the outcome back as a plain value.

use vstd::prelude::*;
use vstd::string::StringExecFns;
use crate::command::CommandKind;
use crate::error::CoreError;

verus! {

/// The HTTP verb of a relay call.
#[derive(Clone, Copy, Debug, PartialEq, Eq, Structural)]
pub enum Method {
    Get,
    Delete,
    Post,
}

/// The `(host, port)` pair a resolved alias stands for; ephemeral,
/// recomputed on every invocation.
#[derive(Debug)]
pub struct ResolvedTarget {
    pub host: String,
    pub port: String,
}

/// A fully determined relay call: verb, URL, and optional body. Carrying
/// this out is all that is left to do outside.
#[derive(Debug)]
pub struct RelayPlan {
    pub method: Method,
    pub url: String,
    pub body: Option<String>,
}

/// What came back from carrying a relay call out: a transport-level
/// failure with its description, or a response with status and body.
#[derive(Debug)]
pub enum RelayOutcome {
    Transport(String),
    Response(u16, String),
}

/// The verb each command kind is relayed with. The three commands are
/// distinguished purely by verb and body, never by path.
pub open spec fn method_of(kind: CommandKind) -> Method {
    match kind {
        CommandKind::Info => Method::Get,
        CommandKind::Stop => Method::Delete,
        CommandKind::Switch(_) => Method::Post,
    }
}

/// The request URL of a target: `http://{host}:{port}`, with no path
/// segments.
pub open spec fn url_of(host: Seq<char>, port: Seq<char>) -> Seq<char> {
    "http://"@ + host + ":"@ + port
}

/// The JSON body the switch command is relayed with: an object with the
/// single entry `scene`, as serde_json serializes it. A function of the
/// scene name alone.
pub uninterp spec fn scene_body(scene: Seq<char>) -> Seq<char>;

/// A scene name that JSON serialization keeps verbatim: no double quote,
/// no backslash, no control character below U+0020.
pub open spec fn plain_scene(s: Seq<char>) -> bool {
    forall|i: int|
        0 <= i < s.len() ==> (#[trigger] s[i]) != '"' && s[i] != '\\' && (s[i] as u32) >= 0x20
}

/// The body a plain scene name serializes to.
pub open spec fn plain_scene_body(s: Seq<char>) -> Seq<char> {
    "{\"scene\":\""@ + s + "\"}"@
}

/// Relies on serde_json::to_string applied to an object value with the
/// single entry `"scene"` mapped to the given string: serializing a value
/// whose map keys are strings cannot fail, the result is a function of
/// the scene name alone, and the serializer's string escaping rewrites
/// only the double quote, the backslash and control characters below
/// U+0020, keeping every other character as it stands.
#[verifier::external_body]
fn encode_scene_body(scene: &str) -> (r: String)
    ensures
        r@ == scene_body(scene@),
        plain_scene(scene@) ==> r@ == plain_scene_body(scene@),
{
    let mut object = serde_json::Map::new();
    object.insert(String::from("scene"), serde_json::Value::String(scene.to_string()));
    serde_json::to_string(&serde_json::Value::Object(object)).unwrap_or_default()
}

/// Build the request URL of a target.
fn build_url(target: &ResolvedTarget) -> (r: String)
    ensures
        r@ == url_of(target.host@, target.port@),
{
    let mut url = String::from_str("http://");
    url.append(target.host.as_str());
    url.append(":");
    url.append(target.port.as_str());
    proof {
        assert(url@ =~= url_of(target.host@, target.port@));
    }
    url
}

/// The relay call a command kind turns into against a resolved target:
/// GET with no body for the status query, DELETE with no body for stop,
/// POST with the scene object for a scene switch.
pub fn relay_plan(target: &ResolvedTarget, kind: &CommandKind) -> (p: RelayPlan)
    ensures
        p.url@ == url_of(target.host@, target.port@),
        p.method == method_of(*kind),
        match *kind {
            CommandKind::Switch(scene) => (p.body matches Some(b) && b@ == scene_body(scene@) && (
            plain_scene(scene@) ==> b@ == plain_scene_body(scene@))),
            _ => p.body is None,
        },
{
    let url = build_url(target);
    match kind {
        CommandKind::Info => RelayPlan { method: Method::Get, url, body: None },
        CommandKind::Stop => RelayPlan { method: Method::Delete, url, body: None },
        CommandKind::Switch(scene) => RelayPlan {
            method: Method::Post,
            url,
            body: Some(encode_scene_body(scene.as_str())),
        },
    }
}

/// A successful relay: any 2xx status.
pub open spec fn is_success_status(status: u16) -> bool {
    200 <= status < 300
}

/// Classify an outcome: a transport failure and a non-2xx status each
/// become their typed error, the latter carrying status and body
/// untouched; a 2xx response yields its raw body unmodified.
pub fn classify_outcome(outcome: RelayOutcome) -> (r: Result<String, CoreError>)
    ensures
        match outcome {
            RelayOutcome::Transport(msg) => (r matches Err(e) && e matches CoreError::RelayTransport(m)
                && m@ == msg@),
            RelayOutcome::Response(status, body) => if is_success_status(status) {
                r matches Ok(t) && t@ == body@
            } else {
                (r matches Err(e) && e matches CoreError::RelayStatus(st, b) && st == status && b@
                    == body@)
            },
        },
{
    match outcome {
        RelayOutcome::Transport(msg) => Err(CoreError::RelayTransport(msg)),
        RelayOutcome::Response(status, body) => {
            if 200 <= status && status < 300 {
                Ok(body)
            } else {
                Err(CoreError::RelayStatus(status, body))
            }
        },
    }
}

} // verus!
