//! The wire-level envelope and the JSON decoding the dispatch core
//! relies on.
//!
//! Everything that crosses the connection is a `Message`: an envelope
//! carrying a correlation id, a command or event name, and a payload
//! that is itself a JSON document serialized to a string (double
//! encoding). The decoders in this module are the library's only
//! trusted items: each names what the decoder returns and claims
//! nothing further about it.

use vstd::prelude::*;

verus! {

/// The request/event envelope. `id` is caller-assigned and echoed on
/// every reply for that request; `args` is a JSON document in a string,
/// decoded only by the handler the name routes to.
pub struct Message {
    pub name: String,
    pub id: u32,
    pub args: String,
}

/// What parsing an inbound envelope out of a text frame returns:
/// `None` on malformed input, else the id, name and raw argument
/// string. The parse is a function of the text alone.
pub uninterp spec fn json_envelope(raw: Seq<char>) -> Option<(u32, Seq<char>, Seq<char>)>;

/// Relies on serde_json::from_str and serde_json::Value's `get`,
/// `as_u64` and `as_str`: parses a text frame into an envelope. The
/// result depends on the input text alone.
#[verifier::external_body]
pub fn parse_envelope(raw: &str) -> (r: Option<Message>)
    ensures
        r is Some <==> json_envelope(raw@) is Some,
        r matches Some(m) ==> {
            &&& m.id == json_envelope(raw@)->Some_0.0
            &&& m.name@ == json_envelope(raw@)->Some_0.1
            &&& m.args@ == json_envelope(raw@)->Some_0.2
        },
{
    let v: serde_json::Value = serde_json::from_str(raw).ok()?;
    let id = u32::try_from(v.get("id")?.as_u64()?).ok()?;
    let name = v.get("name")?.as_str()?.to_string();
    let args = v.get("args")?.as_str()?.to_string();
    Some(Message { name, id, args })
}

/// What decoding a file-import argument payload returns: `None` when
/// the payload does not decode, else the path. A function of the
/// payload text alone.
pub uninterp spec fn json_file_path(raw: Seq<char>) -> Option<Seq<char>>;

/// Relies on serde_json::from_str and serde_json::Value's `get` and
/// `as_str`: decodes the argument payload of the file-import command.
/// The result depends on the payload text alone.
#[verifier::external_body]
pub(crate) fn decode_file_args(raw: &str) -> (r: Option<String>)
    ensures
        r is Some <==> json_file_path(raw@) is Some,
        r matches Some(p) ==> p@ == json_file_path(raw@)->Some_0,
{
    let v: serde_json::Value = serde_json::from_str(raw).ok()?;
    Some(v.get("path")?.as_str()?.to_string())
}

/// What decoding an initialize argument payload returns: `None` when
/// the payload does not decode, else the client's version string. A
/// function of the payload text alone.
pub uninterp spec fn json_client_version(raw: Seq<char>) -> Option<Seq<char>>;

/// Relies on serde_json::from_str and serde_json::Value's `get` and
/// `as_str`: decodes the argument payload of the initialize command.
/// The result depends on the payload text alone.
#[verifier::external_body]
pub(crate) fn decode_version_args(raw: &str) -> (r: Option<String>)
    ensures
        r is Some <==> json_client_version(raw@) is Some,
        r matches Some(v) ==> v@ == json_client_version(raw@)->Some_0,
{
    let v: serde_json::Value = serde_json::from_str(raw).ok()?;
    Some(v.get("client_version")?.as_str()?.to_string())
}

} // verus!
