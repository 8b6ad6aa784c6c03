//! Builders for everything that goes onto the wire: the endpoint URL, the
//! JSON-RPC request body, and the Basic-auth header value.

use vstd::prelude::*;
use vstd::string::StringExecFns;

verus! {

/// What standard base64 encoding returns for a string's bytes. The alphabet
/// and padding rules take pages to state, but the result is a function of
/// the input alone, so it only gets a name here.
pub uninterp spec fn base64_of(s: Seq<char>) -> Seq<char>;

/// Relies on `base64::engine::general_purpose::STANDARD.encode` (the
/// standard alphabet with padding): the result is a function of the input
/// bytes alone.
#[verifier::external_body]
fn encode_base64(s: &str) -> (r: String)
    ensures
        r@ == base64_of(s@),
{
    base64::Engine::encode(&base64::engine::general_purpose::STANDARD, s)
}

/// The command sent as the second entry of the RPC `cmds` list.
pub open spec fn command_text_spec(sanitized: bool) -> Seq<char> {
    if sanitized {
        "show running-config sanitized"@
    } else {
        "show running-config"@
    }
}

/// The target command: the sanitized form when requested, the plain
/// running-config otherwise.
pub fn command_text(sanitized: bool) -> (r: String)
    ensures
        r@ == command_text_spec(sanitized),
{
    if sanitized {
        String::from_str("show running-config sanitized")
    } else {
        String::from_str("show running-config")
    }
}

/// The management endpoint for one device.
pub open spec fn command_api_url_spec(hostname: Seq<char>) -> Seq<char> {
    "https://"@ + hostname + "/command-api"@
}

/// Build `https://<hostname>/command-api`.
pub fn command_api_url(hostname: &str) -> (r: String)
    ensures
        r@ == command_api_url_spec(hostname@),
{
    String::from_str("https://").concat(hostname).concat("/command-api")
}

/// The JSON-RPC request body: a fixed `runCmds` envelope whose command list
/// is `["enable", <cmd>]`.
pub open spec fn request_body_spec(sanitized: bool) -> Seq<char> {
    "{\"jsonrpc\": \"2.0\", \"method\": \"runCmds\", \"params\": {\"version\": 1, \"cmds\": [\"enable\", \""@
        + command_text_spec(sanitized)
        + "\"], \"format\": \"text\"}, \"id\": \"EapiExplorer-1\"}"@
}

/// Serialize the JSON-RPC request. The command strings contain no character
/// that JSON escapes, so the body is plain concatenation.
pub fn request_body(sanitized: bool) -> (r: String)
    ensures
        r@ == request_body_spec(sanitized),
{
    let head = String::from_str(
        "{\"jsonrpc\": \"2.0\", \"method\": \"runCmds\", \"params\": {\"version\": 1, \"cmds\": [\"enable\", \"",
    );
    let tail = "\"], \"format\": \"text\"}, \"id\": \"EapiExplorer-1\"}";
    let cmd = command_text(sanitized);
    head.concat(cmd.as_str()).concat(tail)
}

/// The value of the `Authorization` header: `Basic ` followed by the
/// base64 encoding of `user:passwd`.
pub open spec fn basic_auth_value_spec(user: Seq<char>, passwd: Seq<char>) -> Seq<char> {
    "Basic "@ + base64_of(user + ":"@ + passwd)
}

/// Build the Basic-auth header value for the shared credentials.
pub fn basic_auth_value(user: &str, passwd: &str) -> (r: String)
    ensures
        r@ == basic_auth_value_spec(user@, passwd@),
{
    let joined = String::from_str(user).concat(":").concat(passwd);
    let token = encode_base64(joined.as_str());
    String::from_str("Basic ").concat(token.as_str())
}

} // verus!
