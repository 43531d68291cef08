//! The values that plugins and lightningd exchange: errors, results,
//! log messages, events and the metadata shown in the manifest.

use vstd::prelude::*;

verus! {

/// JSON-RPC error code for a method that no plugin method answers to.
pub const METHOD_NOT_FOUND: i64 = -32601;

/// JSON-RPC error code for parameters that do not fit the expected shape.
pub const INVALID_PARAMS: i64 = -32602;

/// JSON-RPC error code for a plugin that cannot serve yet (it has not been initialized).
pub const INTERNAL_ERROR: i64 = -32603;

/// Error code used for an event that the plugin is not subscribed to.
pub const UNKNOWN_EVENT: i64 = 0;

/// An error answered to lightningd in place of a result.
#[derive(Debug)]
pub struct RpcError {
    pub code: i64,
    pub message: String,
}

/// The text of the error for an unknown RPC method.
pub open spec fn method_not_found_message(method: Seq<char>) -> Seq<char> {
    "Method not found: "@ + method
}

/// The text of the error for parameters that could not be parsed, given the
/// debug text of the parse error.
pub open spec fn invalid_params_message(parse_error: Seq<char>) -> Seq<char> {
    "Couldn't parse params: "@ + parse_error
}

/// The text of the error for a call that reaches the plugin before `init`.
pub open spec fn not_initialized_message() -> Seq<char> {
    "Plugin isn't initialized yet!"@
}

/// The text of the error for an event without subscription.
pub open spec fn unknown_event_message() -> Seq<char> {
    "unknown event"@
}

/// `e` carries exactly this code and this message.
pub open spec fn is_error(e: RpcError, code: i64, message: Seq<char>) -> bool {
    e.code == code && e.message@ == message
}

impl RpcError {
    /// The error for a call of `method` when no RPC method of that name is mounted.
    pub fn method_not_found(method: &str) -> (e: RpcError)
        ensures
            is_error(e, METHOD_NOT_FOUND, method_not_found_message(method@)),
    {
        let mut message: String = "Method not found: ".to_owned();
        message.append(method);
        RpcError { code: METHOD_NOT_FOUND, message }
    }

    /// The error for parameters that did not parse; `parse_error` is the
    /// debug text of the parser's error.
    pub fn invalid_params(parse_error: &str) -> (e: RpcError)
        ensures
            is_error(e, INVALID_PARAMS, invalid_params_message(parse_error@)),
    {
        let mut message: String = "Couldn't parse params: ".to_owned();
        message.append(parse_error);
        RpcError { code: INVALID_PARAMS, message }
    }

    /// The error for a call that needs the plugin context before `init` arrived.
    pub fn not_initialized() -> (e: RpcError)
        ensures
            is_error(e, INTERNAL_ERROR, not_initialized_message()),
    {
        RpcError { code: INTERNAL_ERROR, message: "Plugin isn't initialized yet!".to_owned() }
    }

    /// The error for an event that has no subscription.
    pub fn unknown_event() -> (e: RpcError)
        ensures
            is_error(e, UNKNOWN_EVENT, unknown_event_message()),
    {
        RpcError { code: UNKNOWN_EVENT, message: "unknown event".to_owned() }
    }
}

/// Maps the outcome of parsing parameters to the parsed value or to the
/// `INVALID_PARAMS` error; the error side of `parsed` is the debug text of
/// the parser's error.
pub fn parse_params<T>(parsed: Result<T, String>) -> (r: Result<T, RpcError>)
    ensures
        match parsed {
            Ok(v) => r == Ok::<T, RpcError>(v),
            Err(text) => r is Err && is_error(r->Err_0, INVALID_PARAMS, invalid_params_message(text@)),
        },
{
    match parsed {
        Ok(v) => Ok(v),
        Err(text) => Err(RpcError::invalid_params(text.as_str())),
    }
}

/// What a JSON-RPC response carries: a result or an error.
pub enum JsonRpcResult<T> {
    Result(T),
    Error(RpcError),
}

impl<T> From<Result<T, RpcError>> for JsonRpcResult<T> {
    fn from(res: Result<T, RpcError>) -> (r: Self) {
        match res {
            Ok(v) => JsonRpcResult::Result(v),
            Err(e) => JsonRpcResult::Error(e),
        }
    }
}

impl<T> vstd::std_specs::convert::FromSpecImpl<Result<T, RpcError>> for JsonRpcResult<T> {
    open spec fn obeys_from_spec() -> bool {
        true
    }

    open spec fn from_spec(res: Result<T, RpcError>) -> Self {
        match res {
            Ok(v) => JsonRpcResult::Result(v),
            Err(e) => JsonRpcResult::Error(e),
        }
    }
}

/// A JSON-RPC request or notification (a notification has no `id`).
pub struct JsonRpcRequest<T> {
    pub jsonrpc: String,
    pub method: String,
    pub params: T,
    pub id: Option<u64>,
}

/// A JSON-RPC response to the request with the same `id`.
pub struct JsonRpcResponse<T> {
    pub jsonrpc: String,
    pub result: JsonRpcResult<T>,
    pub id: u64,
}

/// The severity of a log line that a plugin hands to lightningd.
pub enum LogLevel {
    Io,
    Debug,
    Info,
    Unusual,
    Broken,
}

/// A log line that a plugin hands to lightningd.
pub struct LogMessage {
    pub level: LogLevel,
    pub message: String,
}

/// The type of a command line option that a plugin registers.
pub enum CmdOptionType {
    String,
}

/// A command line option that a plugin registers with lightningd.
pub struct CmdOptionMeta {
    pub name: &'static str,
    pub option_type: CmdOptionType,
    pub default: &'static str,
    pub description: &'static str,
}

/// The command line options of a plugin; `options` lists them for the manifest.
pub trait CmdOptions {
    fn options() -> &'static [CmdOptionMeta];
}

/// The options of a plugin that registers none.
pub struct NoOptions;

impl CmdOptions for NoOptions {
    fn options() -> (r: &'static [CmdOptionMeta])
        ensures
            r@.len() == 0,
    {
        &[]
    }
}

/// The parameters of an RPC method; `usage` is shown to users of lightningd.
pub trait RpcMethodParams {
    fn usage() -> &'static str;
}

/// What the manifest tells lightningd about one RPC method.
#[derive(Clone, Copy)]
pub struct RpcMethodMeta {
    pub name: &'static str,
    pub description: &'static str,
    pub usage: &'static str,
}

/// The events a plugin can subscribe to.
#[derive(Clone, Copy, PartialEq, Eq, Structural, Debug)]
pub enum EventKind {
    Connect,
    Disconnect,
}

/// The name lightningd uses for an event.
pub open spec fn event_name(kind: EventKind) -> Seq<char> {
    match kind {
        EventKind::Connect => "connect"@,
        EventKind::Disconnect => "disconnect"@,
    }
}

impl EventKind {
    /// The name lightningd uses for this event.
    pub fn name(&self) -> (r: &'static str)
        ensures
            r@ == event_name(*self),
    {
        match self {
            EventKind::Connect => "connect",
            EventKind::Disconnect => "disconnect",
        }
    }
}

/// A peer connected.
pub struct ConnectEvent {
    pub id: String,
    pub address: clightningrpc::responses::NetworkAddress,
}

/// A peer disconnected.
pub struct DisconnectEvent {
    pub id: String,
}

} // verus!
