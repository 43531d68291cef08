//! Verified core of a typed API for c-lightning plugins: the registry of RPC
//! methods and event subscriptions, the plugin's life cycle, the routing of
//! lightningd's requests, the errors the plugin answers with, and the framing
//! of requests on the plugin's input.

pub mod text;
pub mod lightningd;
pub mod types;
pub mod plugin;
pub mod framing;
pub mod laws;

pub use clightningrpc::{LightningRPC, responses::NetworkAddress};
pub use types::{
    CmdOptionMeta, CmdOptionType, CmdOptions, ConnectEvent, DisconnectEvent, EventKind,
    JsonRpcRequest, JsonRpcResponse, JsonRpcResult, LogLevel, LogMessage, NoOptions, RpcError,
    RpcMethodMeta, RpcMethodParams, parse_params,
};
pub use plugin::{
    InitRequest, LightningdConfig, ManifestResult, PluginContextParts, PluginCore, PluginState,
    Route, Outcome, LoopStep, event_kind_named, log_notification, make_response, next_step,
};
pub use framing::ObjectFramer;
