use clightning_plugin_api::{
    next_step, LoopStep, Outcome, make_response, log_notification, parse_params, event_kind_named, EventKind, InitRequest,
    JsonRpcResult, LightningdConfig, LogLevel, LogMessage, PluginCore, Route,
    RpcError, RpcMethodMeta,
};
use std::sync::atomic::{AtomicBool, Ordering};

type Core<O> = PluginCore<O, u8, u8>;

fn meta(name: &'static str) -> RpcMethodMeta {
    RpcMethodMeta { name, description: "test rpc call", usage: "name" }
}

fn init_request(options: u32) -> InitRequest<u32> {
    InitRequest {
        options,
        configuration: LightningdConfig {
            lightning_dir: "/home/not_a_user/.lightning".to_string(),
            rpc_file: "lightning-rpc".to_string(),
        },
    }
}

#[test]
fn new_core_is_empty() {
    let core: Core<u32> = PluginCore::new();
    assert!(!core.has_rpc("hello_world"));
    assert!(!core.is_subscribed(EventKind::Connect));
    assert!(!core.is_subscribed(EventKind::Disconnect));
    let manifest = core.handle_getmanifest(&[]);
    assert_eq!(manifest.rpcmethods.len(), 0);
    assert_eq!(manifest.subscriptions.len(), 0);
    assert_eq!(manifest.options.len(), 0);
}

#[test]
fn mount_then_find() {
    let mut core: Core<u32> = PluginCore::new();
    core.mount_rpc(meta("first"), 0);
    core.mount_rpc(meta("second"), 0);
    assert_eq!(core.find_rpc("first"), Some(0));
    assert_eq!(core.find_rpc("second"), Some(1));
    assert_eq!(core.find_rpc("third"), None);
    assert!(core.has_rpc("second"));
    assert!(!core.has_rpc("secon"));
}

#[test]
fn builtins_shadow_everything() {
    let mut core: Core<u32> = PluginCore::new();
    core.mount_rpc(meta("init"), 0);
    core.subscribe(EventKind::Connect, 0);
    assert!(core.route("getmanifest") == Route::GetManifest);
    assert!(core.route("init") == Route::Init);
}

#[test]
fn events_route_only_when_subscribed() {
    let mut core: Core<u32> = PluginCore::new();
    assert!(core.route("connect") == Route::RpcCall);
    core.subscribe(EventKind::Connect, 0);
    assert!(core.route("connect") == Route::Event(EventKind::Connect));
    assert!(core.route("disconnect") == Route::RpcCall);
    core.subscribe(EventKind::Disconnect, 0);
    assert!(core.route("disconnect") == Route::Event(EventKind::Disconnect));
    assert!(core.route("hello_world") == Route::RpcCall);
    assert!(core.route("Connect") == Route::RpcCall);
}

#[test]
fn subscriptions_are_found_by_position() {
    let mut core: Core<u32> = PluginCore::new();
    core.subscribe(EventKind::Disconnect, 0);
    core.subscribe(EventKind::Connect, 0);
    assert_eq!(core.find_subscription(EventKind::Disconnect), Some(0));
    assert_eq!(core.find_subscription(EventKind::Connect), Some(1));
    assert_eq!(core.subscription("connect"), Some(1));
    assert_eq!(core.subscription("init"), None);
}

#[test]
fn event_names() {
    assert_eq!(EventKind::Connect.name(), "connect");
    assert_eq!(EventKind::Disconnect.name(), "disconnect");
    assert_eq!(event_kind_named("connect"), Some(EventKind::Connect));
    assert_eq!(event_kind_named("disconnect"), Some(EventKind::Disconnect));
    assert_eq!(event_kind_named("disconnected"), None);
}

#[test]
fn unknown_method_is_refused() {
    let mut core: Core<u32> = PluginCore::new();
    match core.handle_rpc_call("missing") {
        Err(e) => {
            assert_eq!(e.code, -32601);
            assert_eq!(e.message, "Method not found: missing");
        }
        Ok(_) => panic!("an unknown method must be refused"),
    }
    core.handle_init(Ok(init_request(1))).unwrap();
    match core.handle_rpc_call("missing") {
        Err(e) => {
            assert_eq!(e.code, -32601);
            assert_eq!(e.message, "Method not found: missing");
        }
        Ok(_) => panic!("an unknown method must be refused after init too"),
    }
}

#[test]
fn calls_before_init_are_refused() {
    let mut core: Core<u32> = PluginCore::new();
    core.mount_rpc(meta("hello_world"), 0);
    core.subscribe(EventKind::Disconnect, 0);
    match core.handle_rpc_call("hello_world") {
        Err(e) => {
            assert_eq!(e.code, -32603);
            assert_eq!(e.message, "Plugin isn't initialized yet!");
        }
        Ok(_) => panic!("a call before init must be refused"),
    }
    match core.handle_event("disconnect") {
        Err(e) => {
            assert_eq!(e.code, -32603);
            assert_eq!(e.message, "Plugin isn't initialized yet!");
        }
        Ok(_) => panic!("an event before init must be refused"),
    }
    match core.get_plugin_context() {
        Err(e) => assert_eq!(e.code, -32603),
        Ok(_) => panic!("no context before init"),
    }
}

#[test]
fn unknown_event_is_refused() {
    let mut core: Core<u32> = PluginCore::new();
    core.handle_init(Ok(init_request(1))).unwrap();
    match core.handle_event("connect") {
        Err(e) => {
            assert_eq!(e.code, 0);
            assert_eq!(e.message, "unknown event");
        }
        Ok(_) => panic!("an event without subscription must be refused"),
    }
}

#[test]
fn init_sets_options_and_socket_path() {
    let mut core: Core<u32> = PluginCore::new();
    core.mount_rpc(meta("hello_world"), 0);
    core.subscribe(EventKind::Connect, 0);
    assert!(core.handle_init(Ok(init_request(42))).is_ok());
    match core.get_plugin_context() {
        Ok(ctx) => assert_eq!(*ctx.options, 42),
        Err(_) => panic!("the context is available after init"),
    }
    assert!(core.has_rpc("hello_world"));
    assert!(core.is_subscribed(EventKind::Connect));
    match core.handle_rpc_call("hello_world") {
        Ok((index, handler, ctx)) => {
            assert_eq!(index, 0);
            assert_eq!(*handler, 0);
            assert_eq!(*ctx.options, 42);
        }
        Err(_) => panic!("a mounted method is callable after init"),
    }
    match core.handle_event("connect") {
        Ok((index, handler, ctx)) => {
            assert_eq!(index, 0);
            assert_eq!(*handler, 0);
            assert_eq!(*ctx.options, 42);
        }
        Err(_) => panic!("a subscribed event is delivered after init"),
    }
}

#[test]
fn init_with_bad_params_keeps_starting() {
    let mut core: Core<u32> = PluginCore::new();
    match core.handle_init(Err("missing field `options`".to_string())) {
        Err(e) => {
            assert_eq!(e.code, -32602);
            assert_eq!(e.message, "Couldn't parse params: missing field `options`");
        }
        Ok(()) => panic!("a request that did not parse is refused"),
    }
    assert!(core.get_plugin_context().is_err());
}

#[test]
fn second_init_replaces_options() {
    let mut core: Core<u32> = PluginCore::new();
    core.handle_init(Ok(init_request(1))).unwrap();
    core.handle_init(Ok(init_request(2))).unwrap();
    match core.get_plugin_context() {
        Ok(ctx) => assert_eq!(*ctx.options, 2),
        Err(_) => panic!("initialized"),
    }
}

#[test]
fn params_errors() {
    let ok: Result<u8, RpcError> = parse_params(Ok(7u8));
    assert_eq!(ok.unwrap(), 7);
    let err: Result<u8, RpcError> = parse_params(Err("invalid type".to_string()));
    match err {
        Err(e) => {
            assert_eq!(e.code, -32602);
            assert_eq!(e.message, "Couldn't parse params: invalid type");
        }
        Ok(_) => panic!("a parse error is refused"),
    }
}

#[test]
fn error_constructors() {
    let e = RpcError::method_not_found("foo");
    assert_eq!((e.code, e.message.as_str()), (-32601, "Method not found: foo"));
    let e = RpcError::invalid_params("x");
    assert_eq!((e.code, e.message.as_str()), (-32602, "Couldn't parse params: x"));
    let e = RpcError::not_initialized();
    assert_eq!((e.code, e.message.as_str()), (-32603, "Plugin isn't initialized yet!"));
    let e = RpcError::unknown_event();
    assert_eq!((e.code, e.message.as_str()), (0, "unknown event"));
}

#[test]
fn manifest_lists_registrations() {
    let mut core: Core<u32> = PluginCore::new();
    core.mount_rpc(RpcMethodMeta { name: "a", description: "first", usage: "[x]" }, 1);
    core.mount_rpc(RpcMethodMeta { name: "b", description: "second", usage: "" }, 2);
    core.subscribe(EventKind::Disconnect, 0);
    core.subscribe(EventKind::Connect, 0);
    let manifest = core.handle_getmanifest(&[]);
    assert_eq!(manifest.rpcmethods.len(), 2);
    assert_eq!(manifest.rpcmethods[0].name, "a");
    assert_eq!(manifest.rpcmethods[0].description, "first");
    assert_eq!(manifest.rpcmethods[0].usage, "[x]");
    assert_eq!(manifest.rpcmethods[1].name, "b");
    assert_eq!(manifest.subscriptions, vec!["disconnect".to_string(), "connect".to_string()]);
}

#[test]
fn responses_carry_the_id() {
    let ok = make_response::<u8>(Ok(5), 17);
    assert_eq!(ok.jsonrpc, "2.0");
    assert_eq!(ok.id, 17);
    match ok.result {
        JsonRpcResult::Result(v) => assert_eq!(v, 5),
        JsonRpcResult::Error(_) => panic!("an Ok outcome is a result"),
    }
    let err = make_response::<u8>(Err(RpcError::unknown_event()), 3);
    assert_eq!(err.id, 3);
    match err.result {
        JsonRpcResult::Error(e) => assert_eq!(e.code, 0),
        JsonRpcResult::Result(_) => panic!("an Err outcome is an error"),
    }
}

#[test]
fn result_from_outcome() {
    let r: JsonRpcResult<u8> = JsonRpcResult::from(Ok(1));
    assert!(matches!(r, JsonRpcResult::Result(1)));
    let r: JsonRpcResult<u8> = Err(RpcError::not_initialized()).into();
    assert!(matches!(r, JsonRpcResult::Error(RpcError { code: -32603, .. })));
}

#[test]
fn log_notifications() {
    let note = log_notification(LogMessage { level: LogLevel::Unusual, message: "careful".to_string() });
    assert_eq!(note.jsonrpc, "2.0");
    assert_eq!(note.method, "log");
    assert!(note.id.is_none());
    assert!(matches!(note.params.level, LogLevel::Unusual));
    assert_eq!(note.params.message, "careful");
}

#[test]
fn handlers_follow_their_registration() {
    let mut core: Core<u32> = PluginCore::new();
    core.mount_rpc(meta("first"), 10);
    core.mount_rpc(meta("second"), 20);
    core.subscribe(EventKind::Disconnect, 30);
    core.subscribe(EventKind::Connect, 40);
    core.handle_init(Ok(init_request(1))).unwrap();
    assert!(matches!(core.handle_rpc_call("second"), Ok((1, &20, _))));
    assert!(matches!(core.handle_rpc_call("first"), Ok((0, &10, _))));
    assert!(matches!(core.handle_event("connect"), Ok((1, &40, _))));
    assert!(matches!(core.handle_event("disconnect"), Ok((0, &30, _))));
}

#[test]
fn mount_order_does_not_matter() {
    let mut one: Core<u32> = PluginCore::new();
    one.mount_rpc(meta("a"), 1);
    one.mount_rpc(meta("b"), 2);
    let mut two: Core<u32> = PluginCore::new();
    two.mount_rpc(meta("b"), 2);
    two.mount_rpc(meta("a"), 1);
    one.handle_init(Ok(init_request(5))).unwrap();
    two.handle_init(Ok(init_request(5))).unwrap();
    for name in ["a", "b", "c"] {
        let x = one.handle_rpc_call(name).map(|(_, h, _)| *h).map_err(|e| (e.code, e.message));
        let y = two.handle_rpc_call(name).map(|(_, h, _)| *h).map_err(|e| (e.code, e.message));
        assert_eq!(x, y);
    }
    let mut x: Vec<&str> = one.handle_getmanifest(&[]).rpcmethods.iter().map(|m| m.name).collect();
    let mut y: Vec<&str> = two.handle_getmanifest(&[]).rpcmethods.iter().map(|m| m.name).collect();
    x.sort();
    y.sort();
    assert_eq!(x, y);
}

#[test]
fn rpc() {
    struct TestContext {
        state: AtomicBool,
    }
    let ctx = TestContext { state: AtomicBool::new(false) };

    // The handler a plugin keeps for its RPC method: it parses its params and stores the state.
    type Handler = Box<dyn Fn(&TestContext, serde_json::Value) -> Result<(), RpcError>>;
    let hello_world: Handler = Box::new(|ctx: &TestContext, params: serde_json::Value| {
        let state: bool = parse_params(params["state"].as_bool().ok_or("missing field `state`".to_string()))?;
        ctx.state.store(state, Ordering::Relaxed);
        Ok(())
    });

    let mut plugin: PluginCore<(), Handler, u8> = PluginCore::new();
    plugin.mount_rpc(RpcMethodMeta { name: "hello_world", description: "test rpc call", usage: "name" }, hello_world);

    // Fake receiving the init response
    let init: serde_json::Value = serde_json::from_str(
        "{\"options\": {}, \"configuration\": {\"lightning-dir\": \"/home/not_a_user/.lightning\", \"rpc-file\": \"lightning-rpc\"}}"
    ).unwrap();
    let configuration = &init["configuration"];
    plugin.handle_init(Ok(InitRequest {
        options: (),
        configuration: LightningdConfig {
            lightning_dir: configuration["lightning-dir"].as_str().unwrap().to_string(),
            rpc_file: configuration["rpc-file"].as_str().unwrap().to_string(),
        },
    })).unwrap();

    // Fake receiving RPC call: the handler the plugin hands out is the one mounted
    let (index, handler, _) = plugin.handle_rpc_call("hello_world").ok().unwrap();
    assert_eq!(index, 0);
    handler(&ctx, serde_json::from_str("{\"state\": true}").unwrap()).unwrap();
    assert_eq!(ctx.state.load(Ordering::Relaxed), true);

    let (_, handler, _) = plugin.handle_rpc_call("hello_world").ok().unwrap();
    handler(&ctx, serde_json::from_str("{\"state\": false}").unwrap()).unwrap();
    assert_eq!(ctx.state.load(Ordering::Relaxed), false);
}

#[test]
fn failed_init_keeps_the_last_good_one() {
    let mut core: Core<u32> = PluginCore::new();
    core.handle_init(Ok(init_request(3))).unwrap();
    core.mount_rpc(meta("later"), 0);
    assert!(core.handle_init(Err("trailing characters".to_string())).is_err());
    match core.get_plugin_context() {
        Ok(ctx) => assert_eq!(*ctx.options, 3),
        Err(_) => panic!("the earlier init still holds"),
    }
    assert!(core.handle_rpc_call("later").is_ok());
}
