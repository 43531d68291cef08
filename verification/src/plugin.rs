//! The plugin's registry of RPC methods and event subscriptions, its
//! life cycle (starting, then initialized by lightningd), and the decisions
//! it takes for each request that lightningd sends.

use vstd::prelude::*;
use crate::text::str_eq;
use crate::lightningd::{lightning_rpc_new, rpc_client_for};
use crate::types::{
    event_name, is_error, invalid_params_message, method_not_found_message,
    not_initialized_message, unknown_event_message, CmdOptionMeta, EventKind, JsonRpcRequest,
    JsonRpcResponse, JsonRpcResult, LogMessage, RpcError, RpcMethodMeta, INTERNAL_ERROR,
    INVALID_PARAMS, METHOD_NOT_FOUND, UNKNOWN_EVENT,
};

verus! {

/// The `configuration` part of lightningd's `init` request.
pub struct LightningdConfig {
    pub lightning_dir: String,
    pub rpc_file: String,
}

/// The parameters of lightningd's `init` request.
pub struct InitRequest<O> {
    pub options: O,
    pub configuration: LightningdConfig,
}

/// Where the plugin stands in its life cycle.
pub enum PluginState<O> {
    /// lightningd has not sent `init` yet.
    Starting,
    /// lightningd sent `init`: the options are known and the RPC client is set up.
    Initialized { options: O, lightningd: clightningrpc::LightningRPC },
}

/// The answer to `getmanifest`.
pub struct ManifestResult {
    pub options: &'static [CmdOptionMeta],
    pub rpcmethods: Vec<RpcMethodMeta>,
    pub subscriptions: Vec<String>,
}

/// What the plugin does with a request, decided by its method name.
#[derive(PartialEq, Eq, Structural)]
pub enum Route {
    /// Answer with the manifest.
    GetManifest,
    /// Take lightningd's configuration; no answer is sent.
    Init,
    /// Deliver a subscribed event; no answer is sent.
    Event(EventKind),
    /// Call an RPC method and answer with its outcome.
    RpcCall,
}

/// What an RPC method or an event handler gets to see of the plugin.
pub struct PluginContextParts<'a, O> {
    pub options: &'a O,
    pub lightningd: &'a clightningrpc::LightningRPC,
}

/// The event of this name, if lightningd has an event of this name.
pub open spec fn event_named(name: Seq<char>) -> Option<EventKind> {
    if name == "connect"@ {
        Some(EventKind::Connect)
    } else if name == "disconnect"@ {
        Some(EventKind::Disconnect)
    } else {
        None
    }
}

/// The subscribed event of this name, if any.
pub open spec fn subscription_for(subscriptions: Seq<EventKind>, name: Seq<char>) -> Option<EventKind> {
    match event_named(name) {
        Some(kind) => if subscriptions.contains(kind) { Some(kind) } else { None },
        None => None,
    }
}

/// What the plugin does with a request for `method`: the two built-in
/// methods first, then subscribed events, and every other name is an RPC call.
pub open spec fn route_for(subscriptions: Seq<EventKind>, method: Seq<char>) -> Route {
    if method == "getmanifest"@ {
        Route::GetManifest
    } else if method == "init"@ {
        Route::Init
    } else {
        match subscription_for(subscriptions, method) {
            Some(kind) => Route::Event(kind),
            None => Route::RpcCall,
        }
    }
}

/// No two RPC methods share a name.
pub open spec fn names_unique(rpcs: Seq<RpcMethodMeta>) -> bool {
    forall|i: int, j: int|
        0 <= i < rpcs.len() && 0 <= j < rpcs.len() && i != j ==> rpcs[i].name@ != rpcs[j].name@
}

/// Some RPC method in `rpcs` is named `name`.
pub open spec fn has_name(rpcs: Seq<RpcMethodMeta>, name: Seq<char>) -> bool {
    exists|i: int| 0 <= i < rpcs.len() && #[trigger] rpcs[i].name@ == name
}

/// The JSON-RPC version that every message carries.
pub open spec fn jsonrpc_version() -> Seq<char> {
    "2.0"@
}

/// What a response carries for the outcome of a request.
pub open spec fn result_of<T>(res: Result<T, RpcError>) -> JsonRpcResult<T> {
    match res {
        Ok(v) => JsonRpcResult::Result(v),
        Err(e) => JsonRpcResult::Error(e),
    }
}

/// The error that refuses a call of the RPC method `method`, as a code and a
/// message, or `None` when the call goes ahead: an unknown method is refused
/// first, then any call before `init`.
pub open spec fn call_refusal(rpcs: Seq<RpcMethodMeta>, initialized: bool, method: Seq<char>) -> Option<(i64, Seq<char>)> {
    if !has_name(rpcs, method) {
        Some((METHOD_NOT_FOUND, method_not_found_message(method)))
    } else if !initialized {
        Some((INTERNAL_ERROR, not_initialized_message()))
    } else {
        None
    }
}

/// The error that refuses the delivery of the event `event`, as a code and a
/// message, or `None` when the delivery goes ahead: an event without
/// subscription is refused first, then any delivery before `init`.
pub open spec fn event_refusal(subscriptions: Seq<EventKind>, initialized: bool, event: Seq<char>) -> Option<(i64, Seq<char>)> {
    if subscription_for(subscriptions, event) is None {
        Some((UNKNOWN_EVENT, unknown_event_message()))
    } else if !initialized {
        Some((INTERNAL_ERROR, not_initialized_message()))
    } else {
        None
    }
}

/// `r` is refused exactly as `refusal` says.
pub open spec fn refused_as<T>(r: Result<T, RpcError>, refusal: Option<(i64, Seq<char>)>) -> bool {
    match refusal {
        Some((code, message)) => r is Err && is_error(r->Err_0, code, message),
        None => r is Ok,
    }
}

/// The life-cycle state after lightningd's `init` request, given its parsed
/// parameters or the debug text of the parse error: a parsed request sets the
/// options and the RPC client for `<lightning-dir>/<rpc-file>`, whatever the
/// state was; a request that did not parse changes nothing.
pub open spec fn state_after_init<O>(state: PluginState<O>, parsed: Result<InitRequest<O>, String>) -> PluginState<O> {
    match parsed {
        Ok(init) => PluginState::Initialized {
            options: init.options,
            lightningd: rpc_client_for(init.configuration.lightning_dir@ + "/"@ + init.configuration.rpc_file@),
        },
        Err(_) => state,
    }
}

/// The event of the given name, if lightningd has one of that name.
pub fn event_kind_named(name: &str) -> (r: Option<EventKind>)
    ensures
        r == event_named(name@),
{
    if str_eq(name, "connect") {
        Some(EventKind::Connect)
    } else if str_eq(name, "disconnect") {
        Some(EventKind::Disconnect)
    } else {
        None
    }
}

/// A mounted RPC method: what the manifest shows of it, and its handler.
pub struct RpcEntry<H> {
    pub meta: RpcMethodMeta,
    pub handler: H,
}

/// A subscription: the event, and its handler.
pub struct SubscriptionEntry<S> {
    pub kind: EventKind,
    pub handler: S,
}

/// The registry and life cycle of a plugin with options of type `O`, RPC
/// method handlers of type `H` and event handlers of type `S`.
pub struct PluginCore<O, H, S> {
    rpcs: Vec<RpcEntry<H>>,
    subscriptions: Vec<SubscriptionEntry<S>>,
    plugin_state: PluginState<O>,
}

impl<O, H, S> PluginCore<O, H, S> {
    /// The mounted RPC methods, in the order they were mounted.
    pub closed spec fn rpcs(self) -> Seq<RpcMethodMeta> {
        self.rpcs@.map_values(|e: RpcEntry<H>| e.meta)
    }

    /// The handlers of the mounted RPC methods, in the same order.
    pub closed spec fn rpc_handlers(self) -> Seq<H> {
        self.rpcs@.map_values(|e: RpcEntry<H>| e.handler)
    }

    /// The subscribed events, in the order they were subscribed.
    pub closed spec fn subscriptions(self) -> Seq<EventKind> {
        self.subscriptions@.map_values(|e: SubscriptionEntry<S>| e.kind)
    }

    /// The handlers of the subscribed events, in the same order.
    pub closed spec fn event_handlers(self) -> Seq<S> {
        self.subscriptions@.map_values(|e: SubscriptionEntry<S>| e.handler)
    }

    /// The life-cycle state.
    pub closed spec fn state(self) -> PluginState<O> {
        self.plugin_state
    }

    /// lightningd's `init` has been taken.
    pub open spec fn is_initialized(self) -> bool {
        self.state() is Initialized
    }

    /// What every plugin keeps: method names and subscriptions are each free
    /// of repetition.
    #[verifier::type_invariant]
    spec fn registry_inv(self) -> bool {
        &&& names_unique(self.rpcs())
        &&& self.subscriptions().no_duplicates()
    }

    /// A well-formed plugin: method names and subscriptions are each free of
    /// repetition, and there is one handler per method and per subscription.
    /// Every plugin is well formed; each operation below ensures it.
    pub open spec fn wf(self) -> bool {
        &&& names_unique(self.rpcs())
        &&& self.subscriptions().no_duplicates()
        &&& self.rpc_handlers().len() == self.rpcs().len()
        &&& self.event_handlers().len() == self.subscriptions().len()
    }

    /// There is one handler per mounted method and one per subscription.
    pub proof fn lemma_handlers_align(self)
        ensures
            self.rpc_handlers().len() == self.rpcs().len(),
            self.event_handlers().len() == self.subscriptions().len(),
    {
    }

    /// A plugin that has mounted nothing, subscribed to nothing and not been initialized.
    pub fn new() -> (r: Self)
        ensures
            r.wf(),
            r.rpcs() == Seq::<RpcMethodMeta>::empty(),
            r.rpc_handlers() == Seq::<H>::empty(),
            r.subscriptions() == Seq::<EventKind>::empty(),
            r.event_handlers() == Seq::<S>::empty(),
            r.state() is Starting,
    {
        let r = PluginCore { rpcs: Vec::new(), subscriptions: Vec::new(), plugin_state: PluginState::Starting };
        assert(r.rpcs() =~= Seq::<RpcMethodMeta>::empty());
        assert(r.rpc_handlers() =~= Seq::<H>::empty());
        assert(r.subscriptions() =~= Seq::<EventKind>::empty());
        assert(r.event_handlers() =~= Seq::<S>::empty());
        r
    }

    /// The position of the RPC method named `name`, if one is mounted.
    pub fn find_rpc(&self, name: &str) -> (r: Option<usize>)
        ensures
            self.wf(),
            r is None <==> !has_name(self.rpcs(), name@),
            r matches Some(i) ==> {
                &&& i < self.rpcs().len()
                &&& self.rpcs()[i as int].name@ == name@
                &&& forall|j: int| 0 <= j < i ==> self.rpcs()[j].name@ != name@
            },
    {
        proof { use_type_invariant(self); }
        let mut i: usize = 0;
        while i < self.rpcs.len()
            invariant
                i <= self.rpcs@.len(),
                self.rpcs().len() == self.rpcs@.len(),
                self.wf(),
                forall|j: int| 0 <= j < i ==> self.rpcs()[j].name@ != name@,
            decreases self.rpcs@.len() - i,
        {
            assert(self.rpcs()[i as int] == self.rpcs@[i as int].meta);
            if str_eq(self.rpcs[i].meta.name, name) {
                return Some(i);
            }
            i = i + 1;
        }
        proof {
            if has_name(self.rpcs(), name@) {
                let k: int = choose|k: int| 0 <= k < self.rpcs().len() && #[trigger] self.rpcs()[k].name@ == name@;
                assert(self.rpcs()[k].name@ != name@);
            }
        }
        None
    }

    /// Whether an RPC method named `name` is mounted.
    pub fn has_rpc(&self, name: &str) -> (r: bool)
        ensures
            self.wf(),
            r == has_name(self.rpcs(), name@),
    {
        proof { use_type_invariant(self); }
        self.find_rpc(name).is_some()
    }

    /// Mounts an RPC method with its handler; its name must be new.
    pub fn mount_rpc(&mut self, meta: RpcMethodMeta, handler: H)
        requires
            !has_name(old(self).rpcs(), meta.name@),
        ensures
            final(self).wf(),
            final(self).rpcs() == old(self).rpcs().push(meta),
            final(self).rpc_handlers() == old(self).rpc_handlers().push(handler),
            final(self).subscriptions() == old(self).subscriptions(),
            final(self).event_handlers() == old(self).event_handlers(),
            final(self).state() == old(self).state(),
    {
        let ghost before = self.rpcs();
        proof {
            assert forall|i: int| 0 <= i < before.len() implies before[i].name@ != meta.name@ by {
                if before[i].name@ == meta.name@ {
                    assert(has_name(before, meta.name@));
                }
            }
        }
        proof { use_type_invariant(&*self); }
        let mut rpcs: Vec<RpcEntry<H>> = Vec::new();
        std::mem::swap(&mut rpcs, &mut self.rpcs);
        rpcs.push(RpcEntry { meta, handler });
        assert(rpcs@.map_values(|e: RpcEntry<H>| e.meta) =~= before.push(meta));
        self.rpcs = rpcs;
        assert(self.rpc_handlers() =~= old(self).rpc_handlers().push(handler));
    }

    /// The position of `kind` among the subscriptions, if the plugin is subscribed to it.
    pub fn find_subscription(&self, kind: EventKind) -> (r: Option<usize>)
        ensures
            self.wf(),
            r is None <==> !self.subscriptions().contains(kind),
            r matches Some(i) ==> i < self.subscriptions().len() && self.subscriptions()[i as int] == kind,
    {
        proof { use_type_invariant(self); }
        let mut i: usize = 0;
        while i < self.subscriptions.len()
            invariant
                i <= self.subscriptions@.len(),
                self.subscriptions().len() == self.subscriptions@.len(),
                self.wf(),
                forall|j: int| 0 <= j < i ==> self.subscriptions()[j] != kind,
            decreases self.subscriptions@.len() - i,
        {
            assert(self.subscriptions()[i as int] == self.subscriptions@[i as int].kind);
            if self.subscriptions[i].kind == kind {
                return Some(i);
            }
            i = i + 1;
        }
        None
    }

    /// Whether the plugin is subscribed to `kind`.
    pub fn is_subscribed(&self, kind: EventKind) -> (r: bool)
        ensures
            self.wf(),
            r == self.subscriptions().contains(kind),
    {
        proof { use_type_invariant(self); }
        self.find_subscription(kind).is_some()
    }

    /// Subscribes to `kind` with its handler; the plugin must not be subscribed to it yet.
    pub fn subscribe(&mut self, kind: EventKind, handler: S)
        requires
            !old(self).subscriptions().contains(kind),
        ensures
            final(self).wf(),
            final(self).subscriptions() == old(self).subscriptions().push(kind),
            final(self).event_handlers() == old(self).event_handlers().push(handler),
            final(self).rpcs() == old(self).rpcs(),
            final(self).rpc_handlers() == old(self).rpc_handlers(),
            final(self).state() == old(self).state(),
    {
        let ghost before = self.subscriptions();
        proof { use_type_invariant(&*self); }
        let mut subscriptions: Vec<SubscriptionEntry<S>> = Vec::new();
        std::mem::swap(&mut subscriptions, &mut self.subscriptions);
        subscriptions.push(SubscriptionEntry { kind, handler });
        assert(subscriptions@.map_values(|e: SubscriptionEntry<S>| e.kind) =~= before.push(kind));
        self.subscriptions = subscriptions;
        assert(self.event_handlers() =~= old(self).event_handlers().push(handler));
    }

    /// The position among the subscriptions of the subscribed event named `name`, if any.
    pub fn subscription(&self, name: &str) -> (r: Option<usize>)
        ensures
            self.wf(),
            r is None <==> subscription_for(self.subscriptions(), name@) is None,
            r matches Some(i) ==> {
                &&& i < self.subscriptions().len()
                &&& subscription_for(self.subscriptions(), name@) == Some(self.subscriptions()[i as int])
            },
    {
        proof { use_type_invariant(self); }
        match event_kind_named(name) {
            Some(kind) => self.find_subscription(kind),
            None => None,
        }
    }

    /// What to do with a request for `method`.
    pub fn route(&self, method: &str) -> (r: Route)
        ensures
            self.wf(),
            r == route_for(self.subscriptions(), method@),
            (r == Route::GetManifest) <==> method@ == "getmanifest"@,
            (r == Route::Init) <==> method@ == "init"@,
            r matches Route::Event(kind) ==> self.subscriptions().contains(kind) && event_name(kind) == method@,
            (method@ != "getmanifest"@ && method@ != "init"@
                && forall|k: EventKind| self.subscriptions().contains(k) ==> event_name(k) != method@)
                ==> r == Route::RpcCall,
    {
        proof {
            use_type_invariant(self);
            crate::laws::lemma_route_by_name(self.subscriptions(), method@);
        }
        if str_eq(method, "getmanifest") {
            Route::GetManifest
        } else if str_eq(method, "init") {
            Route::Init
        } else {
            match self.subscription(method) {
                Some(i) => {
                    assert(self.subscriptions()[i as int] == self.subscriptions@[i as int].kind);
                    Route::Event(self.subscriptions[i].kind)
                },
                None => Route::RpcCall,
            }
        }
    }

    /// The manifest: the given command line options, the mounted RPC methods
    /// and the names of the subscribed events, each in registration order.
    pub fn handle_getmanifest(&self, options: &'static [CmdOptionMeta]) -> (r: ManifestResult)
        ensures
            self.wf(),
            r.options == options,
            r.rpcmethods@ == self.rpcs(),
            r.subscriptions@.len() == self.subscriptions().len(),
            forall|i: int| 0 <= i < r.subscriptions@.len()
                ==> #[trigger] r.subscriptions@[i]@ == event_name(self.subscriptions()[i]),
    {
        proof { use_type_invariant(self); }
        let mut rpcmethods: Vec<RpcMethodMeta> = Vec::new();
        let mut i: usize = 0;
        while i < self.rpcs.len()
            invariant
                i <= self.rpcs@.len(),
                self.rpcs().len() == self.rpcs@.len(),
                rpcmethods@ == self.rpcs().subrange(0, i as int),
            decreases self.rpcs@.len() - i,
        {
            assert(self.rpcs()[i as int] == self.rpcs@[i as int].meta);
            rpcmethods.push(self.rpcs[i].meta);
            assert(rpcmethods@ =~= self.rpcs().subrange(0, i + 1));
            i = i + 1;
        }
        assert(rpcmethods@ =~= self.rpcs());
        let mut subscriptions: Vec<String> = Vec::new();
        let mut j: usize = 0;
        while j < self.subscriptions.len()
            invariant
                j <= self.subscriptions@.len(),
                self.subscriptions().len() == self.subscriptions@.len(),
                subscriptions@.len() == j,
                forall|k: int| 0 <= k < j ==> #[trigger] subscriptions@[k]@ == event_name(self.subscriptions()[k]),
            decreases self.subscriptions@.len() - j,
        {
            assert(self.subscriptions()[j as int] == self.subscriptions@[j as int].kind);
            let name: &str = self.subscriptions[j].kind.name();
            subscriptions.push(name.to_owned());
            j = j + 1;
        }
        ManifestResult { options, rpcmethods, subscriptions }
    }

    /// Takes lightningd's `init` request. `parsed` is the request's parameters,
    /// or the debug text of the error that parsing them gave. On success the
    /// plugin keeps the options and sets up the RPC client for the socket at
    /// `<lightning-dir>/<rpc-file>`, replacing what an earlier `init` set;
    /// registrations stay as they are.
    pub fn handle_init(&mut self, parsed: Result<InitRequest<O>, String>) -> (r: Result<(), RpcError>)
        ensures
            final(self).wf(),
            final(self).rpcs() == old(self).rpcs(),
            final(self).rpc_handlers() == old(self).rpc_handlers(),
            final(self).subscriptions() == old(self).subscriptions(),
            final(self).event_handlers() == old(self).event_handlers(),
            final(self).state() == state_after_init(old(self).state(), parsed),
            parsed matches Ok(init) ==> final(self).state() == (PluginState::Initialized {
                options: init.options,
                lightningd: rpc_client_for(init.configuration.lightning_dir@ + "/"@ + init.configuration.rpc_file@),
            }),
            parsed is Err ==> final(self).state() == old(self).state(),
            match parsed {
                Ok(_) => r is Ok,
                Err(text) => r is Err && is_error(r->Err_0, INVALID_PARAMS, invalid_params_message(text@)),
            },
    {
        proof { use_type_invariant(&*self); }
        match parsed {
            Err(text) => Err(RpcError::invalid_params(text.as_str())),
            Ok(init) => {
                let mut rpc_path: String = init.configuration.lightning_dir;
                rpc_path.append("/");
                rpc_path.append(init.configuration.rpc_file.as_str());
                let lightningd = lightning_rpc_new(rpc_path.as_str());
                self.plugin_state = PluginState::Initialized { options: init.options, lightningd };
                Ok(())
            },
        }
    }

    /// What RPC methods and event handlers get to see: available once
    /// lightningd's `init` has been taken.
    pub fn get_plugin_context(&self) -> (r: Result<PluginContextParts<'_, O>, RpcError>)
        ensures
            self.wf(),
            match self.state() {
                PluginState::Starting => r is Err && is_error(r->Err_0, INTERNAL_ERROR, not_initialized_message()),
                PluginState::Initialized { options, lightningd } => {
                    &&& r is Ok
                    &&& *r->Ok_0.options == options
                    &&& *r->Ok_0.lightningd == lightningd
                },
            },
    {
        proof { use_type_invariant(self); }
        match &self.plugin_state {
            PluginState::Starting => Err(RpcError::not_initialized()),
            PluginState::Initialized { options, lightningd } => Ok(PluginContextParts { options, lightningd }),
        }
    }

    /// Prepares a call of the RPC method `method`: its position among the
    /// mounted methods, its handler and the context to call it with. An
    /// unknown method is refused first, then a call before `init`.
    pub fn handle_rpc_call(&self, method: &str) -> (r: Result<(usize, &H, PluginContextParts<'_, O>), RpcError>)
        ensures
            self.wf(),
            refused_as(r, call_refusal(self.rpcs(), self.is_initialized(), method@)),
            r matches Ok((i, handler, ctx)) ==> {
                &&& i < self.rpcs().len()
                &&& self.rpcs()[i as int].name@ == method@
                &&& forall|j: int| 0 <= j < i ==> self.rpcs()[j].name@ != method@
                &&& *handler == self.rpc_handlers()[i as int]
                &&& self.state() matches PluginState::Initialized { options, lightningd }
                &&& *ctx.options == options
                &&& *ctx.lightningd == lightningd
            },
    {
        proof { use_type_invariant(self); }
        match self.find_rpc(method) {
            None => Err(RpcError::method_not_found(method)),
            Some(i) => match self.get_plugin_context() {
                Ok(ctx) => {
                    assert(self.rpc_handlers()[i as int] == self.rpcs@[i as int].handler);
                    Ok((i, &self.rpcs[i].handler, ctx))
                },
                Err(e) => Err(e),
            },
        }
    }

    /// Prepares the delivery of the event `event`: the position of its
    /// subscription, its handler and the context to deliver it with. An event
    /// without subscription is refused first, then a delivery before `init`.
    pub fn handle_event(&self, event: &str) -> (r: Result<(usize, &S, PluginContextParts<'_, O>), RpcError>)
        ensures
            self.wf(),
            refused_as(r, event_refusal(self.subscriptions(), self.is_initialized(), event@)),
            r matches Ok((i, handler, ctx)) ==> {
                &&& i < self.subscriptions().len()
                &&& subscription_for(self.subscriptions(), event@) == Some(self.subscriptions()[i as int])
                &&& *handler == self.event_handlers()[i as int]
                &&& self.state() matches PluginState::Initialized { options, lightningd }
                &&& *ctx.options == options
                &&& *ctx.lightningd == lightningd
            },
    {
        proof { use_type_invariant(self); }
        match self.subscription(event) {
            None => Err(RpcError::unknown_event()),
            Some(i) => match self.get_plugin_context() {
                Ok(ctx) => {
                    assert(self.event_handlers()[i as int] == self.subscriptions@[i as int].handler);
                    Ok((i, &self.subscriptions[i].handler, ctx))
                },
                Err(e) => Err(e),
            },
        }
    }
}

/// What handling one request came to, by route.
pub enum Outcome<T> {
    /// `getmanifest` or an RPC call: the outcome to answer the request with this `id`.
    Answer(Result<T, RpcError>, u64),
    /// `init`: whether the plugin took lightningd's configuration.
    Initialized(Result<(), RpcError>),
    /// An event: whether it was delivered.
    Delivered(Result<(), RpcError>),
}

/// What the plugin's loop does after handling a request.
pub enum LoopStep<T> {
    /// Write this response to lightningd.
    Respond(JsonRpcResponse<T>),
    /// Answer nothing and read the next request, after reporting the error of
    /// an event that could not be delivered.
    Continue(Option<RpcError>),
    /// Stop: lightningd's configuration could not be taken, and nothing can be
    /// done without it.
    Shutdown(RpcError),
}

/// The loop's next step after handling a request: `getmanifest` and RPC
/// calls are answered with their outcome, errors included; `init` and events
/// are never answered; a failed `init` stops the plugin, a failed event does not.
pub fn next_step<T>(outcome: Outcome<T>) -> (r: LoopStep<T>)
    ensures
        match outcome {
            Outcome::Answer(result, id) => r matches LoopStep::Respond(response) && {
                &&& response.jsonrpc@ == jsonrpc_version()
                &&& response.id == id
                &&& response.result == result_of(result)
            },
            Outcome::Initialized(Ok(())) => r == LoopStep::<T>::Continue(None),
            Outcome::Initialized(Err(e)) => r == LoopStep::<T>::Shutdown(e),
            Outcome::Delivered(Ok(())) => r == LoopStep::<T>::Continue(None),
            Outcome::Delivered(Err(e)) => r == LoopStep::<T>::Continue(Some(e)),
        },
{
    match outcome {
        Outcome::Answer(result, id) => LoopStep::Respond(make_response(result, id)),
        Outcome::Initialized(Ok(())) => LoopStep::Continue(None),
        Outcome::Initialized(Err(e)) => LoopStep::Shutdown(e),
        Outcome::Delivered(Ok(())) => LoopStep::Continue(None),
        Outcome::Delivered(Err(e)) => LoopStep::Continue(Some(e)),
    }
}

/// The response to the request with this `id`, carrying `result`.
pub fn make_response<T>(result: Result<T, RpcError>, id: u64) -> (r: JsonRpcResponse<T>)
    ensures
        r.jsonrpc@ == jsonrpc_version(),
        r.id == id,
        r.result == result_of(result),
{
    JsonRpcResponse { jsonrpc: "2.0".to_owned(), result: JsonRpcResult::from(result), id }
}

/// The notification that hands a log line to lightningd.
pub fn log_notification(message: LogMessage) -> (r: JsonRpcRequest<LogMessage>)
    ensures
        r.jsonrpc@ == jsonrpc_version(),
        r.method@ == "log"@,
        r.params == message,
        r.id is None,
{
    JsonRpcRequest { jsonrpc: "2.0".to_owned(), method: "log".to_owned(), params: message, id: None }
}

} // verus!
