//! Laws that relate the plugin's operations to each other.

use vstd::prelude::*;
use vstd::seq_lib::to_multiset_build;
use crate::lightningd::rpc_client_for;
use crate::plugin::{
    state_after_init, InitRequest, PluginState,
    call_refusal, event_named, event_refusal, has_name, names_unique, route_for, subscription_for, Route,
};
use crate::types::{
    event_name, method_not_found_message, not_initialized_message, unknown_event_message,
    EventKind, RpcMethodMeta, INTERNAL_ERROR, METHOD_NOT_FOUND, UNKNOWN_EVENT,
};

verus! {

/// Mounting a method with a new name keeps the names unique, and afterwards
/// the method is found under its name, at the position after all methods
/// mounted before it; every other name is found exactly as before.
pub proof fn lemma_mount_then_find(rpcs: Seq<RpcMethodMeta>, meta: RpcMethodMeta)
    requires
        names_unique(rpcs),
        !has_name(rpcs, meta.name@),
    ensures
        names_unique(rpcs.push(meta)),
        has_name(rpcs.push(meta), meta.name@),
        forall|i: int| 0 <= i < rpcs.len() + 1 && (#[trigger] rpcs.push(meta)[i]).name@ == meta.name@
            ==> i == rpcs.len(),
        forall|name: Seq<char>| name != meta.name@
            ==> has_name(rpcs.push(meta), name) == has_name(rpcs, name),
{
    let after = rpcs.push(meta);
    assert(after[rpcs.len() as int] == meta);
    assert forall|i: int| 0 <= i < rpcs.len() implies after[i].name@ != meta.name@ by {
        assert(after[i] == rpcs[i]);
        if rpcs[i].name@ == meta.name@ {
            assert(has_name(rpcs, meta.name@));
        }
    }
    assert forall|name: Seq<char>| name != meta.name@ implies has_name(after, name) == has_name(rpcs, name) by {
        if has_name(after, name) {
            let i: int = choose|i: int| 0 <= i < after.len() && #[trigger] after[i].name@ == name;
            assert(i < rpcs.len());
            assert(rpcs[i] == after[i]);
        }
        if has_name(rpcs, name) {
            let i: int = choose|i: int| 0 <= i < rpcs.len() && #[trigger] rpcs[i].name@ == name;
            assert(after[i] == rpcs[i]);
        }
    }
}

/// Each event has its own name, and the name leads back to the event.
pub proof fn lemma_event_names(kind: EventKind, other: EventKind)
    ensures
        event_named(event_name(kind)) == Some(kind),
        event_name(kind) == event_name(other) ==> kind == other,
{
    reveal_strlit("connect");
    reveal_strlit("disconnect");
    assert("connect"@.len() != "disconnect"@.len());
}

/// The built-in methods `getmanifest` and `init` are routed to themselves,
/// whatever the plugin is subscribed to.
pub proof fn lemma_builtins_routed(subscriptions: Seq<EventKind>)
    ensures
        route_for(subscriptions, "getmanifest"@) == Route::GetManifest,
        route_for(subscriptions, "init"@) == Route::Init,
{
    reveal_strlit("getmanifest");
    reveal_strlit("init");
    assert("getmanifest"@.len() != "init"@.len());
}

/// A request is delivered as an event exactly when its method is the name of
/// a subscribed event; the name of an event without subscription is treated
/// as an RPC method call.
pub proof fn lemma_event_routing(subscriptions: Seq<EventKind>, method: Seq<char>, kind: EventKind)
    ensures
        route_for(subscriptions, method) == Route::Event(kind)
            <==> (subscriptions.contains(kind) && event_name(kind) == method),
        !subscriptions.contains(kind) ==> route_for(subscriptions, event_name(kind)) == Route::RpcCall,
{
    reveal_strlit("getmanifest");
    reveal_strlit("init");
    reveal_strlit("connect");
    reveal_strlit("disconnect");
    assert("getmanifest"@.len() == 11);
    assert("init"@.len() == 4);
    assert("connect"@.len() == 7);
    assert("disconnect"@.len() == 10);
    lemma_event_names(kind, EventKind::Connect);
    lemma_event_names(kind, EventKind::Disconnect);
    if route_for(subscriptions, method) == Route::Event(kind) {
        assert(subscription_for(subscriptions, method) == Some(kind));
    }
}

/// The plugin's life cycle as its callers see it: before `init` every call of
/// a mounted method is refused as not initialized, after it every such call
/// goes ahead; a method that is not mounted is refused as not found whether
/// or not the plugin is initialized.
pub proof fn lemma_calls_follow_life_cycle(rpcs: Seq<RpcMethodMeta>, method: Seq<char>)
    ensures
        has_name(rpcs, method) ==> call_refusal(rpcs, false, method) == Some((INTERNAL_ERROR, not_initialized_message())),
        has_name(rpcs, method) ==> call_refusal(rpcs, true, method) is None,
        !has_name(rpcs, method) ==> call_refusal(rpcs, false, method) == call_refusal(rpcs, true, method),
        !has_name(rpcs, method) ==> call_refusal(rpcs, true, method) == Some((METHOD_NOT_FOUND, method_not_found_message(method))),
{
}

/// Events follow the same life cycle: a subscribed event is refused as not
/// initialized before `init` and delivered after it; an event without
/// subscription is refused as unknown in either state.
pub proof fn lemma_events_follow_life_cycle(subscriptions: Seq<EventKind>, kind: EventKind)
    ensures
        subscriptions.contains(kind) ==> event_refusal(subscriptions, false, event_name(kind)) == Some((INTERNAL_ERROR, not_initialized_message())),
        subscriptions.contains(kind) ==> event_refusal(subscriptions, true, event_name(kind)) is None,
        !subscriptions.contains(kind) ==> event_refusal(subscriptions, true, event_name(kind)) == Some((UNKNOWN_EVENT, unknown_event_message())),
        !subscriptions.contains(kind) ==> event_refusal(subscriptions, false, event_name(kind)) == Some((UNKNOWN_EVENT, unknown_event_message())),
{
    lemma_event_names(kind, kind);
}

/// Subscribing to an event changes the route of no name but that event's.
pub proof fn lemma_subscribe_routes_only_its_event(subscriptions: Seq<EventKind>, kind: EventKind, method: Seq<char>)
    requires
        event_named(method) != Some(kind),
    ensures
        route_for(subscriptions.push(kind), method) == route_for(subscriptions, method),
{
    if let Some(other) = event_named(method) {
        assert(subscriptions.push(kind).contains(other) == subscriptions.contains(other)) by {
            if subscriptions.push(kind).contains(other) {
                let i: int = choose|i: int| 0 <= i < subscriptions.len() + 1 && subscriptions.push(kind)[i] == other;
                assert(i < subscriptions.len());
                assert(subscriptions[i] == other);
            }
            if subscriptions.contains(other) {
                let i: int = choose|i: int| 0 <= i < subscriptions.len() && subscriptions[i] == other;
                assert(subscriptions.push(kind)[i] == other);
            }
        }
    }
}

/// The order in which two methods with different new names are mounted does
/// not matter: both orders keep the names unique, know the same names, find
/// the same method with the same handler under each name, refuse the same
/// calls in the same way, and list the same methods in the manifest up to
/// their order.
pub proof fn lemma_mount_order_irrelevant<H>(
    rpcs: Seq<RpcMethodMeta>,
    handlers: Seq<H>,
    m1: RpcMethodMeta,
    h1: H,
    m2: RpcMethodMeta,
    h2: H,
)
    requires
        names_unique(rpcs),
        handlers.len() == rpcs.len(),
        !has_name(rpcs, m1.name@),
        !has_name(rpcs, m2.name@),
        m1.name@ != m2.name@,
    ensures
        ({
            let a = rpcs.push(m1).push(m2);
            let b = rpcs.push(m2).push(m1);
            let ha = handlers.push(h1).push(h2);
            let hb = handlers.push(h2).push(h1);
            &&& names_unique(a)
            &&& names_unique(b)
            &&& forall|name: Seq<char>| has_name(a, name) == has_name(b, name)
            &&& forall|initialized: bool, name: Seq<char>|
                    call_refusal(a, initialized, name) == call_refusal(b, initialized, name)
            &&& forall|i: int, j: int| 0 <= i < a.len() && 0 <= j < b.len() && (#[trigger] a[i]).name@ == (#[trigger] b[j]).name@
                    ==> a[i] == b[j] && ha[i] == hb[j]
            &&& a.to_multiset() == b.to_multiset()
        }),
{
    let n: int = rpcs.len() as int;
    let a = rpcs.push(m1).push(m2);
    let b = rpcs.push(m2).push(m1);
    let ha = handlers.push(h1).push(h2);
    let hb = handlers.push(h2).push(h1);
    lemma_mount_then_find(rpcs, m1);
    assert(!has_name(rpcs.push(m1), m2.name@));
    lemma_mount_then_find(rpcs.push(m1), m2);
    lemma_mount_then_find(rpcs, m2);
    assert(!has_name(rpcs.push(m2), m1.name@));
    lemma_mount_then_find(rpcs.push(m2), m1);
    assert forall|name: Seq<char>| has_name(a, name) == has_name(b, name) by {
        if name != m1.name@ && name != m2.name@ {
            assert(has_name(a, name) == has_name(rpcs.push(m1), name));
            assert(has_name(rpcs.push(m1), name) == has_name(rpcs, name));
            assert(has_name(b, name) == has_name(rpcs.push(m2), name));
            assert(has_name(rpcs.push(m2), name) == has_name(rpcs, name));
        } else if name == m1.name@ {
            assert(a[n] == m1);
            assert(b[n + 1] == m1);
        } else {
            assert(a[n + 1] == m2);
            assert(b[n] == m2);
        }
    }
    assert forall|i: int, j: int| 0 <= i < a.len() && 0 <= j < b.len() && (#[trigger] a[i]).name@ == (#[trigger] b[j]).name@
        implies a[i] == b[j] && ha[i] == hb[j] by {
        if i < n && j < n {
            assert(a[i] == rpcs[i] && b[j] == rpcs[j]);
            assert(ha[i] == handlers[i] && hb[j] == handlers[j]);
        } else if i < n {
            assert(a[i] == rpcs[i]);
            if j == n {
                assert(b[j] == m2);
            } else {
                assert(b[j] == m1);
            }
            assert(has_name(rpcs, a[i].name@));
        } else if j < n {
            assert(b[j] == rpcs[j]);
            if i == n {
                assert(a[i] == m1);
            } else {
                assert(a[i] == m2);
            }
            assert(has_name(rpcs, b[j].name@));
        }
    }
    to_multiset_build(rpcs, m1);
    to_multiset_build(rpcs.push(m1), m2);
    to_multiset_build(rpcs, m2);
    to_multiset_build(rpcs.push(m2), m1);
    assert(rpcs.to_multiset().insert(m1).insert(m2) =~= rpcs.to_multiset().insert(m2).insert(m1));
}

/// The life-cycle state after a series of `init` requests, each given as its
/// parsed parameters or the debug text of its parse error. Mounting methods
/// and subscribing to events in between leave the state as it is.
pub open spec fn state_after_inits<O>(state: PluginState<O>, inits: Seq<Result<InitRequest<O>, String>>) -> PluginState<O>
    decreases inits.len(),
{
    if inits.len() == 0 {
        state
    } else {
        state_after_init(state_after_inits(state, inits.drop_last()), inits.last())
    }
}

/// The last `init` that parsed wins: it alone fixes the options and the RPC
/// client; if none parsed, the state is what it was. A plugin that starts
/// uninitialized therefore hands out a context exactly when some `init`
/// request parsed.
pub proof fn lemma_last_init_wins<O>(start: PluginState<O>, inits: Seq<Result<InitRequest<O>, String>>)
    ensures
        (forall|i: int| 0 <= i < inits.len() ==> #[trigger] inits[i] is Err)
            ==> state_after_inits(start, inits) == start,
        forall|k: int| #![trigger inits[k]]
            0 <= k < inits.len() && inits[k] is Ok
            && (forall|j: int| k < j < inits.len() ==> #[trigger] inits[j] is Err)
            ==> state_after_inits(start, inits) == state_after_init(start, inits[k]),
        start is Starting ==> (state_after_inits(start, inits) is Initialized
            <==> exists|k: int| 0 <= k < inits.len() && #[trigger] inits[k] is Ok),
    decreases inits.len(),
{
    if inits.len() > 0 {
        let before = inits.drop_last();
        lemma_last_init_wins(start, before);
        let n: int = inits.len() - 1;
        assert forall|i: int| 0 <= i < before.len() implies before[i] == inits[i] by {}
        assert forall|k: int| #![trigger inits[k]]
            0 <= k < inits.len() && inits[k] is Ok
            && (forall|j: int| k < j < inits.len() ==> #[trigger] inits[j] is Err)
            implies state_after_inits(start, inits) == state_after_init(start, inits[k]) by {
            if k < n {
                assert(inits[n] is Err);
                assert(before[k] == inits[k]);
                assert forall|j: int| k < j < before.len() implies #[trigger] before[j] is Err by {
                    assert(before[j] == inits[j]);
                }
            }
        }
        if start is Starting {
            if state_after_inits(start, inits) is Initialized {
                if inits[n] is Err {
                    let k: int = choose|k: int| 0 <= k < before.len() && #[trigger] before[k] is Ok;
                    assert(inits[k] == before[k]);
                }
            }
            if exists|k: int| 0 <= k < inits.len() && #[trigger] inits[k] is Ok {
                let k: int = choose|k: int| 0 <= k < inits.len() && #[trigger] inits[k] is Ok;
                if k < n && inits[n] is Err {
                    assert(before[k] == inits[k]);
                }
            }
        }
    }
}

/// Requests are routed by their exact method name: only `getmanifest` asks
/// for the manifest, only `init` is lightningd's init, a request is an event
/// only when its method is the name of a subscribed event, and every other
/// name is a call of an RPC method.
pub proof fn lemma_route_by_name(subscriptions: Seq<EventKind>, method: Seq<char>)
    ensures
        (route_for(subscriptions, method) == Route::GetManifest) <==> method == "getmanifest"@,
        (route_for(subscriptions, method) == Route::Init) <==> method == "init"@,
        route_for(subscriptions, method) matches Route::Event(kind)
            ==> subscriptions.contains(kind) && event_name(kind) == method,
        (method != "getmanifest"@ && method != "init"@
            && forall|k: EventKind| subscriptions.contains(k) ==> event_name(k) != method)
            ==> route_for(subscriptions, method) == Route::RpcCall,
{
    reveal_strlit("getmanifest");
    reveal_strlit("init");
    reveal_strlit("connect");
    reveal_strlit("disconnect");
    assert("getmanifest"@.len() == 11);
    assert("init"@.len() == 4);
    assert("connect"@.len() == 7);
    assert("disconnect"@.len() == 10);
    lemma_event_names(EventKind::Connect, EventKind::Disconnect);
    if let Route::Event(kind) = route_for(subscriptions, method) {
        lemma_event_routing(subscriptions, method, kind);
    }
    if method != "getmanifest"@ && method != "init"@
        && (forall|k: EventKind| subscriptions.contains(k) ==> event_name(k) != method) {
        if let Some(kind) = subscription_for(subscriptions, method) {
            lemma_event_names(kind, kind);
            assert(event_name(kind) == method);
        }
    }
}

/// A parsed `init` sets up the RPC client for the socket whose path is the
/// lightning directory, then a slash, then the RPC file name, and keeps the
/// options it was given, whatever the state was before.
pub proof fn lemma_init_socket_path<O>(state: PluginState<O>, init: InitRequest<O>)
    ensures
        exists|path: Seq<char>| {
            &&& state_after_init(state, Ok(init)) == (PluginState::Initialized {
                    options: init.options,
                    lightningd: rpc_client_for(path),
                })
            &&& path.len() == init.configuration.lightning_dir@.len() + 1 + init.configuration.rpc_file@.len()
            &&& path.subrange(0, init.configuration.lightning_dir@.len() as int) == init.configuration.lightning_dir@
            &&& path[init.configuration.lightning_dir@.len() as int] == '/'
            &&& path.subrange(init.configuration.lightning_dir@.len() as int + 1, path.len() as int) == init.configuration.rpc_file@
        },
{
    reveal_strlit("/");
    let dir = init.configuration.lightning_dir@;
    let file = init.configuration.rpc_file@;
    let path = dir + "/"@ + file;
    assert("/"@.len() == 1 && "/"@[0] == '/');
    assert(path.subrange(0, dir.len() as int) =~= dir);
    assert(path.subrange(dir.len() as int + 1, path.len() as int) =~= file);
    assert(path[dir.len() as int] == '/');
}

} // verus!
