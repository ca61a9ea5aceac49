//! Connect handlers: callables of up to sixteen parameters, each extracted
//! from the connection context, that return nothing (synchronous) or a future
//! (asynchronous); and their erased form, stored and invoked uniformly.
use std::marker::PhantomData;
use std::sync::Arc;
use vstd::prelude::*;

use crate::extract::FromConnectParts;
use crate::handler::{settles, ConnectOutcome, MakeErasedHandler};
use crate::socket::Socket;

verus! {

/// The largest number of parameters that a connect handler can declare.
pub const MAX_HANDLER_ARITY: usize = 16;

/// Relies on `tokio::runtime::Handle::try_current`: the handle of the runtime
/// that the calling thread runs in, if any.
#[verifier::external_body]
fn current_runtime() -> (r: Option<tokio::runtime::Handle>) {
    tokio::runtime::Handle::try_current().ok()
}

/// Relies on `tokio::runtime::Handle::spawn`: hands the future to the runtime,
/// which polls it to completion in the background, and returns at once; the
/// join handle is dropped, which detaches the task.
#[verifier::external_body]
fn spawn_detached<Fut>(rt: &tokio::runtime::Handle, fut: Fut)
    where
        Fut: core::future::Future<Output = ()> + Send + 'static,
{
    rt.spawn(fut);
}

/// `tokio::runtime::Handle`, carried through opaque.
#[verifier::external_type_specification]
#[verifier::external_body]
pub struct ExRuntimeHandle(tokio::runtime::Handle);

/// Hands an asynchronous handler's future to the current runtime, without
/// waiting for it.
fn detach<Fut>(fut: Fut) -> (r: ConnectOutcome)
    where
        Fut: core::future::Future<Output = ()> + Send + 'static,
    ensures
        r is Detached || r is Unscheduled,
{
    match current_runtime() {
        Some(rt) => {
            spawn_detached(&rt, fut);
            ConnectOutcome::Detached
        },
        None => ConnectOutcome::Unscheduled,
    }
}

/// A handler for the connect event, for the parameter list `T` and the
/// return mode `F`. It is implemented for closures of up to
/// `MAX_HANDLER_ARITY` parameters that all implement `FromConnectParts`, and
/// that return `()` or a future of `()`.
pub trait ConnectHandler<T, F>: Sized + Send + Sync + 'static {
    /// Whether each extractor accepts the context, in declared order.
    spec fn acceptance(s: Arc<Socket>, auth: Option<String>) -> Seq<bool>;

    /// Whether the handler is asynchronous.
    spec fn is_async() -> bool;

    /// Whether every handler of this type accepts every argument list.
    spec fn callable() -> bool;

    /// Whether a handler of this type has returned from a call on values that
    /// the extractors yield on this context, in declared order. The call is
    /// made on a copy of the handler, of which nothing more is known.
    spec fn invoked_with(&self, s: Arc<Socket>, auth: Option<String>) -> bool;

    /// Runs the extractors in declared order, stopping at the first that
    /// fails; if all succeed, calls a copy of the handler once with the
    /// extracted values, and hands the future of an asynchronous one to the
    /// runtime.
    fn call(&self, s: Arc<Socket>, auth: Option<String>) -> (r: ConnectOutcome)
        requires
            Self::callable(),
        ensures
            settles(Self::acceptance(s, auth), Self::is_async(), r),
            Self::acceptance(s, auth).len() <= MAX_HANDLER_ARITY,
            !(r is Aborted) ==> self.invoked_with(s, auth),
    ;

    fn phantom(&self) -> PhantomData<T> {
        PhantomData
    }

    fn phantom_fut(&self) -> PhantomData<F> {
        PhantomData
    }
}

impl<F, Fut> ConnectHandler<(), (Fut,)> for F
    where
        F: FnOnce() -> Fut + Send + Sync + Clone + 'static,
        Fut: core::future::Future<Output = ()> + Send + 'static,
{
    open spec fn acceptance(s: Arc<Socket>, auth: Option<String>) -> Seq<bool> {
        Seq::empty()
    }

    open spec fn is_async() -> bool {
        true
    }

    open spec fn callable() -> bool {
        forall|g: F| call_requires(g, ())
    }

    open spec fn invoked_with(&self, s: Arc<Socket>, auth: Option<String>) -> bool {
        exists|g: F, fut: Fut| call_ensures(g, (), fut)
    }

    fn call(&self, s: Arc<Socket>, auth: Option<String>) -> (r: ConnectOutcome) {
        let handler = self.clone();
        let fut = handler();
        detach(fut)
    }
}

impl<F, Fut, T1> ConnectHandler<(T1,), (Fut,)> for F
    where
        F: FnOnce(T1) -> Fut + Send + Sync + Clone + 'static,
        Fut: core::future::Future<Output = ()> + Send + 'static,
        T1: FromConnectParts + Send,
{
    open spec fn acceptance(s: Arc<Socket>, auth: Option<String>) -> Seq<bool> {
        seq![T1::accepts(s, auth)]
    }

    open spec fn is_async() -> bool {
        true
    }

    open spec fn callable() -> bool {
        forall|g: F, a1: T1| call_requires(g, (a1,))
    }

    open spec fn invoked_with(&self, s: Arc<Socket>, auth: Option<String>) -> bool {
        exists|g: F, a1: T1, fut: Fut|
            {
                &&& T1::extracted(s, auth, a1)
                &&& call_ensures(g, (a1,), fut)
            }
    }

    fn call(&self, s: Arc<Socket>, auth: Option<String>) -> (r: ConnectOutcome) {
        let a1 = match T1::from_connect_parts(&s, &auth) {
            Ok(v) => v,
            Err(_) => return ConnectOutcome::Aborted { at: 0 },
        };
        let ghost args = (a1,);
        let handler = self.clone();
        let fut = handler(a1);
        assert(call_ensures(handler, args, fut));
        detach(fut)
    }
}

impl<F, Fut, T1, T2> ConnectHandler<(T1, T2), (Fut,)> for F
    where
        F: FnOnce(T1, T2) -> Fut + Send + Sync + Clone + 'static,
        Fut: core::future::Future<Output = ()> + Send + 'static,
        T1: FromConnectParts + Send,
        T2: FromConnectParts + Send,
{
    open spec fn acceptance(s: Arc<Socket>, auth: Option<String>) -> Seq<bool> {
        seq![T1::accepts(s, auth), T2::accepts(s, auth)]
    }

    open spec fn is_async() -> bool {
        true
    }

    open spec fn callable() -> bool {
        forall|g: F, a1: T1, a2: T2| call_requires(g, (a1, a2))
    }

    open spec fn invoked_with(&self, s: Arc<Socket>, auth: Option<String>) -> bool {
        exists|g: F, a1: T1, a2: T2, fut: Fut|
            {
                &&& T1::extracted(s, auth, a1)
                &&& T2::extracted(s, auth, a2)
                &&& call_ensures(g, (a1, a2), fut)
            }
    }

    fn call(&self, s: Arc<Socket>, auth: Option<String>) -> (r: ConnectOutcome) {
        let a1 = match T1::from_connect_parts(&s, &auth) {
            Ok(v) => v,
            Err(_) => return ConnectOutcome::Aborted { at: 0 },
        };
        let a2 = match T2::from_connect_parts(&s, &auth) {
            Ok(v) => v,
            Err(_) => return ConnectOutcome::Aborted { at: 1 },
        };
        let ghost args = (a1, a2);
        let handler = self.clone();
        let fut = handler(a1, a2);
        assert(call_ensures(handler, args, fut));
        detach(fut)
    }
}

impl<F, Fut, T1, T2, T3> ConnectHandler<(T1, T2, T3), (Fut,)> for F
    where
        F: FnOnce(T1, T2, T3) -> Fut + Send + Sync + Clone + 'static,
        Fut: core::future::Future<Output = ()> + Send + 'static,
        T1: FromConnectParts + Send,
        T2: FromConnectParts + Send,
        T3: FromConnectParts + Send,
{
    open spec fn acceptance(s: Arc<Socket>, auth: Option<String>) -> Seq<bool> {
        seq![T1::accepts(s, auth), T2::accepts(s, auth), T3::accepts(s, auth)]
    }

    open spec fn is_async() -> bool {
        true
    }

    open spec fn callable() -> bool {
        forall|g: F, a1: T1, a2: T2, a3: T3| call_requires(g, (a1, a2, a3))
    }

    open spec fn invoked_with(&self, s: Arc<Socket>, auth: Option<String>) -> bool {
        exists|g: F, a1: T1, a2: T2, a3: T3, fut: Fut|
            {
                &&& T1::extracted(s, auth, a1)
                &&& T2::extracted(s, auth, a2)
                &&& T3::extracted(s, auth, a3)
                &&& call_ensures(g, (a1, a2, a3), fut)
            }
    }

    fn call(&self, s: Arc<Socket>, auth: Option<String>) -> (r: ConnectOutcome) {
        let a1 = match T1::from_connect_parts(&s, &auth) {
            Ok(v) => v,
            Err(_) => return ConnectOutcome::Aborted { at: 0 },
        };
        let a2 = match T2::from_connect_parts(&s, &auth) {
            Ok(v) => v,
            Err(_) => return ConnectOutcome::Aborted { at: 1 },
        };
        let a3 = match T3::from_connect_parts(&s, &auth) {
            Ok(v) => v,
            Err(_) => return ConnectOutcome::Aborted { at: 2 },
        };
        let ghost args = (a1, a2, a3);
        let handler = self.clone();
        let fut = handler(a1, a2, a3);
        assert(call_ensures(handler, args, fut));
        detach(fut)
    }
}

impl<F, Fut, T1, T2, T3, T4> ConnectHandler<(T1, T2, T3, T4), (Fut,)> for F
    where
        F: FnOnce(T1, T2, T3, T4) -> Fut + Send + Sync + Clone + 'static,
        Fut: core::future::Future<Output = ()> + Send + 'static,
        T1: FromConnectParts + Send,
        T2: FromConnectParts + Send,
        T3: FromConnectParts + Send,
        T4: FromConnectParts + Send,
{
    open spec fn acceptance(s: Arc<Socket>, auth: Option<String>) -> Seq<bool> {
        seq![T1::accepts(s, auth), T2::accepts(s, auth), T3::accepts(s, auth), T4::accepts(s, auth)]
    }

    open spec fn is_async() -> bool {
        true
    }

    open spec fn callable() -> bool {
        forall|g: F, a1: T1, a2: T2, a3: T3, a4: T4| call_requires(g, (a1, a2, a3, a4))
    }

    open spec fn invoked_with(&self, s: Arc<Socket>, auth: Option<String>) -> bool {
        exists|g: F, a1: T1, a2: T2, a3: T3, a4: T4, fut: Fut|
            {
                &&& T1::extracted(s, auth, a1)
                &&& T2::extracted(s, auth, a2)
                &&& T3::extracted(s, auth, a3)
                &&& T4::extracted(s, auth, a4)
                &&& call_ensures(g, (a1, a2, a3, a4), fut)
            }
    }

    fn call(&self, s: Arc<Socket>, auth: Option<String>) -> (r: ConnectOutcome) {
        let a1 = match T1::from_connect_parts(&s, &auth) {
            Ok(v) => v,
            Err(_) => return ConnectOutcome::Aborted { at: 0 },
        };
        let a2 = match T2::from_connect_parts(&s, &auth) {
            Ok(v) => v,
            Err(_) => return ConnectOutcome::Aborted { at: 1 },
        };
        let a3 = match T3::from_connect_parts(&s, &auth) {
            Ok(v) => v,
            Err(_) => return ConnectOutcome::Aborted { at: 2 },
        };
        let a4 = match T4::from_connect_parts(&s, &auth) {
            Ok(v) => v,
            Err(_) => return ConnectOutcome::Aborted { at: 3 },
        };
        let ghost args = (a1, a2, a3, a4);
        let handler = self.clone();
        let fut = handler(a1, a2, a3, a4);
        assert(call_ensures(handler, args, fut));
        detach(fut)
    }
}

impl<F, Fut, T1, T2, T3, T4, T5> ConnectHandler<(T1, T2, T3, T4, T5), (Fut,)> for F
    where
        F: FnOnce(T1, T2, T3, T4, T5) -> Fut + Send + Sync + Clone + 'static,
        Fut: core::future::Future<Output = ()> + Send + 'static,
        T1: FromConnectParts + Send,
        T2: FromConnectParts + Send,
        T3: FromConnectParts + Send,
        T4: FromConnectParts + Send,
        T5: FromConnectParts + Send,
{
    open spec fn acceptance(s: Arc<Socket>, auth: Option<String>) -> Seq<bool> {
        seq![T1::accepts(s, auth), T2::accepts(s, auth), T3::accepts(s, auth), T4::accepts(s, auth), T5::accepts(s, auth)]
    }

    open spec fn is_async() -> bool {
        true
    }

    open spec fn callable() -> bool {
        forall|g: F, a1: T1, a2: T2, a3: T3, a4: T4, a5: T5| call_requires(g, (a1, a2, a3, a4, a5))
    }

    open spec fn invoked_with(&self, s: Arc<Socket>, auth: Option<String>) -> bool {
        exists|g: F, a1: T1, a2: T2, a3: T3, a4: T4, a5: T5, fut: Fut|
            {
                &&& T1::extracted(s, auth, a1)
                &&& T2::extracted(s, auth, a2)
                &&& T3::extracted(s, auth, a3)
                &&& T4::extracted(s, auth, a4)
                &&& T5::extracted(s, auth, a5)
                &&& call_ensures(g, (a1, a2, a3, a4, a5), fut)
            }
    }

    fn call(&self, s: Arc<Socket>, auth: Option<String>) -> (r: ConnectOutcome) {
        let a1 = match T1::from_connect_parts(&s, &auth) {
            Ok(v) => v,
            Err(_) => return ConnectOutcome::Aborted { at: 0 },
        };
        let a2 = match T2::from_connect_parts(&s, &auth) {
            Ok(v) => v,
            Err(_) => return ConnectOutcome::Aborted { at: 1 },
        };
        let a3 = match T3::from_connect_parts(&s, &auth) {
            Ok(v) => v,
            Err(_) => return ConnectOutcome::Aborted { at: 2 },
        };
        let a4 = match T4::from_connect_parts(&s, &auth) {
            Ok(v) => v,
            Err(_) => return ConnectOutcome::Aborted { at: 3 },
        };
        let a5 = match T5::from_connect_parts(&s, &auth) {
            Ok(v) => v,
            Err(_) => return ConnectOutcome::Aborted { at: 4 },
        };
        let ghost args = (a1, a2, a3, a4, a5);
        let handler = self.clone();
        let fut = handler(a1, a2, a3, a4, a5);
        assert(call_ensures(handler, args, fut));
        detach(fut)
    }
}

impl<F, Fut, T1, T2, T3, T4, T5, T6> ConnectHandler<(T1, T2, T3, T4, T5, T6), (Fut,)> for F
    where
        F: FnOnce(T1, T2, T3, T4, T5, T6) -> Fut + Send + Sync + Clone + 'static,
        Fut: core::future::Future<Output = ()> + Send + 'static,
        T1: FromConnectParts + Send,
        T2: FromConnectParts + Send,
        T3: FromConnectParts + Send,
        T4: FromConnectParts + Send,
        T5: FromConnectParts + Send,
        T6: FromConnectParts + Send,
{
    open spec fn acceptance(s: Arc<Socket>, auth: Option<String>) -> Seq<bool> {
        seq![T1::accepts(s, auth), T2::accepts(s, auth), T3::accepts(s, auth), T4::accepts(s, auth), T5::accepts(s, auth), T6::accepts(s, auth)]
    }

    open spec fn is_async() -> bool {
        true
    }

    open spec fn callable() -> bool {
        forall|g: F, a1: T1, a2: T2, a3: T3, a4: T4, a5: T5, a6: T6| call_requires(g, (a1, a2, a3, a4, a5, a6))
    }

    open spec fn invoked_with(&self, s: Arc<Socket>, auth: Option<String>) -> bool {
        exists|g: F, a1: T1, a2: T2, a3: T3, a4: T4, a5: T5, a6: T6, fut: Fut|
            {
                &&& T1::extracted(s, auth, a1)
                &&& T2::extracted(s, auth, a2)
                &&& T3::extracted(s, auth, a3)
                &&& T4::extracted(s, auth, a4)
                &&& T5::extracted(s, auth, a5)
                &&& T6::extracted(s, auth, a6)
                &&& call_ensures(g, (a1, a2, a3, a4, a5, a6), fut)
            }
    }

    fn call(&self, s: Arc<Socket>, auth: Option<String>) -> (r: ConnectOutcome) {
        let a1 = match T1::from_connect_parts(&s, &auth) {
            Ok(v) => v,
            Err(_) => return ConnectOutcome::Aborted { at: 0 },
        };
        let a2 = match T2::from_connect_parts(&s, &auth) {
            Ok(v) => v,
            Err(_) => return ConnectOutcome::Aborted { at: 1 },
        };
        let a3 = match T3::from_connect_parts(&s, &auth) {
            Ok(v) => v,
            Err(_) => return ConnectOutcome::Aborted { at: 2 },
        };
        let a4 = match T4::from_connect_parts(&s, &auth) {
            Ok(v) => v,
            Err(_) => return ConnectOutcome::Aborted { at: 3 },
        };
        let a5 = match T5::from_connect_parts(&s, &auth) {
            Ok(v) => v,
            Err(_) => return ConnectOutcome::Aborted { at: 4 },
        };
        let a6 = match T6::from_connect_parts(&s, &auth) {
            Ok(v) => v,
            Err(_) => return ConnectOutcome::Aborted { at: 5 },
        };
        let ghost args = (a1, a2, a3, a4, a5, a6);
        let handler = self.clone();
        let fut = handler(a1, a2, a3, a4, a5, a6);
        assert(call_ensures(handler, args, fut));
        detach(fut)
    }
}

impl<F, Fut, T1, T2, T3, T4, T5, T6, T7> ConnectHandler<(T1, T2, T3, T4, T5, T6, T7), (Fut,)> for F
    where
        F: FnOnce(T1, T2, T3, T4, T5, T6, T7) -> Fut + Send + Sync + Clone + 'static,
        Fut: core::future::Future<Output = ()> + Send + 'static,
        T1: FromConnectParts + Send,
        T2: FromConnectParts + Send,
        T3: FromConnectParts + Send,
        T4: FromConnectParts + Send,
        T5: FromConnectParts + Send,
        T6: FromConnectParts + Send,
        T7: FromConnectParts + Send,
{
    open spec fn acceptance(s: Arc<Socket>, auth: Option<String>) -> Seq<bool> {
        seq![T1::accepts(s, auth), T2::accepts(s, auth), T3::accepts(s, auth), T4::accepts(s, auth), T5::accepts(s, auth), T6::accepts(s, auth), T7::accepts(s, auth)]
    }

    open spec fn is_async() -> bool {
        true
    }

    open spec fn callable() -> bool {
        forall|g: F, a1: T1, a2: T2, a3: T3, a4: T4, a5: T5, a6: T6, a7: T7| call_requires(g, (a1, a2, a3, a4, a5, a6, a7))
    }

    open spec fn invoked_with(&self, s: Arc<Socket>, auth: Option<String>) -> bool {
        exists|g: F, a1: T1, a2: T2, a3: T3, a4: T4, a5: T5, a6: T6, a7: T7, fut: Fut|
            {
                &&& T1::extracted(s, auth, a1)
                &&& T2::extracted(s, auth, a2)
                &&& T3::extracted(s, auth, a3)
                &&& T4::extracted(s, auth, a4)
                &&& T5::extracted(s, auth, a5)
                &&& T6::extracted(s, auth, a6)
                &&& T7::extracted(s, auth, a7)
                &&& call_ensures(g, (a1, a2, a3, a4, a5, a6, a7), fut)
            }
    }

    fn call(&self, s: Arc<Socket>, auth: Option<String>) -> (r: ConnectOutcome) {
        let a1 = match T1::from_connect_parts(&s, &auth) {
            Ok(v) => v,
            Err(_) => return ConnectOutcome::Aborted { at: 0 },
        };
        let a2 = match T2::from_connect_parts(&s, &auth) {
            Ok(v) => v,
            Err(_) => return ConnectOutcome::Aborted { at: 1 },
        };
        let a3 = match T3::from_connect_parts(&s, &auth) {
            Ok(v) => v,
            Err(_) => return ConnectOutcome::Aborted { at: 2 },
        };
        let a4 = match T4::from_connect_parts(&s, &auth) {
            Ok(v) => v,
            Err(_) => return ConnectOutcome::Aborted { at: 3 },
        };
        let a5 = match T5::from_connect_parts(&s, &auth) {
            Ok(v) => v,
            Err(_) => return ConnectOutcome::Aborted { at: 4 },
        };
        let a6 = match T6::from_connect_parts(&s, &auth) {
            Ok(v) => v,
            Err(_) => return ConnectOutcome::Aborted { at: 5 },
        };
        let a7 = match T7::from_connect_parts(&s, &auth) {
            Ok(v) => v,
            Err(_) => return ConnectOutcome::Aborted { at: 6 },
        };
        let ghost args = (a1, a2, a3, a4, a5, a6, a7);
        let handler = self.clone();
        let fut = handler(a1, a2, a3, a4, a5, a6, a7);
        assert(call_ensures(handler, args, fut));
        detach(fut)
    }
}

impl<F, Fut, T1, T2, T3, T4, T5, T6, T7, T8> ConnectHandler<(T1, T2, T3, T4, T5, T6, T7, T8), (Fut,)> for F
    where
        F: FnOnce(T1, T2, T3, T4, T5, T6, T7, T8) -> Fut + Send + Sync + Clone + 'static,
        Fut: core::future::Future<Output = ()> + Send + 'static,
        T1: FromConnectParts + Send,
        T2: FromConnectParts + Send,
        T3: FromConnectParts + Send,
        T4: FromConnectParts + Send,
        T5: FromConnectParts + Send,
        T6: FromConnectParts + Send,
        T7: FromConnectParts + Send,
        T8: FromConnectParts + Send,
{
    open spec fn acceptance(s: Arc<Socket>, auth: Option<String>) -> Seq<bool> {
        seq![T1::accepts(s, auth), T2::accepts(s, auth), T3::accepts(s, auth), T4::accepts(s, auth), T5::accepts(s, auth), T6::accepts(s, auth), T7::accepts(s, auth), T8::accepts(s, auth)]
    }

    open spec fn is_async() -> bool {
        true
    }

    open spec fn callable() -> bool {
        forall|g: F, a1: T1, a2: T2, a3: T3, a4: T4, a5: T5, a6: T6, a7: T7, a8: T8| call_requires(g, (a1, a2, a3, a4, a5, a6, a7, a8))
    }

    open spec fn invoked_with(&self, s: Arc<Socket>, auth: Option<String>) -> bool {
        exists|g: F, a1: T1, a2: T2, a3: T3, a4: T4, a5: T5, a6: T6, a7: T7, a8: T8, fut: Fut|
            {
                &&& T1::extracted(s, auth, a1)
                &&& T2::extracted(s, auth, a2)
                &&& T3::extracted(s, auth, a3)
                &&& T4::extracted(s, auth, a4)
                &&& T5::extracted(s, auth, a5)
                &&& T6::extracted(s, auth, a6)
                &&& T7::extracted(s, auth, a7)
                &&& T8::extracted(s, auth, a8)
                &&& call_ensures(g, (a1, a2, a3, a4, a5, a6, a7, a8), fut)
            }
    }

    fn call(&self, s: Arc<Socket>, auth: Option<String>) -> (r: ConnectOutcome) {
        let a1 = match T1::from_connect_parts(&s, &auth) {
            Ok(v) => v,
            Err(_) => return ConnectOutcome::Aborted { at: 0 },
        };
        let a2 = match T2::from_connect_parts(&s, &auth) {
            Ok(v) => v,
            Err(_) => return ConnectOutcome::Aborted { at: 1 },
        };
        let a3 = match T3::from_connect_parts(&s, &auth) {
            Ok(v) => v,
            Err(_) => return ConnectOutcome::Aborted { at: 2 },
        };
        let a4 = match T4::from_connect_parts(&s, &auth) {
            Ok(v) => v,
            Err(_) => return ConnectOutcome::Aborted { at: 3 },
        };
        let a5 = match T5::from_connect_parts(&s, &auth) {
            Ok(v) => v,
            Err(_) => return ConnectOutcome::Aborted { at: 4 },
        };
        let a6 = match T6::from_connect_parts(&s, &auth) {
            Ok(v) => v,
            Err(_) => return ConnectOutcome::Aborted { at: 5 },
        };
        let a7 = match T7::from_connect_parts(&s, &auth) {
            Ok(v) => v,
            Err(_) => return ConnectOutcome::Aborted { at: 6 },
        };
        let a8 = match T8::from_connect_parts(&s, &auth) {
            Ok(v) => v,
            Err(_) => return ConnectOutcome::Aborted { at: 7 },
        };
        let ghost args = (a1, a2, a3, a4, a5, a6, a7, a8);
        let handler = self.clone();
        let fut = handler(a1, a2, a3, a4, a5, a6, a7, a8);
        assert(call_ensures(handler, args, fut));
        detach(fut)
    }
}

impl<F, Fut, T1, T2, T3, T4, T5, T6, T7, T8, T9> ConnectHandler<(T1, T2, T3, T4, T5, T6, T7, T8, T9), (Fut,)> for F
    where
        F: FnOnce(T1, T2, T3, T4, T5, T6, T7, T8, T9) -> Fut + Send + Sync + Clone + 'static,
        Fut: core::future::Future<Output = ()> + Send + 'static,
        T1: FromConnectParts + Send,
        T2: FromConnectParts + Send,
        T3: FromConnectParts + Send,
        T4: FromConnectParts + Send,
        T5: FromConnectParts + Send,
        T6: FromConnectParts + Send,
        T7: FromConnectParts + Send,
        T8: FromConnectParts + Send,
        T9: FromConnectParts + Send,
{
    open spec fn acceptance(s: Arc<Socket>, auth: Option<String>) -> Seq<bool> {
        seq![T1::accepts(s, auth), T2::accepts(s, auth), T3::accepts(s, auth), T4::accepts(s, auth), T5::accepts(s, auth), T6::accepts(s, auth), T7::accepts(s, auth), T8::accepts(s, auth), T9::accepts(s, auth)]
    }

    open spec fn is_async() -> bool {
        true
    }

    open spec fn callable() -> bool {
        forall|g: F, a1: T1, a2: T2, a3: T3, a4: T4, a5: T5, a6: T6, a7: T7, a8: T8, a9: T9| call_requires(g, (a1, a2, a3, a4, a5, a6, a7, a8, a9))
    }

    open spec fn invoked_with(&self, s: Arc<Socket>, auth: Option<String>) -> bool {
        exists|g: F, a1: T1, a2: T2, a3: T3, a4: T4, a5: T5, a6: T6, a7: T7, a8: T8, a9: T9, fut: Fut|
            {
                &&& T1::extracted(s, auth, a1)
                &&& T2::extracted(s, auth, a2)
                &&& T3::extracted(s, auth, a3)
                &&& T4::extracted(s, auth, a4)
                &&& T5::extracted(s, auth, a5)
                &&& T6::extracted(s, auth, a6)
                &&& T7::extracted(s, auth, a7)
                &&& T8::extracted(s, auth, a8)
                &&& T9::extracted(s, auth, a9)
                &&& call_ensures(g, (a1, a2, a3, a4, a5, a6, a7, a8, a9), fut)
            }
    }

    fn call(&self, s: Arc<Socket>, auth: Option<String>) -> (r: ConnectOutcome) {
        let a1 = match T1::from_connect_parts(&s, &auth) {
            Ok(v) => v,
            Err(_) => return ConnectOutcome::Aborted { at: 0 },
        };
        let a2 = match T2::from_connect_parts(&s, &auth) {
            Ok(v) => v,
            Err(_) => return ConnectOutcome::Aborted { at: 1 },
        };
        let a3 = match T3::from_connect_parts(&s, &auth) {
            Ok(v) => v,
            Err(_) => return ConnectOutcome::Aborted { at: 2 },
        };
        let a4 = match T4::from_connect_parts(&s, &auth) {
            Ok(v) => v,
            Err(_) => return ConnectOutcome::Aborted { at: 3 },
        };
        let a5 = match T5::from_connect_parts(&s, &auth) {
            Ok(v) => v,
            Err(_) => return ConnectOutcome::Aborted { at: 4 },
        };
        let a6 = match T6::from_connect_parts(&s, &auth) {
            Ok(v) => v,
            Err(_) => return ConnectOutcome::Aborted { at: 5 },
        };
        let a7 = match T7::from_connect_parts(&s, &auth) {
            Ok(v) => v,
            Err(_) => return ConnectOutcome::Aborted { at: 6 },
        };
        let a8 = match T8::from_connect_parts(&s, &auth) {
            Ok(v) => v,
            Err(_) => return ConnectOutcome::Aborted { at: 7 },
        };
        let a9 = match T9::from_connect_parts(&s, &auth) {
            Ok(v) => v,
            Err(_) => return ConnectOutcome::Aborted { at: 8 },
        };
        let ghost args = (a1, a2, a3, a4, a5, a6, a7, a8, a9);
        let handler = self.clone();
        let fut = handler(a1, a2, a3, a4, a5, a6, a7, a8, a9);
        assert(call_ensures(handler, args, fut));
        detach(fut)
    }
}

impl<F, Fut, T1, T2, T3, T4, T5, T6, T7, T8, T9, T10> ConnectHandler<(T1, T2, T3, T4, T5, T6, T7, T8, T9, T10), (Fut,)> for F
    where
        F: FnOnce(T1, T2, T3, T4, T5, T6, T7, T8, T9, T10) -> Fut + Send + Sync + Clone + 'static,
        Fut: core::future::Future<Output = ()> + Send + 'static,
        T1: FromConnectParts + Send,
        T2: FromConnectParts + Send,
        T3: FromConnectParts + Send,
        T4: FromConnectParts + Send,
        T5: FromConnectParts + Send,
        T6: FromConnectParts + Send,
        T7: FromConnectParts + Send,
        T8: FromConnectParts + Send,
        T9: FromConnectParts + Send,
        T10: FromConnectParts + Send,
{
    open spec fn acceptance(s: Arc<Socket>, auth: Option<String>) -> Seq<bool> {
        seq![T1::accepts(s, auth), T2::accepts(s, auth), T3::accepts(s, auth), T4::accepts(s, auth), T5::accepts(s, auth), T6::accepts(s, auth), T7::accepts(s, auth), T8::accepts(s, auth), T9::accepts(s, auth), T10::accepts(s, auth)]
    }

    open spec fn is_async() -> bool {
        true
    }

    open spec fn callable() -> bool {
        forall|g: F, a1: T1, a2: T2, a3: T3, a4: T4, a5: T5, a6: T6, a7: T7, a8: T8, a9: T9, a10: T10| call_requires(g, (a1, a2, a3, a4, a5, a6, a7, a8, a9, a10))
    }

    open spec fn invoked_with(&self, s: Arc<Socket>, auth: Option<String>) -> bool {
        exists|g: F, a1: T1, a2: T2, a3: T3, a4: T4, a5: T5, a6: T6, a7: T7, a8: T8, a9: T9, a10: T10, fut: Fut|
            {
                &&& T1::extracted(s, auth, a1)
                &&& T2::extracted(s, auth, a2)
                &&& T3::extracted(s, auth, a3)
                &&& T4::extracted(s, auth, a4)
                &&& T5::extracted(s, auth, a5)
                &&& T6::extracted(s, auth, a6)
                &&& T7::extracted(s, auth, a7)
                &&& T8::extracted(s, auth, a8)
                &&& T9::extracted(s, auth, a9)
                &&& T10::extracted(s, auth, a10)
                &&& call_ensures(g, (a1, a2, a3, a4, a5, a6, a7, a8, a9, a10), fut)
            }
    }

    fn call(&self, s: Arc<Socket>, auth: Option<String>) -> (r: ConnectOutcome) {
        let a1 = match T1::from_connect_parts(&s, &auth) {
            Ok(v) => v,
            Err(_) => return ConnectOutcome::Aborted { at: 0 },
        };
        let a2 = match T2::from_connect_parts(&s, &auth) {
            Ok(v) => v,
            Err(_) => return ConnectOutcome::Aborted { at: 1 },
        };
        let a3 = match T3::from_connect_parts(&s, &auth) {
            Ok(v) => v,
            Err(_) => return ConnectOutcome::Aborted { at: 2 },
        };
        let a4 = match T4::from_connect_parts(&s, &auth) {
            Ok(v) => v,
            Err(_) => return ConnectOutcome::Aborted { at: 3 },
        };
        let a5 = match T5::from_connect_parts(&s, &auth) {
            Ok(v) => v,
            Err(_) => return ConnectOutcome::Aborted { at: 4 },
        };
        let a6 = match T6::from_connect_parts(&s, &auth) {
            Ok(v) => v,
            Err(_) => return ConnectOutcome::Aborted { at: 5 },
        };
        let a7 = match T7::from_connect_parts(&s, &auth) {
            Ok(v) => v,
            Err(_) => return ConnectOutcome::Aborted { at: 6 },
        };
        let a8 = match T8::from_connect_parts(&s, &auth) {
            Ok(v) => v,
            Err(_) => return ConnectOutcome::Aborted { at: 7 },
        };
        let a9 = match T9::from_connect_parts(&s, &auth) {
            Ok(v) => v,
            Err(_) => return ConnectOutcome::Aborted { at: 8 },
        };
        let a10 = match T10::from_connect_parts(&s, &auth) {
            Ok(v) => v,
            Err(_) => return ConnectOutcome::Aborted { at: 9 },
        };
        let ghost args = (a1, a2, a3, a4, a5, a6, a7, a8, a9, a10);
        let handler = self.clone();
        let fut = handler(a1, a2, a3, a4, a5, a6, a7, a8, a9, a10);
        assert(call_ensures(handler, args, fut));
        detach(fut)
    }
}

impl<F, Fut, T1, T2, T3, T4, T5, T6, T7, T8, T9, T10, T11> ConnectHandler<(T1, T2, T3, T4, T5, T6, T7, T8, T9, T10, T11), (Fut,)> for F
    where
        F: FnOnce(T1, T2, T3, T4, T5, T6, T7, T8, T9, T10, T11) -> Fut + Send + Sync + Clone + 'static,
        Fut: core::future::Future<Output = ()> + Send + 'static,
        T1: FromConnectParts + Send,
        T2: FromConnectParts + Send,
        T3: FromConnectParts + Send,
        T4: FromConnectParts + Send,
        T5: FromConnectParts + Send,
        T6: FromConnectParts + Send,
        T7: FromConnectParts + Send,
        T8: FromConnectParts + Send,
        T9: FromConnectParts + Send,
        T10: FromConnectParts + Send,
        T11: FromConnectParts + Send,
{
    open spec fn acceptance(s: Arc<Socket>, auth: Option<String>) -> Seq<bool> {
        seq![T1::accepts(s, auth), T2::accepts(s, auth), T3::accepts(s, auth), T4::accepts(s, auth), T5::accepts(s, auth), T6::accepts(s, auth), T7::accepts(s, auth), T8::accepts(s, auth), T9::accepts(s, auth), T10::accepts(s, auth), T11::accepts(s, auth)]
    }

    open spec fn is_async() -> bool {
        true
    }

    open spec fn callable() -> bool {
        forall|g: F, a1: T1, a2: T2, a3: T3, a4: T4, a5: T5, a6: T6, a7: T7, a8: T8, a9: T9, a10: T10, a11: T11| call_requires(g, (a1, a2, a3, a4, a5, a6, a7, a8, a9, a10, a11))
    }

    open spec fn invoked_with(&self, s: Arc<Socket>, auth: Option<String>) -> bool {
        exists|g: F, a1: T1, a2: T2, a3: T3, a4: T4, a5: T5, a6: T6, a7: T7, a8: T8, a9: T9, a10: T10, a11: T11, fut: Fut|
            {
                &&& T1::extracted(s, auth, a1)
                &&& T2::extracted(s, auth, a2)
                &&& T3::extracted(s, auth, a3)
                &&& T4::extracted(s, auth, a4)
                &&& T5::extracted(s, auth, a5)
                &&& T6::extracted(s, auth, a6)
                &&& T7::extracted(s, auth, a7)
                &&& T8::extracted(s, auth, a8)
                &&& T9::extracted(s, auth, a9)
                &&& T10::extracted(s, auth, a10)
                &&& T11::extracted(s, auth, a11)
                &&& call_ensures(g, (a1, a2, a3, a4, a5, a6, a7, a8, a9, a10, a11), fut)
            }
    }

    fn call(&self, s: Arc<Socket>, auth: Option<String>) -> (r: ConnectOutcome) {
        let a1 = match T1::from_connect_parts(&s, &auth) {
            Ok(v) => v,
            Err(_) => return ConnectOutcome::Aborted { at: 0 },
        };
        let a2 = match T2::from_connect_parts(&s, &auth) {
            Ok(v) => v,
            Err(_) => return ConnectOutcome::Aborted { at: 1 },
        };
        let a3 = match T3::from_connect_parts(&s, &auth) {
            Ok(v) => v,
            Err(_) => return ConnectOutcome::Aborted { at: 2 },
        };
        let a4 = match T4::from_connect_parts(&s, &auth) {
            Ok(v) => v,
            Err(_) => return ConnectOutcome::Aborted { at: 3 },
        };
        let a5 = match T5::from_connect_parts(&s, &auth) {
            Ok(v) => v,
            Err(_) => return ConnectOutcome::Aborted { at: 4 },
        };
        let a6 = match T6::from_connect_parts(&s, &auth) {
            Ok(v) => v,
            Err(_) => return ConnectOutcome::Aborted { at: 5 },
        };
        let a7 = match T7::from_connect_parts(&s, &auth) {
            Ok(v) => v,
            Err(_) => return ConnectOutcome::Aborted { at: 6 },
        };
        let a8 = match T8::from_connect_parts(&s, &auth) {
            Ok(v) => v,
            Err(_) => return ConnectOutcome::Aborted { at: 7 },
        };
        let a9 = match T9::from_connect_parts(&s, &auth) {
            Ok(v) => v,
            Err(_) => return ConnectOutcome::Aborted { at: 8 },
        };
        let a10 = match T10::from_connect_parts(&s, &auth) {
            Ok(v) => v,
            Err(_) => return ConnectOutcome::Aborted { at: 9 },
        };
        let a11 = match T11::from_connect_parts(&s, &auth) {
            Ok(v) => v,
            Err(_) => return ConnectOutcome::Aborted { at: 10 },
        };
        let ghost args = (a1, a2, a3, a4, a5, a6, a7, a8, a9, a10, a11);
        let handler = self.clone();
        let fut = handler(a1, a2, a3, a4, a5, a6, a7, a8, a9, a10, a11);
        assert(call_ensures(handler, args, fut));
        detach(fut)
    }
}

impl<F, Fut, T1, T2, T3, T4, T5, T6, T7, T8, T9, T10, T11, T12> ConnectHandler<(T1, T2, T3, T4, T5, T6, T7, T8, T9, T10, T11, T12), (Fut,)> for F
    where
        F: FnOnce(T1, T2, T3, T4, T5, T6, T7, T8, T9, T10, T11, T12) -> Fut + Send + Sync + Clone + 'static,
        Fut: core::future::Future<Output = ()> + Send + 'static,
        T1: FromConnectParts + Send,
        T2: FromConnectParts + Send,
        T3: FromConnectParts + Send,
        T4: FromConnectParts + Send,
        T5: FromConnectParts + Send,
        T6: FromConnectParts + Send,
        T7: FromConnectParts + Send,
        T8: FromConnectParts + Send,
        T9: FromConnectParts + Send,
        T10: FromConnectParts + Send,
        T11: FromConnectParts + Send,
        T12: FromConnectParts + Send,
{
    open spec fn acceptance(s: Arc<Socket>, auth: Option<String>) -> Seq<bool> {
        seq![T1::accepts(s, auth), T2::accepts(s, auth), T3::accepts(s, auth), T4::accepts(s, auth), T5::accepts(s, auth), T6::accepts(s, auth), T7::accepts(s, auth), T8::accepts(s, auth), T9::accepts(s, auth), T10::accepts(s, auth), T11::accepts(s, auth), T12::accepts(s, auth)]
    }

    open spec fn is_async() -> bool {
        true
    }

    open spec fn callable() -> bool {
        forall|g: F, a1: T1, a2: T2, a3: T3, a4: T4, a5: T5, a6: T6, a7: T7, a8: T8, a9: T9, a10: T10, a11: T11, a12: T12| call_requires(g, (a1, a2, a3, a4, a5, a6, a7, a8, a9, a10, a11, a12))
    }

    open spec fn invoked_with(&self, s: Arc<Socket>, auth: Option<String>) -> bool {
        exists|g: F, a1: T1, a2: T2, a3: T3, a4: T4, a5: T5, a6: T6, a7: T7, a8: T8, a9: T9, a10: T10, a11: T11, a12: T12, fut: Fut|
            {
                &&& T1::extracted(s, auth, a1)
                &&& T2::extracted(s, auth, a2)
                &&& T3::extracted(s, auth, a3)
                &&& T4::extracted(s, auth, a4)
                &&& T5::extracted(s, auth, a5)
                &&& T6::extracted(s, auth, a6)
                &&& T7::extracted(s, auth, a7)
                &&& T8::extracted(s, auth, a8)
                &&& T9::extracted(s, auth, a9)
                &&& T10::extracted(s, auth, a10)
                &&& T11::extracted(s, auth, a11)
                &&& T12::extracted(s, auth, a12)
                &&& call_ensures(g, (a1, a2, a3, a4, a5, a6, a7, a8, a9, a10, a11, a12), fut)
            }
    }

    fn call(&self, s: Arc<Socket>, auth: Option<String>) -> (r: ConnectOutcome) {
        let a1 = match T1::from_connect_parts(&s, &auth) {
            Ok(v) => v,
            Err(_) => return ConnectOutcome::Aborted { at: 0 },
        };
        let a2 = match T2::from_connect_parts(&s, &auth) {
            Ok(v) => v,
            Err(_) => return ConnectOutcome::Aborted { at: 1 },
        };
        let a3 = match T3::from_connect_parts(&s, &auth) {
            Ok(v) => v,
            Err(_) => return ConnectOutcome::Aborted { at: 2 },
        };
        let a4 = match T4::from_connect_parts(&s, &auth) {
            Ok(v) => v,
            Err(_) => return ConnectOutcome::Aborted { at: 3 },
        };
        let a5 = match T5::from_connect_parts(&s, &auth) {
            Ok(v) => v,
            Err(_) => return ConnectOutcome::Aborted { at: 4 },
        };
        let a6 = match T6::from_connect_parts(&s, &auth) {
            Ok(v) => v,
            Err(_) => return ConnectOutcome::Aborted { at: 5 },
        };
        let a7 = match T7::from_connect_parts(&s, &auth) {
            Ok(v) => v,
            Err(_) => return ConnectOutcome::Aborted { at: 6 },
        };
        let a8 = match T8::from_connect_parts(&s, &auth) {
            Ok(v) => v,
            Err(_) => return ConnectOutcome::Aborted { at: 7 },
        };
        let a9 = match T9::from_connect_parts(&s, &auth) {
            Ok(v) => v,
            Err(_) => return ConnectOutcome::Aborted { at: 8 },
        };
        let a10 = match T10::from_connect_parts(&s, &auth) {
            Ok(v) => v,
            Err(_) => return ConnectOutcome::Aborted { at: 9 },
        };
        let a11 = match T11::from_connect_parts(&s, &auth) {
            Ok(v) => v,
            Err(_) => return ConnectOutcome::Aborted { at: 10 },
        };
        let a12 = match T12::from_connect_parts(&s, &auth) {
            Ok(v) => v,
            Err(_) => return ConnectOutcome::Aborted { at: 11 },
        };
        let ghost args = (a1, a2, a3, a4, a5, a6, a7, a8, a9, a10, a11, a12);
        let handler = self.clone();
        let fut = handler(a1, a2, a3, a4, a5, a6, a7, a8, a9, a10, a11, a12);
        assert(call_ensures(handler, args, fut));
        detach(fut)
    }
}

impl<F, Fut, T1, T2, T3, T4, T5, T6, T7, T8, T9, T10, T11, T12, T13> ConnectHandler<(T1, T2, T3, T4, T5, T6, T7, T8, T9, T10, T11, T12, T13), (Fut,)> for F
    where
        F: FnOnce(T1, T2, T3, T4, T5, T6, T7, T8, T9, T10, T11, T12, T13) -> Fut + Send + Sync + Clone + 'static,
        Fut: core::future::Future<Output = ()> + Send + 'static,
        T1: FromConnectParts + Send,
        T2: FromConnectParts + Send,
        T3: FromConnectParts + Send,
        T4: FromConnectParts + Send,
        T5: FromConnectParts + Send,
        T6: FromConnectParts + Send,
        T7: FromConnectParts + Send,
        T8: FromConnectParts + Send,
        T9: FromConnectParts + Send,
        T10: FromConnectParts + Send,
        T11: FromConnectParts + Send,
        T12: FromConnectParts + Send,
        T13: FromConnectParts + Send,
{
    open spec fn acceptance(s: Arc<Socket>, auth: Option<String>) -> Seq<bool> {
        seq![T1::accepts(s, auth), T2::accepts(s, auth), T3::accepts(s, auth), T4::accepts(s, auth), T5::accepts(s, auth), T6::accepts(s, auth), T7::accepts(s, auth), T8::accepts(s, auth), T9::accepts(s, auth), T10::accepts(s, auth), T11::accepts(s, auth), T12::accepts(s, auth), T13::accepts(s, auth)]
    }

    open spec fn is_async() -> bool {
        true
    }

    open spec fn callable() -> bool {
        forall|g: F, a1: T1, a2: T2, a3: T3, a4: T4, a5: T5, a6: T6, a7: T7, a8: T8, a9: T9, a10: T10, a11: T11, a12: T12, a13: T13| call_requires(g, (a1, a2, a3, a4, a5, a6, a7, a8, a9, a10, a11, a12, a13))
    }

    open spec fn invoked_with(&self, s: Arc<Socket>, auth: Option<String>) -> bool {
        exists|g: F, a1: T1, a2: T2, a3: T3, a4: T4, a5: T5, a6: T6, a7: T7, a8: T8, a9: T9, a10: T10, a11: T11, a12: T12, a13: T13, fut: Fut|
            {
                &&& T1::extracted(s, auth, a1)
                &&& T2::extracted(s, auth, a2)
                &&& T3::extracted(s, auth, a3)
                &&& T4::extracted(s, auth, a4)
                &&& T5::extracted(s, auth, a5)
                &&& T6::extracted(s, auth, a6)
                &&& T7::extracted(s, auth, a7)
                &&& T8::extracted(s, auth, a8)
                &&& T9::extracted(s, auth, a9)
                &&& T10::extracted(s, auth, a10)
                &&& T11::extracted(s, auth, a11)
                &&& T12::extracted(s, auth, a12)
                &&& T13::extracted(s, auth, a13)
                &&& call_ensures(g, (a1, a2, a3, a4, a5, a6, a7, a8, a9, a10, a11, a12, a13), fut)
            }
    }

    fn call(&self, s: Arc<Socket>, auth: Option<String>) -> (r: ConnectOutcome) {
        let a1 = match T1::from_connect_parts(&s, &auth) {
            Ok(v) => v,
            Err(_) => return ConnectOutcome::Aborted { at: 0 },
        };
        let a2 = match T2::from_connect_parts(&s, &auth) {
            Ok(v) => v,
            Err(_) => return ConnectOutcome::Aborted { at: 1 },
        };
        let a3 = match T3::from_connect_parts(&s, &auth) {
            Ok(v) => v,
            Err(_) => return ConnectOutcome::Aborted { at: 2 },
        };
        let a4 = match T4::from_connect_parts(&s, &auth) {
            Ok(v) => v,
            Err(_) => return ConnectOutcome::Aborted { at: 3 },
        };
        let a5 = match T5::from_connect_parts(&s, &auth) {
            Ok(v) => v,
            Err(_) => return ConnectOutcome::Aborted { at: 4 },
        };
        let a6 = match T6::from_connect_parts(&s, &auth) {
            Ok(v) => v,
            Err(_) => return ConnectOutcome::Aborted { at: 5 },
        };
        let a7 = match T7::from_connect_parts(&s, &auth) {
            Ok(v) => v,
            Err(_) => return ConnectOutcome::Aborted { at: 6 },
        };
        let a8 = match T8::from_connect_parts(&s, &auth) {
            Ok(v) => v,
            Err(_) => return ConnectOutcome::Aborted { at: 7 },
        };
        let a9 = match T9::from_connect_parts(&s, &auth) {
            Ok(v) => v,
            Err(_) => return ConnectOutcome::Aborted { at: 8 },
        };
        let a10 = match T10::from_connect_parts(&s, &auth) {
            Ok(v) => v,
            Err(_) => return ConnectOutcome::Aborted { at: 9 },
        };
        let a11 = match T11::from_connect_parts(&s, &auth) {
            Ok(v) => v,
            Err(_) => return ConnectOutcome::Aborted { at: 10 },
        };
        let a12 = match T12::from_connect_parts(&s, &auth) {
            Ok(v) => v,
            Err(_) => return ConnectOutcome::Aborted { at: 11 },
        };
        let a13 = match T13::from_connect_parts(&s, &auth) {
            Ok(v) => v,
            Err(_) => return ConnectOutcome::Aborted { at: 12 },
        };
        let ghost args = (a1, a2, a3, a4, a5, a6, a7, a8, a9, a10, a11, a12, a13);
        let handler = self.clone();
        let fut = handler(a1, a2, a3, a4, a5, a6, a7, a8, a9, a10, a11, a12, a13);
        assert(call_ensures(handler, args, fut));
        detach(fut)
    }
}

impl<F, Fut, T1, T2, T3, T4, T5, T6, T7, T8, T9, T10, T11, T12, T13, T14> ConnectHandler<(T1, T2, T3, T4, T5, T6, T7, T8, T9, T10, T11, T12, T13, T14), (Fut,)> for F
    where
        F: FnOnce(T1, T2, T3, T4, T5, T6, T7, T8, T9, T10, T11, T12, T13, T14) -> Fut + Send + Sync + Clone + 'static,
        Fut: core::future::Future<Output = ()> + Send + 'static,
        T1: FromConnectParts + Send,
        T2: FromConnectParts + Send,
        T3: FromConnectParts + Send,
        T4: FromConnectParts + Send,
        T5: FromConnectParts + Send,
        T6: FromConnectParts + Send,
        T7: FromConnectParts + Send,
        T8: FromConnectParts + Send,
        T9: FromConnectParts + Send,
        T10: FromConnectParts + Send,
        T11: FromConnectParts + Send,
        T12: FromConnectParts + Send,
        T13: FromConnectParts + Send,
        T14: FromConnectParts + Send,
{
    open spec fn acceptance(s: Arc<Socket>, auth: Option<String>) -> Seq<bool> {
        seq![T1::accepts(s, auth), T2::accepts(s, auth), T3::accepts(s, auth), T4::accepts(s, auth), T5::accepts(s, auth), T6::accepts(s, auth), T7::accepts(s, auth), T8::accepts(s, auth), T9::accepts(s, auth), T10::accepts(s, auth), T11::accepts(s, auth), T12::accepts(s, auth), T13::accepts(s, auth), T14::accepts(s, auth)]
    }

    open spec fn is_async() -> bool {
        true
    }

    open spec fn callable() -> bool {
        forall|g: F, a1: T1, a2: T2, a3: T3, a4: T4, a5: T5, a6: T6, a7: T7, a8: T8, a9: T9, a10: T10, a11: T11, a12: T12, a13: T13, a14: T14| call_requires(g, (a1, a2, a3, a4, a5, a6, a7, a8, a9, a10, a11, a12, a13, a14))
    }

    open spec fn invoked_with(&self, s: Arc<Socket>, auth: Option<String>) -> bool {
        exists|g: F, a1: T1, a2: T2, a3: T3, a4: T4, a5: T5, a6: T6, a7: T7, a8: T8, a9: T9, a10: T10, a11: T11, a12: T12, a13: T13, a14: T14, fut: Fut|
            {
                &&& T1::extracted(s, auth, a1)
                &&& T2::extracted(s, auth, a2)
                &&& T3::extracted(s, auth, a3)
                &&& T4::extracted(s, auth, a4)
                &&& T5::extracted(s, auth, a5)
                &&& T6::extracted(s, auth, a6)
                &&& T7::extracted(s, auth, a7)
                &&& T8::extracted(s, auth, a8)
                &&& T9::extracted(s, auth, a9)
                &&& T10::extracted(s, auth, a10)
                &&& T11::extracted(s, auth, a11)
                &&& T12::extracted(s, auth, a12)
                &&& T13::extracted(s, auth, a13)
                &&& T14::extracted(s, auth, a14)
                &&& call_ensures(g, (a1, a2, a3, a4, a5, a6, a7, a8, a9, a10, a11, a12, a13, a14), fut)
            }
    }

    fn call(&self, s: Arc<Socket>, auth: Option<String>) -> (r: ConnectOutcome) {
        let a1 = match T1::from_connect_parts(&s, &auth) {
            Ok(v) => v,
            Err(_) => return ConnectOutcome::Aborted { at: 0 },
        };
        let a2 = match T2::from_connect_parts(&s, &auth) {
            Ok(v) => v,
            Err(_) => return ConnectOutcome::Aborted { at: 1 },
        };
        let a3 = match T3::from_connect_parts(&s, &auth) {
            Ok(v) => v,
            Err(_) => return ConnectOutcome::Aborted { at: 2 },
        };
        let a4 = match T4::from_connect_parts(&s, &auth) {
            Ok(v) => v,
            Err(_) => return ConnectOutcome::Aborted { at: 3 },
        };
        let a5 = match T5::from_connect_parts(&s, &auth) {
            Ok(v) => v,
            Err(_) => return ConnectOutcome::Aborted { at: 4 },
        };
        let a6 = match T6::from_connect_parts(&s, &auth) {
            Ok(v) => v,
            Err(_) => return ConnectOutcome::Aborted { at: 5 },
        };
        let a7 = match T7::from_connect_parts(&s, &auth) {
            Ok(v) => v,
            Err(_) => return ConnectOutcome::Aborted { at: 6 },
        };
        let a8 = match T8::from_connect_parts(&s, &auth) {
            Ok(v) => v,
            Err(_) => return ConnectOutcome::Aborted { at: 7 },
        };
        let a9 = match T9::from_connect_parts(&s, &auth) {
            Ok(v) => v,
            Err(_) => return ConnectOutcome::Aborted { at: 8 },
        };
        let a10 = match T10::from_connect_parts(&s, &auth) {
            Ok(v) => v,
            Err(_) => return ConnectOutcome::Aborted { at: 9 },
        };
        let a11 = match T11::from_connect_parts(&s, &auth) {
            Ok(v) => v,
            Err(_) => return ConnectOutcome::Aborted { at: 10 },
        };
        let a12 = match T12::from_connect_parts(&s, &auth) {
            Ok(v) => v,
            Err(_) => return ConnectOutcome::Aborted { at: 11 },
        };
        let a13 = match T13::from_connect_parts(&s, &auth) {
            Ok(v) => v,
            Err(_) => return ConnectOutcome::Aborted { at: 12 },
        };
        let a14 = match T14::from_connect_parts(&s, &auth) {
            Ok(v) => v,
            Err(_) => return ConnectOutcome::Aborted { at: 13 },
        };
        let ghost args = (a1, a2, a3, a4, a5, a6, a7, a8, a9, a10, a11, a12, a13, a14);
        let handler = self.clone();
        let fut = handler(a1, a2, a3, a4, a5, a6, a7, a8, a9, a10, a11, a12, a13, a14);
        assert(call_ensures(handler, args, fut));
        detach(fut)
    }
}

impl<F, Fut, T1, T2, T3, T4, T5, T6, T7, T8, T9, T10, T11, T12, T13, T14, T15> ConnectHandler<(T1, T2, T3, T4, T5, T6, T7, T8, T9, T10, T11, T12, T13, T14, T15), (Fut,)> for F
    where
        F: FnOnce(T1, T2, T3, T4, T5, T6, T7, T8, T9, T10, T11, T12, T13, T14, T15) -> Fut + Send + Sync + Clone + 'static,
        Fut: core::future::Future<Output = ()> + Send + 'static,
        T1: FromConnectParts + Send,
        T2: FromConnectParts + Send,
        T3: FromConnectParts + Send,
        T4: FromConnectParts + Send,
        T5: FromConnectParts + Send,
        T6: FromConnectParts + Send,
        T7: FromConnectParts + Send,
        T8: FromConnectParts + Send,
        T9: FromConnectParts + Send,
        T10: FromConnectParts + Send,
        T11: FromConnectParts + Send,
        T12: FromConnectParts + Send,
        T13: FromConnectParts + Send,
        T14: FromConnectParts + Send,
        T15: FromConnectParts + Send,
{
    open spec fn acceptance(s: Arc<Socket>, auth: Option<String>) -> Seq<bool> {
        seq![T1::accepts(s, auth), T2::accepts(s, auth), T3::accepts(s, auth), T4::accepts(s, auth), T5::accepts(s, auth), T6::accepts(s, auth), T7::accepts(s, auth), T8::accepts(s, auth), T9::accepts(s, auth), T10::accepts(s, auth), T11::accepts(s, auth), T12::accepts(s, auth), T13::accepts(s, auth), T14::accepts(s, auth), T15::accepts(s, auth)]
    }

    open spec fn is_async() -> bool {
        true
    }

    open spec fn callable() -> bool {
        forall|g: F, a1: T1, a2: T2, a3: T3, a4: T4, a5: T5, a6: T6, a7: T7, a8: T8, a9: T9, a10: T10, a11: T11, a12: T12, a13: T13, a14: T14, a15: T15| call_requires(g, (a1, a2, a3, a4, a5, a6, a7, a8, a9, a10, a11, a12, a13, a14, a15))
    }

    open spec fn invoked_with(&self, s: Arc<Socket>, auth: Option<String>) -> bool {
        exists|g: F, a1: T1, a2: T2, a3: T3, a4: T4, a5: T5, a6: T6, a7: T7, a8: T8, a9: T9, a10: T10, a11: T11, a12: T12, a13: T13, a14: T14, a15: T15, fut: Fut|
            {
                &&& T1::extracted(s, auth, a1)
                &&& T2::extracted(s, auth, a2)
                &&& T3::extracted(s, auth, a3)
                &&& T4::extracted(s, auth, a4)
                &&& T5::extracted(s, auth, a5)
                &&& T6::extracted(s, auth, a6)
                &&& T7::extracted(s, auth, a7)
                &&& T8::extracted(s, auth, a8)
                &&& T9::extracted(s, auth, a9)
                &&& T10::extracted(s, auth, a10)
                &&& T11::extracted(s, auth, a11)
                &&& T12::extracted(s, auth, a12)
                &&& T13::extracted(s, auth, a13)
                &&& T14::extracted(s, auth, a14)
                &&& T15::extracted(s, auth, a15)
                &&& call_ensures(g, (a1, a2, a3, a4, a5, a6, a7, a8, a9, a10, a11, a12, a13, a14, a15), fut)
            }
    }

    fn call(&self, s: Arc<Socket>, auth: Option<String>) -> (r: ConnectOutcome) {
        let a1 = match T1::from_connect_parts(&s, &auth) {
            Ok(v) => v,
            Err(_) => return ConnectOutcome::Aborted { at: 0 },
        };
        let a2 = match T2::from_connect_parts(&s, &auth) {
            Ok(v) => v,
            Err(_) => return ConnectOutcome::Aborted { at: 1 },
        };
        let a3 = match T3::from_connect_parts(&s, &auth) {
            Ok(v) => v,
            Err(_) => return ConnectOutcome::Aborted { at: 2 },
        };
        let a4 = match T4::from_connect_parts(&s, &auth) {
            Ok(v) => v,
            Err(_) => return ConnectOutcome::Aborted { at: 3 },
        };
        let a5 = match T5::from_connect_parts(&s, &auth) {
            Ok(v) => v,
            Err(_) => return ConnectOutcome::Aborted { at: 4 },
        };
        let a6 = match T6::from_connect_parts(&s, &auth) {
            Ok(v) => v,
            Err(_) => return ConnectOutcome::Aborted { at: 5 },
        };
        let a7 = match T7::from_connect_parts(&s, &auth) {
            Ok(v) => v,
            Err(_) => return ConnectOutcome::Aborted { at: 6 },
        };
        let a8 = match T8::from_connect_parts(&s, &auth) {
            Ok(v) => v,
            Err(_) => return ConnectOutcome::Aborted { at: 7 },
        };
        let a9 = match T9::from_connect_parts(&s, &auth) {
            Ok(v) => v,
            Err(_) => return ConnectOutcome::Aborted { at: 8 },
        };
        let a10 = match T10::from_connect_parts(&s, &auth) {
            Ok(v) => v,
            Err(_) => return ConnectOutcome::Aborted { at: 9 },
        };
        let a11 = match T11::from_connect_parts(&s, &auth) {
            Ok(v) => v,
            Err(_) => return ConnectOutcome::Aborted { at: 10 },
        };
        let a12 = match T12::from_connect_parts(&s, &auth) {
            Ok(v) => v,
            Err(_) => return ConnectOutcome::Aborted { at: 11 },
        };
        let a13 = match T13::from_connect_parts(&s, &auth) {
            Ok(v) => v,
            Err(_) => return ConnectOutcome::Aborted { at: 12 },
        };
        let a14 = match T14::from_connect_parts(&s, &auth) {
            Ok(v) => v,
            Err(_) => return ConnectOutcome::Aborted { at: 13 },
        };
        let a15 = match T15::from_connect_parts(&s, &auth) {
            Ok(v) => v,
            Err(_) => return ConnectOutcome::Aborted { at: 14 },
        };
        let ghost args = (a1, a2, a3, a4, a5, a6, a7, a8, a9, a10, a11, a12, a13, a14, a15);
        let handler = self.clone();
        let fut = handler(a1, a2, a3, a4, a5, a6, a7, a8, a9, a10, a11, a12, a13, a14, a15);
        assert(call_ensures(handler, args, fut));
        detach(fut)
    }
}

impl<F, Fut, T1, T2, T3, T4, T5, T6, T7, T8, T9, T10, T11, T12, T13, T14, T15, T16> ConnectHandler<(T1, T2, T3, T4, T5, T6, T7, T8, T9, T10, T11, T12, T13, T14, T15, T16), (Fut,)> for F
    where
        F: FnOnce(T1, T2, T3, T4, T5, T6, T7, T8, T9, T10, T11, T12, T13, T14, T15, T16) -> Fut + Send + Sync + Clone + 'static,
        Fut: core::future::Future<Output = ()> + Send + 'static,
        T1: FromConnectParts + Send,
        T2: FromConnectParts + Send,
        T3: FromConnectParts + Send,
        T4: FromConnectParts + Send,
        T5: FromConnectParts + Send,
        T6: FromConnectParts + Send,
        T7: FromConnectParts + Send,
        T8: FromConnectParts + Send,
        T9: FromConnectParts + Send,
        T10: FromConnectParts + Send,
        T11: FromConnectParts + Send,
        T12: FromConnectParts + Send,
        T13: FromConnectParts + Send,
        T14: FromConnectParts + Send,
        T15: FromConnectParts + Send,
        T16: FromConnectParts + Send,
{
    open spec fn acceptance(s: Arc<Socket>, auth: Option<String>) -> Seq<bool> {
        seq![T1::accepts(s, auth), T2::accepts(s, auth), T3::accepts(s, auth), T4::accepts(s, auth), T5::accepts(s, auth), T6::accepts(s, auth), T7::accepts(s, auth), T8::accepts(s, auth), T9::accepts(s, auth), T10::accepts(s, auth), T11::accepts(s, auth), T12::accepts(s, auth), T13::accepts(s, auth), T14::accepts(s, auth), T15::accepts(s, auth), T16::accepts(s, auth)]
    }

    open spec fn is_async() -> bool {
        true
    }

    open spec fn callable() -> bool {
        forall|g: F, a1: T1, a2: T2, a3: T3, a4: T4, a5: T5, a6: T6, a7: T7, a8: T8, a9: T9, a10: T10, a11: T11, a12: T12, a13: T13, a14: T14, a15: T15, a16: T16| call_requires(g, (a1, a2, a3, a4, a5, a6, a7, a8, a9, a10, a11, a12, a13, a14, a15, a16))
    }

    open spec fn invoked_with(&self, s: Arc<Socket>, auth: Option<String>) -> bool {
        exists|g: F, a1: T1, a2: T2, a3: T3, a4: T4, a5: T5, a6: T6, a7: T7, a8: T8, a9: T9, a10: T10, a11: T11, a12: T12, a13: T13, a14: T14, a15: T15, a16: T16, fut: Fut|
            {
                &&& T1::extracted(s, auth, a1)
                &&& T2::extracted(s, auth, a2)
                &&& T3::extracted(s, auth, a3)
                &&& T4::extracted(s, auth, a4)
                &&& T5::extracted(s, auth, a5)
                &&& T6::extracted(s, auth, a6)
                &&& T7::extracted(s, auth, a7)
                &&& T8::extracted(s, auth, a8)
                &&& T9::extracted(s, auth, a9)
                &&& T10::extracted(s, auth, a10)
                &&& T11::extracted(s, auth, a11)
                &&& T12::extracted(s, auth, a12)
                &&& T13::extracted(s, auth, a13)
                &&& T14::extracted(s, auth, a14)
                &&& T15::extracted(s, auth, a15)
                &&& T16::extracted(s, auth, a16)
                &&& call_ensures(g, (a1, a2, a3, a4, a5, a6, a7, a8, a9, a10, a11, a12, a13, a14, a15, a16), fut)
            }
    }

    fn call(&self, s: Arc<Socket>, auth: Option<String>) -> (r: ConnectOutcome) {
        let a1 = match T1::from_connect_parts(&s, &auth) {
            Ok(v) => v,
            Err(_) => return ConnectOutcome::Aborted { at: 0 },
        };
        let a2 = match T2::from_connect_parts(&s, &auth) {
            Ok(v) => v,
            Err(_) => return ConnectOutcome::Aborted { at: 1 },
        };
        let a3 = match T3::from_connect_parts(&s, &auth) {
            Ok(v) => v,
            Err(_) => return ConnectOutcome::Aborted { at: 2 },
        };
        let a4 = match T4::from_connect_parts(&s, &auth) {
            Ok(v) => v,
            Err(_) => return ConnectOutcome::Aborted { at: 3 },
        };
        let a5 = match T5::from_connect_parts(&s, &auth) {
            Ok(v) => v,
            Err(_) => return ConnectOutcome::Aborted { at: 4 },
        };
        let a6 = match T6::from_connect_parts(&s, &auth) {
            Ok(v) => v,
            Err(_) => return ConnectOutcome::Aborted { at: 5 },
        };
        let a7 = match T7::from_connect_parts(&s, &auth) {
            Ok(v) => v,
            Err(_) => return ConnectOutcome::Aborted { at: 6 },
        };
        let a8 = match T8::from_connect_parts(&s, &auth) {
            Ok(v) => v,
            Err(_) => return ConnectOutcome::Aborted { at: 7 },
        };
        let a9 = match T9::from_connect_parts(&s, &auth) {
            Ok(v) => v,
            Err(_) => return ConnectOutcome::Aborted { at: 8 },
        };
        let a10 = match T10::from_connect_parts(&s, &auth) {
            Ok(v) => v,
            Err(_) => return ConnectOutcome::Aborted { at: 9 },
        };
        let a11 = match T11::from_connect_parts(&s, &auth) {
            Ok(v) => v,
            Err(_) => return ConnectOutcome::Aborted { at: 10 },
        };
        let a12 = match T12::from_connect_parts(&s, &auth) {
            Ok(v) => v,
            Err(_) => return ConnectOutcome::Aborted { at: 11 },
        };
        let a13 = match T13::from_connect_parts(&s, &auth) {
            Ok(v) => v,
            Err(_) => return ConnectOutcome::Aborted { at: 12 },
        };
        let a14 = match T14::from_connect_parts(&s, &auth) {
            Ok(v) => v,
            Err(_) => return ConnectOutcome::Aborted { at: 13 },
        };
        let a15 = match T15::from_connect_parts(&s, &auth) {
            Ok(v) => v,
            Err(_) => return ConnectOutcome::Aborted { at: 14 },
        };
        let a16 = match T16::from_connect_parts(&s, &auth) {
            Ok(v) => v,
            Err(_) => return ConnectOutcome::Aborted { at: 15 },
        };
        let ghost args = (a1, a2, a3, a4, a5, a6, a7, a8, a9, a10, a11, a12, a13, a14, a15, a16);
        let handler = self.clone();
        let fut = handler(a1, a2, a3, a4, a5, a6, a7, a8, a9, a10, a11, a12, a13, a14, a15, a16);
        assert(call_ensures(handler, args, fut));
        detach(fut)
    }
}

impl<F> ConnectHandler<(), ()> for F
    where
        F: FnOnce() -> () + Send + Sync + Clone + 'static,
{
    open spec fn acceptance(s: Arc<Socket>, auth: Option<String>) -> Seq<bool> {
        Seq::empty()
    }

    open spec fn is_async() -> bool {
        false
    }

    open spec fn callable() -> bool {
        forall|g: F| call_requires(g, ())
    }

    open spec fn invoked_with(&self, s: Arc<Socket>, auth: Option<String>) -> bool {
        exists|g: F| call_ensures(g, (), ())
    }

    fn call(&self, s: Arc<Socket>, auth: Option<String>) -> (r: ConnectOutcome) {
        let handler = self.clone();
        handler();
        ConnectOutcome::Completed
    }
}

impl<F, T1> ConnectHandler<(T1,), ()> for F
    where
        F: FnOnce(T1) -> () + Send + Sync + Clone + 'static,
        T1: FromConnectParts + Send,
{
    open spec fn acceptance(s: Arc<Socket>, auth: Option<String>) -> Seq<bool> {
        seq![T1::accepts(s, auth)]
    }

    open spec fn is_async() -> bool {
        false
    }

    open spec fn callable() -> bool {
        forall|g: F, a1: T1| call_requires(g, (a1,))
    }

    open spec fn invoked_with(&self, s: Arc<Socket>, auth: Option<String>) -> bool {
        exists|g: F, a1: T1|
            {
                &&& T1::extracted(s, auth, a1)
                &&& call_ensures(g, (a1,), ())
            }
    }

    fn call(&self, s: Arc<Socket>, auth: Option<String>) -> (r: ConnectOutcome) {
        let a1 = match T1::from_connect_parts(&s, &auth) {
            Ok(v) => v,
            Err(_) => return ConnectOutcome::Aborted { at: 0 },
        };
        let ghost args = (a1,);
        let handler = self.clone();
        handler(a1);
        assert(call_ensures(handler, args, ()));
        ConnectOutcome::Completed
    }
}

impl<F, T1, T2> ConnectHandler<(T1, T2), ()> for F
    where
        F: FnOnce(T1, T2) -> () + Send + Sync + Clone + 'static,
        T1: FromConnectParts + Send,
        T2: FromConnectParts + Send,
{
    open spec fn acceptance(s: Arc<Socket>, auth: Option<String>) -> Seq<bool> {
        seq![T1::accepts(s, auth), T2::accepts(s, auth)]
    }

    open spec fn is_async() -> bool {
        false
    }

    open spec fn callable() -> bool {
        forall|g: F, a1: T1, a2: T2| call_requires(g, (a1, a2))
    }

    open spec fn invoked_with(&self, s: Arc<Socket>, auth: Option<String>) -> bool {
        exists|g: F, a1: T1, a2: T2|
            {
                &&& T1::extracted(s, auth, a1)
                &&& T2::extracted(s, auth, a2)
                &&& call_ensures(g, (a1, a2), ())
            }
    }

    fn call(&self, s: Arc<Socket>, auth: Option<String>) -> (r: ConnectOutcome) {
        let a1 = match T1::from_connect_parts(&s, &auth) {
            Ok(v) => v,
            Err(_) => return ConnectOutcome::Aborted { at: 0 },
        };
        let a2 = match T2::from_connect_parts(&s, &auth) {
            Ok(v) => v,
            Err(_) => return ConnectOutcome::Aborted { at: 1 },
        };
        let ghost args = (a1, a2);
        let handler = self.clone();
        handler(a1, a2);
        assert(call_ensures(handler, args, ()));
        ConnectOutcome::Completed
    }
}

impl<F, T1, T2, T3> ConnectHandler<(T1, T2, T3), ()> for F
    where
        F: FnOnce(T1, T2, T3) -> () + Send + Sync + Clone + 'static,
        T1: FromConnectParts + Send,
        T2: FromConnectParts + Send,
        T3: FromConnectParts + Send,
{
    open spec fn acceptance(s: Arc<Socket>, auth: Option<String>) -> Seq<bool> {
        seq![T1::accepts(s, auth), T2::accepts(s, auth), T3::accepts(s, auth)]
    }

    open spec fn is_async() -> bool {
        false
    }

    open spec fn callable() -> bool {
        forall|g: F, a1: T1, a2: T2, a3: T3| call_requires(g, (a1, a2, a3))
    }

    open spec fn invoked_with(&self, s: Arc<Socket>, auth: Option<String>) -> bool {
        exists|g: F, a1: T1, a2: T2, a3: T3|
            {
                &&& T1::extracted(s, auth, a1)
                &&& T2::extracted(s, auth, a2)
                &&& T3::extracted(s, auth, a3)
                &&& call_ensures(g, (a1, a2, a3), ())
            }
    }

    fn call(&self, s: Arc<Socket>, auth: Option<String>) -> (r: ConnectOutcome) {
        let a1 = match T1::from_connect_parts(&s, &auth) {
            Ok(v) => v,
            Err(_) => return ConnectOutcome::Aborted { at: 0 },
        };
        let a2 = match T2::from_connect_parts(&s, &auth) {
            Ok(v) => v,
            Err(_) => return ConnectOutcome::Aborted { at: 1 },
        };
        let a3 = match T3::from_connect_parts(&s, &auth) {
            Ok(v) => v,
            Err(_) => return ConnectOutcome::Aborted { at: 2 },
        };
        let ghost args = (a1, a2, a3);
        let handler = self.clone();
        handler(a1, a2, a3);
        assert(call_ensures(handler, args, ()));
        ConnectOutcome::Completed
    }
}

impl<F, T1, T2, T3, T4> ConnectHandler<(T1, T2, T3, T4), ()> for F
    where
        F: FnOnce(T1, T2, T3, T4) -> () + Send + Sync + Clone + 'static,
        T1: FromConnectParts + Send,
        T2: FromConnectParts + Send,
        T3: FromConnectParts + Send,
        T4: FromConnectParts + Send,
{
    open spec fn acceptance(s: Arc<Socket>, auth: Option<String>) -> Seq<bool> {
        seq![T1::accepts(s, auth), T2::accepts(s, auth), T3::accepts(s, auth), T4::accepts(s, auth)]
    }

    open spec fn is_async() -> bool {
        false
    }

    open spec fn callable() -> bool {
        forall|g: F, a1: T1, a2: T2, a3: T3, a4: T4| call_requires(g, (a1, a2, a3, a4))
    }

    open spec fn invoked_with(&self, s: Arc<Socket>, auth: Option<String>) -> bool {
        exists|g: F, a1: T1, a2: T2, a3: T3, a4: T4|
            {
                &&& T1::extracted(s, auth, a1)
                &&& T2::extracted(s, auth, a2)
                &&& T3::extracted(s, auth, a3)
                &&& T4::extracted(s, auth, a4)
                &&& call_ensures(g, (a1, a2, a3, a4), ())
            }
    }

    fn call(&self, s: Arc<Socket>, auth: Option<String>) -> (r: ConnectOutcome) {
        let a1 = match T1::from_connect_parts(&s, &auth) {
            Ok(v) => v,
            Err(_) => return ConnectOutcome::Aborted { at: 0 },
        };
        let a2 = match T2::from_connect_parts(&s, &auth) {
            Ok(v) => v,
            Err(_) => return ConnectOutcome::Aborted { at: 1 },
        };
        let a3 = match T3::from_connect_parts(&s, &auth) {
            Ok(v) => v,
            Err(_) => return ConnectOutcome::Aborted { at: 2 },
        };
        let a4 = match T4::from_connect_parts(&s, &auth) {
            Ok(v) => v,
            Err(_) => return ConnectOutcome::Aborted { at: 3 },
        };
        let ghost args = (a1, a2, a3, a4);
        let handler = self.clone();
        handler(a1, a2, a3, a4);
        assert(call_ensures(handler, args, ()));
        ConnectOutcome::Completed
    }
}

impl<F, T1, T2, T3, T4, T5> ConnectHandler<(T1, T2, T3, T4, T5), ()> for F
    where
        F: FnOnce(T1, T2, T3, T4, T5) -> () + Send + Sync + Clone + 'static,
        T1: FromConnectParts + Send,
        T2: FromConnectParts + Send,
        T3: FromConnectParts + Send,
        T4: FromConnectParts + Send,
        T5: FromConnectParts + Send,
{
    open spec fn acceptance(s: Arc<Socket>, auth: Option<String>) -> Seq<bool> {
        seq![T1::accepts(s, auth), T2::accepts(s, auth), T3::accepts(s, auth), T4::accepts(s, auth), T5::accepts(s, auth)]
    }

    open spec fn is_async() -> bool {
        false
    }

    open spec fn callable() -> bool {
        forall|g: F, a1: T1, a2: T2, a3: T3, a4: T4, a5: T5| call_requires(g, (a1, a2, a3, a4, a5))
    }

    open spec fn invoked_with(&self, s: Arc<Socket>, auth: Option<String>) -> bool {
        exists|g: F, a1: T1, a2: T2, a3: T3, a4: T4, a5: T5|
            {
                &&& T1::extracted(s, auth, a1)
                &&& T2::extracted(s, auth, a2)
                &&& T3::extracted(s, auth, a3)
                &&& T4::extracted(s, auth, a4)
                &&& T5::extracted(s, auth, a5)
                &&& call_ensures(g, (a1, a2, a3, a4, a5), ())
            }
    }

    fn call(&self, s: Arc<Socket>, auth: Option<String>) -> (r: ConnectOutcome) {
        let a1 = match T1::from_connect_parts(&s, &auth) {
            Ok(v) => v,
            Err(_) => return ConnectOutcome::Aborted { at: 0 },
        };
        let a2 = match T2::from_connect_parts(&s, &auth) {
            Ok(v) => v,
            Err(_) => return ConnectOutcome::Aborted { at: 1 },
        };
        let a3 = match T3::from_connect_parts(&s, &auth) {
            Ok(v) => v,
            Err(_) => return ConnectOutcome::Aborted { at: 2 },
        };
        let a4 = match T4::from_connect_parts(&s, &auth) {
            Ok(v) => v,
            Err(_) => return ConnectOutcome::Aborted { at: 3 },
        };
        let a5 = match T5::from_connect_parts(&s, &auth) {
            Ok(v) => v,
            Err(_) => return ConnectOutcome::Aborted { at: 4 },
        };
        let ghost args = (a1, a2, a3, a4, a5);
        let handler = self.clone();
        handler(a1, a2, a3, a4, a5);
        assert(call_ensures(handler, args, ()));
        ConnectOutcome::Completed
    }
}

impl<F, T1, T2, T3, T4, T5, T6> ConnectHandler<(T1, T2, T3, T4, T5, T6), ()> for F
    where
        F: FnOnce(T1, T2, T3, T4, T5, T6) -> () + Send + Sync + Clone + 'static,
        T1: FromConnectParts + Send,
        T2: FromConnectParts + Send,
        T3: FromConnectParts + Send,
        T4: FromConnectParts + Send,
        T5: FromConnectParts + Send,
        T6: FromConnectParts + Send,
{
    open spec fn acceptance(s: Arc<Socket>, auth: Option<String>) -> Seq<bool> {
        seq![T1::accepts(s, auth), T2::accepts(s, auth), T3::accepts(s, auth), T4::accepts(s, auth), T5::accepts(s, auth), T6::accepts(s, auth)]
    }

    open spec fn is_async() -> bool {
        false
    }

    open spec fn callable() -> bool {
        forall|g: F, a1: T1, a2: T2, a3: T3, a4: T4, a5: T5, a6: T6| call_requires(g, (a1, a2, a3, a4, a5, a6))
    }

    open spec fn invoked_with(&self, s: Arc<Socket>, auth: Option<String>) -> bool {
        exists|g: F, a1: T1, a2: T2, a3: T3, a4: T4, a5: T5, a6: T6|
            {
                &&& T1::extracted(s, auth, a1)
                &&& T2::extracted(s, auth, a2)
                &&& T3::extracted(s, auth, a3)
                &&& T4::extracted(s, auth, a4)
                &&& T5::extracted(s, auth, a5)
                &&& T6::extracted(s, auth, a6)
                &&& call_ensures(g, (a1, a2, a3, a4, a5, a6), ())
            }
    }

    fn call(&self, s: Arc<Socket>, auth: Option<String>) -> (r: ConnectOutcome) {
        let a1 = match T1::from_connect_parts(&s, &auth) {
            Ok(v) => v,
            Err(_) => return ConnectOutcome::Aborted { at: 0 },
        };
        let a2 = match T2::from_connect_parts(&s, &auth) {
            Ok(v) => v,
            Err(_) => return ConnectOutcome::Aborted { at: 1 },
        };
        let a3 = match T3::from_connect_parts(&s, &auth) {
            Ok(v) => v,
            Err(_) => return ConnectOutcome::Aborted { at: 2 },
        };
        let a4 = match T4::from_connect_parts(&s, &auth) {
            Ok(v) => v,
            Err(_) => return ConnectOutcome::Aborted { at: 3 },
        };
        let a5 = match T5::from_connect_parts(&s, &auth) {
            Ok(v) => v,
            Err(_) => return ConnectOutcome::Aborted { at: 4 },
        };
        let a6 = match T6::from_connect_parts(&s, &auth) {
            Ok(v) => v,
            Err(_) => return ConnectOutcome::Aborted { at: 5 },
        };
        let ghost args = (a1, a2, a3, a4, a5, a6);
        let handler = self.clone();
        handler(a1, a2, a3, a4, a5, a6);
        assert(call_ensures(handler, args, ()));
        ConnectOutcome::Completed
    }
}

impl<F, T1, T2, T3, T4, T5, T6, T7> ConnectHandler<(T1, T2, T3, T4, T5, T6, T7), ()> for F
    where
        F: FnOnce(T1, T2, T3, T4, T5, T6, T7) -> () + Send + Sync + Clone + 'static,
        T1: FromConnectParts + Send,
        T2: FromConnectParts + Send,
        T3: FromConnectParts + Send,
        T4: FromConnectParts + Send,
        T5: FromConnectParts + Send,
        T6: FromConnectParts + Send,
        T7: FromConnectParts + Send,
{
    open spec fn acceptance(s: Arc<Socket>, auth: Option<String>) -> Seq<bool> {
        seq![T1::accepts(s, auth), T2::accepts(s, auth), T3::accepts(s, auth), T4::accepts(s, auth), T5::accepts(s, auth), T6::accepts(s, auth), T7::accepts(s, auth)]
    }

    open spec fn is_async() -> bool {
        false
    }

    open spec fn callable() -> bool {
        forall|g: F, a1: T1, a2: T2, a3: T3, a4: T4, a5: T5, a6: T6, a7: T7| call_requires(g, (a1, a2, a3, a4, a5, a6, a7))
    }

    open spec fn invoked_with(&self, s: Arc<Socket>, auth: Option<String>) -> bool {
        exists|g: F, a1: T1, a2: T2, a3: T3, a4: T4, a5: T5, a6: T6, a7: T7|
            {
                &&& T1::extracted(s, auth, a1)
                &&& T2::extracted(s, auth, a2)
                &&& T3::extracted(s, auth, a3)
                &&& T4::extracted(s, auth, a4)
                &&& T5::extracted(s, auth, a5)
                &&& T6::extracted(s, auth, a6)
                &&& T7::extracted(s, auth, a7)
                &&& call_ensures(g, (a1, a2, a3, a4, a5, a6, a7), ())
            }
    }

    fn call(&self, s: Arc<Socket>, auth: Option<String>) -> (r: ConnectOutcome) {
        let a1 = match T1::from_connect_parts(&s, &auth) {
            Ok(v) => v,
            Err(_) => return ConnectOutcome::Aborted { at: 0 },
        };
        let a2 = match T2::from_connect_parts(&s, &auth) {
            Ok(v) => v,
            Err(_) => return ConnectOutcome::Aborted { at: 1 },
        };
        let a3 = match T3::from_connect_parts(&s, &auth) {
            Ok(v) => v,
            Err(_) => return ConnectOutcome::Aborted { at: 2 },
        };
        let a4 = match T4::from_connect_parts(&s, &auth) {
            Ok(v) => v,
            Err(_) => return ConnectOutcome::Aborted { at: 3 },
        };
        let a5 = match T5::from_connect_parts(&s, &auth) {
            Ok(v) => v,
            Err(_) => return ConnectOutcome::Aborted { at: 4 },
        };
        let a6 = match T6::from_connect_parts(&s, &auth) {
            Ok(v) => v,
            Err(_) => return ConnectOutcome::Aborted { at: 5 },
        };
        let a7 = match T7::from_connect_parts(&s, &auth) {
            Ok(v) => v,
            Err(_) => return ConnectOutcome::Aborted { at: 6 },
        };
        let ghost args = (a1, a2, a3, a4, a5, a6, a7);
        let handler = self.clone();
        handler(a1, a2, a3, a4, a5, a6, a7);
        assert(call_ensures(handler, args, ()));
        ConnectOutcome::Completed
    }
}

impl<F, T1, T2, T3, T4, T5, T6, T7, T8> ConnectHandler<(T1, T2, T3, T4, T5, T6, T7, T8), ()> for F
    where
        F: FnOnce(T1, T2, T3, T4, T5, T6, T7, T8) -> () + Send + Sync + Clone + 'static,
        T1: FromConnectParts + Send,
        T2: FromConnectParts + Send,
        T3: FromConnectParts + Send,
        T4: FromConnectParts + Send,
        T5: FromConnectParts + Send,
        T6: FromConnectParts + Send,
        T7: FromConnectParts + Send,
        T8: FromConnectParts + Send,
{
    open spec fn acceptance(s: Arc<Socket>, auth: Option<String>) -> Seq<bool> {
        seq![T1::accepts(s, auth), T2::accepts(s, auth), T3::accepts(s, auth), T4::accepts(s, auth), T5::accepts(s, auth), T6::accepts(s, auth), T7::accepts(s, auth), T8::accepts(s, auth)]
    }

    open spec fn is_async() -> bool {
        false
    }

    open spec fn callable() -> bool {
        forall|g: F, a1: T1, a2: T2, a3: T3, a4: T4, a5: T5, a6: T6, a7: T7, a8: T8| call_requires(g, (a1, a2, a3, a4, a5, a6, a7, a8))
    }

    open spec fn invoked_with(&self, s: Arc<Socket>, auth: Option<String>) -> bool {
        exists|g: F, a1: T1, a2: T2, a3: T3, a4: T4, a5: T5, a6: T6, a7: T7, a8: T8|
            {
                &&& T1::extracted(s, auth, a1)
                &&& T2::extracted(s, auth, a2)
                &&& T3::extracted(s, auth, a3)
                &&& T4::extracted(s, auth, a4)
                &&& T5::extracted(s, auth, a5)
                &&& T6::extracted(s, auth, a6)
                &&& T7::extracted(s, auth, a7)
                &&& T8::extracted(s, auth, a8)
                &&& call_ensures(g, (a1, a2, a3, a4, a5, a6, a7, a8), ())
            }
    }

    fn call(&self, s: Arc<Socket>, auth: Option<String>) -> (r: ConnectOutcome) {
        let a1 = match T1::from_connect_parts(&s, &auth) {
            Ok(v) => v,
            Err(_) => return ConnectOutcome::Aborted { at: 0 },
        };
        let a2 = match T2::from_connect_parts(&s, &auth) {
            Ok(v) => v,
            Err(_) => return ConnectOutcome::Aborted { at: 1 },
        };
        let a3 = match T3::from_connect_parts(&s, &auth) {
            Ok(v) => v,
            Err(_) => return ConnectOutcome::Aborted { at: 2 },
        };
        let a4 = match T4::from_connect_parts(&s, &auth) {
            Ok(v) => v,
            Err(_) => return ConnectOutcome::Aborted { at: 3 },
        };
        let a5 = match T5::from_connect_parts(&s, &auth) {
            Ok(v) => v,
            Err(_) => return ConnectOutcome::Aborted { at: 4 },
        };
        let a6 = match T6::from_connect_parts(&s, &auth) {
            Ok(v) => v,
            Err(_) => return ConnectOutcome::Aborted { at: 5 },
        };
        let a7 = match T7::from_connect_parts(&s, &auth) {
            Ok(v) => v,
            Err(_) => return ConnectOutcome::Aborted { at: 6 },
        };
        let a8 = match T8::from_connect_parts(&s, &auth) {
            Ok(v) => v,
            Err(_) => return ConnectOutcome::Aborted { at: 7 },
        };
        let ghost args = (a1, a2, a3, a4, a5, a6, a7, a8);
        let handler = self.clone();
        handler(a1, a2, a3, a4, a5, a6, a7, a8);
        assert(call_ensures(handler, args, ()));
        ConnectOutcome::Completed
    }
}

impl<F, T1, T2, T3, T4, T5, T6, T7, T8, T9> ConnectHandler<(T1, T2, T3, T4, T5, T6, T7, T8, T9), ()> for F
    where
        F: FnOnce(T1, T2, T3, T4, T5, T6, T7, T8, T9) -> () + Send + Sync + Clone + 'static,
        T1: FromConnectParts + Send,
        T2: FromConnectParts + Send,
        T3: FromConnectParts + Send,
        T4: FromConnectParts + Send,
        T5: FromConnectParts + Send,
        T6: FromConnectParts + Send,
        T7: FromConnectParts + Send,
        T8: FromConnectParts + Send,
        T9: FromConnectParts + Send,
{
    open spec fn acceptance(s: Arc<Socket>, auth: Option<String>) -> Seq<bool> {
        seq![T1::accepts(s, auth), T2::accepts(s, auth), T3::accepts(s, auth), T4::accepts(s, auth), T5::accepts(s, auth), T6::accepts(s, auth), T7::accepts(s, auth), T8::accepts(s, auth), T9::accepts(s, auth)]
    }

    open spec fn is_async() -> bool {
        false
    }

    open spec fn callable() -> bool {
        forall|g: F, a1: T1, a2: T2, a3: T3, a4: T4, a5: T5, a6: T6, a7: T7, a8: T8, a9: T9| call_requires(g, (a1, a2, a3, a4, a5, a6, a7, a8, a9))
    }

    open spec fn invoked_with(&self, s: Arc<Socket>, auth: Option<String>) -> bool {
        exists|g: F, a1: T1, a2: T2, a3: T3, a4: T4, a5: T5, a6: T6, a7: T7, a8: T8, a9: T9|
            {
                &&& T1::extracted(s, auth, a1)
                &&& T2::extracted(s, auth, a2)
                &&& T3::extracted(s, auth, a3)
                &&& T4::extracted(s, auth, a4)
                &&& T5::extracted(s, auth, a5)
                &&& T6::extracted(s, auth, a6)
                &&& T7::extracted(s, auth, a7)
                &&& T8::extracted(s, auth, a8)
                &&& T9::extracted(s, auth, a9)
                &&& call_ensures(g, (a1, a2, a3, a4, a5, a6, a7, a8, a9), ())
            }
    }

    fn call(&self, s: Arc<Socket>, auth: Option<String>) -> (r: ConnectOutcome) {
        let a1 = match T1::from_connect_parts(&s, &auth) {
            Ok(v) => v,
            Err(_) => return ConnectOutcome::Aborted { at: 0 },
        };
        let a2 = match T2::from_connect_parts(&s, &auth) {
            Ok(v) => v,
            Err(_) => return ConnectOutcome::Aborted { at: 1 },
        };
        let a3 = match T3::from_connect_parts(&s, &auth) {
            Ok(v) => v,
            Err(_) => return ConnectOutcome::Aborted { at: 2 },
        };
        let a4 = match T4::from_connect_parts(&s, &auth) {
            Ok(v) => v,
            Err(_) => return ConnectOutcome::Aborted { at: 3 },
        };
        let a5 = match T5::from_connect_parts(&s, &auth) {
            Ok(v) => v,
            Err(_) => return ConnectOutcome::Aborted { at: 4 },
        };
        let a6 = match T6::from_connect_parts(&s, &auth) {
            Ok(v) => v,
            Err(_) => return ConnectOutcome::Aborted { at: 5 },
        };
        let a7 = match T7::from_connect_parts(&s, &auth) {
            Ok(v) => v,
            Err(_) => return ConnectOutcome::Aborted { at: 6 },
        };
        let a8 = match T8::from_connect_parts(&s, &auth) {
            Ok(v) => v,
            Err(_) => return ConnectOutcome::Aborted { at: 7 },
        };
        let a9 = match T9::from_connect_parts(&s, &auth) {
            Ok(v) => v,
            Err(_) => return ConnectOutcome::Aborted { at: 8 },
        };
        let ghost args = (a1, a2, a3, a4, a5, a6, a7, a8, a9);
        let handler = self.clone();
        handler(a1, a2, a3, a4, a5, a6, a7, a8, a9);
        assert(call_ensures(handler, args, ()));
        ConnectOutcome::Completed
    }
}

impl<F, T1, T2, T3, T4, T5, T6, T7, T8, T9, T10> ConnectHandler<(T1, T2, T3, T4, T5, T6, T7, T8, T9, T10), ()> for F
    where
        F: FnOnce(T1, T2, T3, T4, T5, T6, T7, T8, T9, T10) -> () + Send + Sync + Clone + 'static,
        T1: FromConnectParts + Send,
        T2: FromConnectParts + Send,
        T3: FromConnectParts + Send,
        T4: FromConnectParts + Send,
        T5: FromConnectParts + Send,
        T6: FromConnectParts + Send,
        T7: FromConnectParts + Send,
        T8: FromConnectParts + Send,
        T9: FromConnectParts + Send,
        T10: FromConnectParts + Send,
{
    open spec fn acceptance(s: Arc<Socket>, auth: Option<String>) -> Seq<bool> {
        seq![T1::accepts(s, auth), T2::accepts(s, auth), T3::accepts(s, auth), T4::accepts(s, auth), T5::accepts(s, auth), T6::accepts(s, auth), T7::accepts(s, auth), T8::accepts(s, auth), T9::accepts(s, auth), T10::accepts(s, auth)]
    }

    open spec fn is_async() -> bool {
        false
    }

    open spec fn callable() -> bool {
        forall|g: F, a1: T1, a2: T2, a3: T3, a4: T4, a5: T5, a6: T6, a7: T7, a8: T8, a9: T9, a10: T10| call_requires(g, (a1, a2, a3, a4, a5, a6, a7, a8, a9, a10))
    }

    open spec fn invoked_with(&self, s: Arc<Socket>, auth: Option<String>) -> bool {
        exists|g: F, a1: T1, a2: T2, a3: T3, a4: T4, a5: T5, a6: T6, a7: T7, a8: T8, a9: T9, a10: T10|
            {
                &&& T1::extracted(s, auth, a1)
                &&& T2::extracted(s, auth, a2)
                &&& T3::extracted(s, auth, a3)
                &&& T4::extracted(s, auth, a4)
                &&& T5::extracted(s, auth, a5)
                &&& T6::extracted(s, auth, a6)
                &&& T7::extracted(s, auth, a7)
                &&& T8::extracted(s, auth, a8)
                &&& T9::extracted(s, auth, a9)
                &&& T10::extracted(s, auth, a10)
                &&& call_ensures(g, (a1, a2, a3, a4, a5, a6, a7, a8, a9, a10), ())
            }
    }

    fn call(&self, s: Arc<Socket>, auth: Option<String>) -> (r: ConnectOutcome) {
        let a1 = match T1::from_connect_parts(&s, &auth) {
            Ok(v) => v,
            Err(_) => return ConnectOutcome::Aborted { at: 0 },
        };
        let a2 = match T2::from_connect_parts(&s, &auth) {
            Ok(v) => v,
            Err(_) => return ConnectOutcome::Aborted { at: 1 },
        };
        let a3 = match T3::from_connect_parts(&s, &auth) {
            Ok(v) => v,
            Err(_) => return ConnectOutcome::Aborted { at: 2 },
        };
        let a4 = match T4::from_connect_parts(&s, &auth) {
            Ok(v) => v,
            Err(_) => return ConnectOutcome::Aborted { at: 3 },
        };
        let a5 = match T5::from_connect_parts(&s, &auth) {
            Ok(v) => v,
            Err(_) => return ConnectOutcome::Aborted { at: 4 },
        };
        let a6 = match T6::from_connect_parts(&s, &auth) {
            Ok(v) => v,
            Err(_) => return ConnectOutcome::Aborted { at: 5 },
        };
        let a7 = match T7::from_connect_parts(&s, &auth) {
            Ok(v) => v,
            Err(_) => return ConnectOutcome::Aborted { at: 6 },
        };
        let a8 = match T8::from_connect_parts(&s, &auth) {
            Ok(v) => v,
            Err(_) => return ConnectOutcome::Aborted { at: 7 },
        };
        let a9 = match T9::from_connect_parts(&s, &auth) {
            Ok(v) => v,
            Err(_) => return ConnectOutcome::Aborted { at: 8 },
        };
        let a10 = match T10::from_connect_parts(&s, &auth) {
            Ok(v) => v,
            Err(_) => return ConnectOutcome::Aborted { at: 9 },
        };
        let ghost args = (a1, a2, a3, a4, a5, a6, a7, a8, a9, a10);
        let handler = self.clone();
        handler(a1, a2, a3, a4, a5, a6, a7, a8, a9, a10);
        assert(call_ensures(handler, args, ()));
        ConnectOutcome::Completed
    }
}

impl<F, T1, T2, T3, T4, T5, T6, T7, T8, T9, T10, T11> ConnectHandler<(T1, T2, T3, T4, T5, T6, T7, T8, T9, T10, T11), ()> for F
    where
        F: FnOnce(T1, T2, T3, T4, T5, T6, T7, T8, T9, T10, T11) -> () + Send + Sync + Clone + 'static,
        T1: FromConnectParts + Send,
        T2: FromConnectParts + Send,
        T3: FromConnectParts + Send,
        T4: FromConnectParts + Send,
        T5: FromConnectParts + Send,
        T6: FromConnectParts + Send,
        T7: FromConnectParts + Send,
        T8: FromConnectParts + Send,
        T9: FromConnectParts + Send,
        T10: FromConnectParts + Send,
        T11: FromConnectParts + Send,
{
    open spec fn acceptance(s: Arc<Socket>, auth: Option<String>) -> Seq<bool> {
        seq![T1::accepts(s, auth), T2::accepts(s, auth), T3::accepts(s, auth), T4::accepts(s, auth), T5::accepts(s, auth), T6::accepts(s, auth), T7::accepts(s, auth), T8::accepts(s, auth), T9::accepts(s, auth), T10::accepts(s, auth), T11::accepts(s, auth)]
    }

    open spec fn is_async() -> bool {
        false
    }

    open spec fn callable() -> bool {
        forall|g: F, a1: T1, a2: T2, a3: T3, a4: T4, a5: T5, a6: T6, a7: T7, a8: T8, a9: T9, a10: T10, a11: T11| call_requires(g, (a1, a2, a3, a4, a5, a6, a7, a8, a9, a10, a11))
    }

    open spec fn invoked_with(&self, s: Arc<Socket>, auth: Option<String>) -> bool {
        exists|g: F, a1: T1, a2: T2, a3: T3, a4: T4, a5: T5, a6: T6, a7: T7, a8: T8, a9: T9, a10: T10, a11: T11|
            {
                &&& T1::extracted(s, auth, a1)
                &&& T2::extracted(s, auth, a2)
                &&& T3::extracted(s, auth, a3)
                &&& T4::extracted(s, auth, a4)
                &&& T5::extracted(s, auth, a5)
                &&& T6::extracted(s, auth, a6)
                &&& T7::extracted(s, auth, a7)
                &&& T8::extracted(s, auth, a8)
                &&& T9::extracted(s, auth, a9)
                &&& T10::extracted(s, auth, a10)
                &&& T11::extracted(s, auth, a11)
                &&& call_ensures(g, (a1, a2, a3, a4, a5, a6, a7, a8, a9, a10, a11), ())
            }
    }

    fn call(&self, s: Arc<Socket>, auth: Option<String>) -> (r: ConnectOutcome) {
        let a1 = match T1::from_connect_parts(&s, &auth) {
            Ok(v) => v,
            Err(_) => return ConnectOutcome::Aborted { at: 0 },
        };
        let a2 = match T2::from_connect_parts(&s, &auth) {
            Ok(v) => v,
            Err(_) => return ConnectOutcome::Aborted { at: 1 },
        };
        let a3 = match T3::from_connect_parts(&s, &auth) {
            Ok(v) => v,
            Err(_) => return ConnectOutcome::Aborted { at: 2 },
        };
        let a4 = match T4::from_connect_parts(&s, &auth) {
            Ok(v) => v,
            Err(_) => return ConnectOutcome::Aborted { at: 3 },
        };
        let a5 = match T5::from_connect_parts(&s, &auth) {
            Ok(v) => v,
            Err(_) => return ConnectOutcome::Aborted { at: 4 },
        };
        let a6 = match T6::from_connect_parts(&s, &auth) {
            Ok(v) => v,
            Err(_) => return ConnectOutcome::Aborted { at: 5 },
        };
        let a7 = match T7::from_connect_parts(&s, &auth) {
            Ok(v) => v,
            Err(_) => return ConnectOutcome::Aborted { at: 6 },
        };
        let a8 = match T8::from_connect_parts(&s, &auth) {
            Ok(v) => v,
            Err(_) => return ConnectOutcome::Aborted { at: 7 },
        };
        let a9 = match T9::from_connect_parts(&s, &auth) {
            Ok(v) => v,
            Err(_) => return ConnectOutcome::Aborted { at: 8 },
        };
        let a10 = match T10::from_connect_parts(&s, &auth) {
            Ok(v) => v,
            Err(_) => return ConnectOutcome::Aborted { at: 9 },
        };
        let a11 = match T11::from_connect_parts(&s, &auth) {
            Ok(v) => v,
            Err(_) => return ConnectOutcome::Aborted { at: 10 },
        };
        let ghost args = (a1, a2, a3, a4, a5, a6, a7, a8, a9, a10, a11);
        let handler = self.clone();
        handler(a1, a2, a3, a4, a5, a6, a7, a8, a9, a10, a11);
        assert(call_ensures(handler, args, ()));
        ConnectOutcome::Completed
    }
}

impl<F, T1, T2, T3, T4, T5, T6, T7, T8, T9, T10, T11, T12> ConnectHandler<(T1, T2, T3, T4, T5, T6, T7, T8, T9, T10, T11, T12), ()> for F
    where
        F: FnOnce(T1, T2, T3, T4, T5, T6, T7, T8, T9, T10, T11, T12) -> () + Send + Sync + Clone + 'static,
        T1: FromConnectParts + Send,
        T2: FromConnectParts + Send,
        T3: FromConnectParts + Send,
        T4: FromConnectParts + Send,
        T5: FromConnectParts + Send,
        T6: FromConnectParts + Send,
        T7: FromConnectParts + Send,
        T8: FromConnectParts + Send,
        T9: FromConnectParts + Send,
        T10: FromConnectParts + Send,
        T11: FromConnectParts + Send,
        T12: FromConnectParts + Send,
{
    open spec fn acceptance(s: Arc<Socket>, auth: Option<String>) -> Seq<bool> {
        seq![T1::accepts(s, auth), T2::accepts(s, auth), T3::accepts(s, auth), T4::accepts(s, auth), T5::accepts(s, auth), T6::accepts(s, auth), T7::accepts(s, auth), T8::accepts(s, auth), T9::accepts(s, auth), T10::accepts(s, auth), T11::accepts(s, auth), T12::accepts(s, auth)]
    }

    open spec fn is_async() -> bool {
        false
    }

    open spec fn callable() -> bool {
        forall|g: F, a1: T1, a2: T2, a3: T3, a4: T4, a5: T5, a6: T6, a7: T7, a8: T8, a9: T9, a10: T10, a11: T11, a12: T12| call_requires(g, (a1, a2, a3, a4, a5, a6, a7, a8, a9, a10, a11, a12))
    }

    open spec fn invoked_with(&self, s: Arc<Socket>, auth: Option<String>) -> bool {
        exists|g: F, a1: T1, a2: T2, a3: T3, a4: T4, a5: T5, a6: T6, a7: T7, a8: T8, a9: T9, a10: T10, a11: T11, a12: T12|
            {
                &&& T1::extracted(s, auth, a1)
                &&& T2::extracted(s, auth, a2)
                &&& T3::extracted(s, auth, a3)
                &&& T4::extracted(s, auth, a4)
                &&& T5::extracted(s, auth, a5)
                &&& T6::extracted(s, auth, a6)
                &&& T7::extracted(s, auth, a7)
                &&& T8::extracted(s, auth, a8)
                &&& T9::extracted(s, auth, a9)
                &&& T10::extracted(s, auth, a10)
                &&& T11::extracted(s, auth, a11)
                &&& T12::extracted(s, auth, a12)
                &&& call_ensures(g, (a1, a2, a3, a4, a5, a6, a7, a8, a9, a10, a11, a12), ())
            }
    }

    fn call(&self, s: Arc<Socket>, auth: Option<String>) -> (r: ConnectOutcome) {
        let a1 = match T1::from_connect_parts(&s, &auth) {
            Ok(v) => v,
            Err(_) => return ConnectOutcome::Aborted { at: 0 },
        };
        let a2 = match T2::from_connect_parts(&s, &auth) {
            Ok(v) => v,
            Err(_) => return ConnectOutcome::Aborted { at: 1 },
        };
        let a3 = match T3::from_connect_parts(&s, &auth) {
            Ok(v) => v,
            Err(_) => return ConnectOutcome::Aborted { at: 2 },
        };
        let a4 = match T4::from_connect_parts(&s, &auth) {
            Ok(v) => v,
            Err(_) => return ConnectOutcome::Aborted { at: 3 },
        };
        let a5 = match T5::from_connect_parts(&s, &auth) {
            Ok(v) => v,
            Err(_) => return ConnectOutcome::Aborted { at: 4 },
        };
        let a6 = match T6::from_connect_parts(&s, &auth) {
            Ok(v) => v,
            Err(_) => return ConnectOutcome::Aborted { at: 5 },
        };
        let a7 = match T7::from_connect_parts(&s, &auth) {
            Ok(v) => v,
            Err(_) => return ConnectOutcome::Aborted { at: 6 },
        };
        let a8 = match T8::from_connect_parts(&s, &auth) {
            Ok(v) => v,
            Err(_) => return ConnectOutcome::Aborted { at: 7 },
        };
        let a9 = match T9::from_connect_parts(&s, &auth) {
            Ok(v) => v,
            Err(_) => return ConnectOutcome::Aborted { at: 8 },
        };
        let a10 = match T10::from_connect_parts(&s, &auth) {
            Ok(v) => v,
            Err(_) => return ConnectOutcome::Aborted { at: 9 },
        };
        let a11 = match T11::from_connect_parts(&s, &auth) {
            Ok(v) => v,
            Err(_) => return ConnectOutcome::Aborted { at: 10 },
        };
        let a12 = match T12::from_connect_parts(&s, &auth) {
            Ok(v) => v,
            Err(_) => return ConnectOutcome::Aborted { at: 11 },
        };
        let ghost args = (a1, a2, a3, a4, a5, a6, a7, a8, a9, a10, a11, a12);
        let handler = self.clone();
        handler(a1, a2, a3, a4, a5, a6, a7, a8, a9, a10, a11, a12);
        assert(call_ensures(handler, args, ()));
        ConnectOutcome::Completed
    }
}

impl<F, T1, T2, T3, T4, T5, T6, T7, T8, T9, T10, T11, T12, T13> ConnectHandler<(T1, T2, T3, T4, T5, T6, T7, T8, T9, T10, T11, T12, T13), ()> for F
    where
        F: FnOnce(T1, T2, T3, T4, T5, T6, T7, T8, T9, T10, T11, T12, T13) -> () + Send + Sync + Clone + 'static,
        T1: FromConnectParts + Send,
        T2: FromConnectParts + Send,
        T3: FromConnectParts + Send,
        T4: FromConnectParts + Send,
        T5: FromConnectParts + Send,
        T6: FromConnectParts + Send,
        T7: FromConnectParts + Send,
        T8: FromConnectParts + Send,
        T9: FromConnectParts + Send,
        T10: FromConnectParts + Send,
        T11: FromConnectParts + Send,
        T12: FromConnectParts + Send,
        T13: FromConnectParts + Send,
{
    open spec fn acceptance(s: Arc<Socket>, auth: Option<String>) -> Seq<bool> {
        seq![T1::accepts(s, auth), T2::accepts(s, auth), T3::accepts(s, auth), T4::accepts(s, auth), T5::accepts(s, auth), T6::accepts(s, auth), T7::accepts(s, auth), T8::accepts(s, auth), T9::accepts(s, auth), T10::accepts(s, auth), T11::accepts(s, auth), T12::accepts(s, auth), T13::accepts(s, auth)]
    }

    open spec fn is_async() -> bool {
        false
    }

    open spec fn callable() -> bool {
        forall|g: F, a1: T1, a2: T2, a3: T3, a4: T4, a5: T5, a6: T6, a7: T7, a8: T8, a9: T9, a10: T10, a11: T11, a12: T12, a13: T13| call_requires(g, (a1, a2, a3, a4, a5, a6, a7, a8, a9, a10, a11, a12, a13))
    }

    open spec fn invoked_with(&self, s: Arc<Socket>, auth: Option<String>) -> bool {
        exists|g: F, a1: T1, a2: T2, a3: T3, a4: T4, a5: T5, a6: T6, a7: T7, a8: T8, a9: T9, a10: T10, a11: T11, a12: T12, a13: T13|
            {
                &&& T1::extracted(s, auth, a1)
                &&& T2::extracted(s, auth, a2)
                &&& T3::extracted(s, auth, a3)
                &&& T4::extracted(s, auth, a4)
                &&& T5::extracted(s, auth, a5)
                &&& T6::extracted(s, auth, a6)
                &&& T7::extracted(s, auth, a7)
                &&& T8::extracted(s, auth, a8)
                &&& T9::extracted(s, auth, a9)
                &&& T10::extracted(s, auth, a10)
                &&& T11::extracted(s, auth, a11)
                &&& T12::extracted(s, auth, a12)
                &&& T13::extracted(s, auth, a13)
                &&& call_ensures(g, (a1, a2, a3, a4, a5, a6, a7, a8, a9, a10, a11, a12, a13), ())
            }
    }

    fn call(&self, s: Arc<Socket>, auth: Option<String>) -> (r: ConnectOutcome) {
        let a1 = match T1::from_connect_parts(&s, &auth) {
            Ok(v) => v,
            Err(_) => return ConnectOutcome::Aborted { at: 0 },
        };
        let a2 = match T2::from_connect_parts(&s, &auth) {
            Ok(v) => v,
            Err(_) => return ConnectOutcome::Aborted { at: 1 },
        };
        let a3 = match T3::from_connect_parts(&s, &auth) {
            Ok(v) => v,
            Err(_) => return ConnectOutcome::Aborted { at: 2 },
        };
        let a4 = match T4::from_connect_parts(&s, &auth) {
            Ok(v) => v,
            Err(_) => return ConnectOutcome::Aborted { at: 3 },
        };
        let a5 = match T5::from_connect_parts(&s, &auth) {
            Ok(v) => v,
            Err(_) => return ConnectOutcome::Aborted { at: 4 },
        };
        let a6 = match T6::from_connect_parts(&s, &auth) {
            Ok(v) => v,
            Err(_) => return ConnectOutcome::Aborted { at: 5 },
        };
        let a7 = match T7::from_connect_parts(&s, &auth) {
            Ok(v) => v,
            Err(_) => return ConnectOutcome::Aborted { at: 6 },
        };
        let a8 = match T8::from_connect_parts(&s, &auth) {
            Ok(v) => v,
            Err(_) => return ConnectOutcome::Aborted { at: 7 },
        };
        let a9 = match T9::from_connect_parts(&s, &auth) {
            Ok(v) => v,
            Err(_) => return ConnectOutcome::Aborted { at: 8 },
        };
        let a10 = match T10::from_connect_parts(&s, &auth) {
            Ok(v) => v,
            Err(_) => return ConnectOutcome::Aborted { at: 9 },
        };
        let a11 = match T11::from_connect_parts(&s, &auth) {
            Ok(v) => v,
            Err(_) => return ConnectOutcome::Aborted { at: 10 },
        };
        let a12 = match T12::from_connect_parts(&s, &auth) {
            Ok(v) => v,
            Err(_) => return ConnectOutcome::Aborted { at: 11 },
        };
        let a13 = match T13::from_connect_parts(&s, &auth) {
            Ok(v) => v,
            Err(_) => return ConnectOutcome::Aborted { at: 12 },
        };
        let ghost args = (a1, a2, a3, a4, a5, a6, a7, a8, a9, a10, a11, a12, a13);
        let handler = self.clone();
        handler(a1, a2, a3, a4, a5, a6, a7, a8, a9, a10, a11, a12, a13);
        assert(call_ensures(handler, args, ()));
        ConnectOutcome::Completed
    }
}

impl<F, T1, T2, T3, T4, T5, T6, T7, T8, T9, T10, T11, T12, T13, T14> ConnectHandler<(T1, T2, T3, T4, T5, T6, T7, T8, T9, T10, T11, T12, T13, T14), ()> for F
    where
        F: FnOnce(T1, T2, T3, T4, T5, T6, T7, T8, T9, T10, T11, T12, T13, T14) -> () + Send + Sync + Clone + 'static,
        T1: FromConnectParts + Send,
        T2: FromConnectParts + Send,
        T3: FromConnectParts + Send,
        T4: FromConnectParts + Send,
        T5: FromConnectParts + Send,
        T6: FromConnectParts + Send,
        T7: FromConnectParts + Send,
        T8: FromConnectParts + Send,
        T9: FromConnectParts + Send,
        T10: FromConnectParts + Send,
        T11: FromConnectParts + Send,
        T12: FromConnectParts + Send,
        T13: FromConnectParts + Send,
        T14: FromConnectParts + Send,
{
    open spec fn acceptance(s: Arc<Socket>, auth: Option<String>) -> Seq<bool> {
        seq![T1::accepts(s, auth), T2::accepts(s, auth), T3::accepts(s, auth), T4::accepts(s, auth), T5::accepts(s, auth), T6::accepts(s, auth), T7::accepts(s, auth), T8::accepts(s, auth), T9::accepts(s, auth), T10::accepts(s, auth), T11::accepts(s, auth), T12::accepts(s, auth), T13::accepts(s, auth), T14::accepts(s, auth)]
    }

    open spec fn is_async() -> bool {
        false
    }

    open spec fn callable() -> bool {
        forall|g: F, a1: T1, a2: T2, a3: T3, a4: T4, a5: T5, a6: T6, a7: T7, a8: T8, a9: T9, a10: T10, a11: T11, a12: T12, a13: T13, a14: T14| call_requires(g, (a1, a2, a3, a4, a5, a6, a7, a8, a9, a10, a11, a12, a13, a14))
    }

    open spec fn invoked_with(&self, s: Arc<Socket>, auth: Option<String>) -> bool {
        exists|g: F, a1: T1, a2: T2, a3: T3, a4: T4, a5: T5, a6: T6, a7: T7, a8: T8, a9: T9, a10: T10, a11: T11, a12: T12, a13: T13, a14: T14|
            {
                &&& T1::extracted(s, auth, a1)
                &&& T2::extracted(s, auth, a2)
                &&& T3::extracted(s, auth, a3)
                &&& T4::extracted(s, auth, a4)
                &&& T5::extracted(s, auth, a5)
                &&& T6::extracted(s, auth, a6)
                &&& T7::extracted(s, auth, a7)
                &&& T8::extracted(s, auth, a8)
                &&& T9::extracted(s, auth, a9)
                &&& T10::extracted(s, auth, a10)
                &&& T11::extracted(s, auth, a11)
                &&& T12::extracted(s, auth, a12)
                &&& T13::extracted(s, auth, a13)
                &&& T14::extracted(s, auth, a14)
                &&& call_ensures(g, (a1, a2, a3, a4, a5, a6, a7, a8, a9, a10, a11, a12, a13, a14), ())
            }
    }

    fn call(&self, s: Arc<Socket>, auth: Option<String>) -> (r: ConnectOutcome) {
        let a1 = match T1::from_connect_parts(&s, &auth) {
            Ok(v) => v,
            Err(_) => return ConnectOutcome::Aborted { at: 0 },
        };
        let a2 = match T2::from_connect_parts(&s, &auth) {
            Ok(v) => v,
            Err(_) => return ConnectOutcome::Aborted { at: 1 },
        };
        let a3 = match T3::from_connect_parts(&s, &auth) {
            Ok(v) => v,
            Err(_) => return ConnectOutcome::Aborted { at: 2 },
        };
        let a4 = match T4::from_connect_parts(&s, &auth) {
            Ok(v) => v,
            Err(_) => return ConnectOutcome::Aborted { at: 3 },
        };
        let a5 = match T5::from_connect_parts(&s, &auth) {
            Ok(v) => v,
            Err(_) => return ConnectOutcome::Aborted { at: 4 },
        };
        let a6 = match T6::from_connect_parts(&s, &auth) {
            Ok(v) => v,
            Err(_) => return ConnectOutcome::Aborted { at: 5 },
        };
        let a7 = match T7::from_connect_parts(&s, &auth) {
            Ok(v) => v,
            Err(_) => return ConnectOutcome::Aborted { at: 6 },
        };
        let a8 = match T8::from_connect_parts(&s, &auth) {
            Ok(v) => v,
            Err(_) => return ConnectOutcome::Aborted { at: 7 },
        };
        let a9 = match T9::from_connect_parts(&s, &auth) {
            Ok(v) => v,
            Err(_) => return ConnectOutcome::Aborted { at: 8 },
        };
        let a10 = match T10::from_connect_parts(&s, &auth) {
            Ok(v) => v,
            Err(_) => return ConnectOutcome::Aborted { at: 9 },
        };
        let a11 = match T11::from_connect_parts(&s, &auth) {
            Ok(v) => v,
            Err(_) => return ConnectOutcome::Aborted { at: 10 },
        };
        let a12 = match T12::from_connect_parts(&s, &auth) {
            Ok(v) => v,
            Err(_) => return ConnectOutcome::Aborted { at: 11 },
        };
        let a13 = match T13::from_connect_parts(&s, &auth) {
            Ok(v) => v,
            Err(_) => return ConnectOutcome::Aborted { at: 12 },
        };
        let a14 = match T14::from_connect_parts(&s, &auth) {
            Ok(v) => v,
            Err(_) => return ConnectOutcome::Aborted { at: 13 },
        };
        let ghost args = (a1, a2, a3, a4, a5, a6, a7, a8, a9, a10, a11, a12, a13, a14);
        let handler = self.clone();
        handler(a1, a2, a3, a4, a5, a6, a7, a8, a9, a10, a11, a12, a13, a14);
        assert(call_ensures(handler, args, ()));
        ConnectOutcome::Completed
    }
}

impl<F, T1, T2, T3, T4, T5, T6, T7, T8, T9, T10, T11, T12, T13, T14, T15> ConnectHandler<(T1, T2, T3, T4, T5, T6, T7, T8, T9, T10, T11, T12, T13, T14, T15), ()> for F
    where
        F: FnOnce(T1, T2, T3, T4, T5, T6, T7, T8, T9, T10, T11, T12, T13, T14, T15) -> () + Send + Sync + Clone + 'static,
        T1: FromConnectParts + Send,
        T2: FromConnectParts + Send,
        T3: FromConnectParts + Send,
        T4: FromConnectParts + Send,
        T5: FromConnectParts + Send,
        T6: FromConnectParts + Send,
        T7: FromConnectParts + Send,
        T8: FromConnectParts + Send,
        T9: FromConnectParts + Send,
        T10: FromConnectParts + Send,
        T11: FromConnectParts + Send,
        T12: FromConnectParts + Send,
        T13: FromConnectParts + Send,
        T14: FromConnectParts + Send,
        T15: FromConnectParts + Send,
{
    open spec fn acceptance(s: Arc<Socket>, auth: Option<String>) -> Seq<bool> {
        seq![T1::accepts(s, auth), T2::accepts(s, auth), T3::accepts(s, auth), T4::accepts(s, auth), T5::accepts(s, auth), T6::accepts(s, auth), T7::accepts(s, auth), T8::accepts(s, auth), T9::accepts(s, auth), T10::accepts(s, auth), T11::accepts(s, auth), T12::accepts(s, auth), T13::accepts(s, auth), T14::accepts(s, auth), T15::accepts(s, auth)]
    }

    open spec fn is_async() -> bool {
        false
    }

    open spec fn callable() -> bool {
        forall|g: F, a1: T1, a2: T2, a3: T3, a4: T4, a5: T5, a6: T6, a7: T7, a8: T8, a9: T9, a10: T10, a11: T11, a12: T12, a13: T13, a14: T14, a15: T15| call_requires(g, (a1, a2, a3, a4, a5, a6, a7, a8, a9, a10, a11, a12, a13, a14, a15))
    }

    open spec fn invoked_with(&self, s: Arc<Socket>, auth: Option<String>) -> bool {
        exists|g: F, a1: T1, a2: T2, a3: T3, a4: T4, a5: T5, a6: T6, a7: T7, a8: T8, a9: T9, a10: T10, a11: T11, a12: T12, a13: T13, a14: T14, a15: T15|
            {
                &&& T1::extracted(s, auth, a1)
                &&& T2::extracted(s, auth, a2)
                &&& T3::extracted(s, auth, a3)
                &&& T4::extracted(s, auth, a4)
                &&& T5::extracted(s, auth, a5)
                &&& T6::extracted(s, auth, a6)
                &&& T7::extracted(s, auth, a7)
                &&& T8::extracted(s, auth, a8)
                &&& T9::extracted(s, auth, a9)
                &&& T10::extracted(s, auth, a10)
                &&& T11::extracted(s, auth, a11)
                &&& T12::extracted(s, auth, a12)
                &&& T13::extracted(s, auth, a13)
                &&& T14::extracted(s, auth, a14)
                &&& T15::extracted(s, auth, a15)
                &&& call_ensures(g, (a1, a2, a3, a4, a5, a6, a7, a8, a9, a10, a11, a12, a13, a14, a15), ())
            }
    }

    fn call(&self, s: Arc<Socket>, auth: Option<String>) -> (r: ConnectOutcome) {
        let a1 = match T1::from_connect_parts(&s, &auth) {
            Ok(v) => v,
            Err(_) => return ConnectOutcome::Aborted { at: 0 },
        };
        let a2 = match T2::from_connect_parts(&s, &auth) {
            Ok(v) => v,
            Err(_) => return ConnectOutcome::Aborted { at: 1 },
        };
        let a3 = match T3::from_connect_parts(&s, &auth) {
            Ok(v) => v,
            Err(_) => return ConnectOutcome::Aborted { at: 2 },
        };
        let a4 = match T4::from_connect_parts(&s, &auth) {
            Ok(v) => v,
            Err(_) => return ConnectOutcome::Aborted { at: 3 },
        };
        let a5 = match T5::from_connect_parts(&s, &auth) {
            Ok(v) => v,
            Err(_) => return ConnectOutcome::Aborted { at: 4 },
        };
        let a6 = match T6::from_connect_parts(&s, &auth) {
            Ok(v) => v,
            Err(_) => return ConnectOutcome::Aborted { at: 5 },
        };
        let a7 = match T7::from_connect_parts(&s, &auth) {
            Ok(v) => v,
            Err(_) => return ConnectOutcome::Aborted { at: 6 },
        };
        let a8 = match T8::from_connect_parts(&s, &auth) {
            Ok(v) => v,
            Err(_) => return ConnectOutcome::Aborted { at: 7 },
        };
        let a9 = match T9::from_connect_parts(&s, &auth) {
            Ok(v) => v,
            Err(_) => return ConnectOutcome::Aborted { at: 8 },
        };
        let a10 = match T10::from_connect_parts(&s, &auth) {
            Ok(v) => v,
            Err(_) => return ConnectOutcome::Aborted { at: 9 },
        };
        let a11 = match T11::from_connect_parts(&s, &auth) {
            Ok(v) => v,
            Err(_) => return ConnectOutcome::Aborted { at: 10 },
        };
        let a12 = match T12::from_connect_parts(&s, &auth) {
            Ok(v) => v,
            Err(_) => return ConnectOutcome::Aborted { at: 11 },
        };
        let a13 = match T13::from_connect_parts(&s, &auth) {
            Ok(v) => v,
            Err(_) => return ConnectOutcome::Aborted { at: 12 },
        };
        let a14 = match T14::from_connect_parts(&s, &auth) {
            Ok(v) => v,
            Err(_) => return ConnectOutcome::Aborted { at: 13 },
        };
        let a15 = match T15::from_connect_parts(&s, &auth) {
            Ok(v) => v,
            Err(_) => return ConnectOutcome::Aborted { at: 14 },
        };
        let ghost args = (a1, a2, a3, a4, a5, a6, a7, a8, a9, a10, a11, a12, a13, a14, a15);
        let handler = self.clone();
        handler(a1, a2, a3, a4, a5, a6, a7, a8, a9, a10, a11, a12, a13, a14, a15);
        assert(call_ensures(handler, args, ()));
        ConnectOutcome::Completed
    }
}

impl<F, T1, T2, T3, T4, T5, T6, T7, T8, T9, T10, T11, T12, T13, T14, T15, T16> ConnectHandler<(T1, T2, T3, T4, T5, T6, T7, T8, T9, T10, T11, T12, T13, T14, T15, T16), ()> for F
    where
        F: FnOnce(T1, T2, T3, T4, T5, T6, T7, T8, T9, T10, T11, T12, T13, T14, T15, T16) -> () + Send + Sync + Clone + 'static,
        T1: FromConnectParts + Send,
        T2: FromConnectParts + Send,
        T3: FromConnectParts + Send,
        T4: FromConnectParts + Send,
        T5: FromConnectParts + Send,
        T6: FromConnectParts + Send,
        T7: FromConnectParts + Send,
        T8: FromConnectParts + Send,
        T9: FromConnectParts + Send,
        T10: FromConnectParts + Send,
        T11: FromConnectParts + Send,
        T12: FromConnectParts + Send,
        T13: FromConnectParts + Send,
        T14: FromConnectParts + Send,
        T15: FromConnectParts + Send,
        T16: FromConnectParts + Send,
{
    open spec fn acceptance(s: Arc<Socket>, auth: Option<String>) -> Seq<bool> {
        seq![T1::accepts(s, auth), T2::accepts(s, auth), T3::accepts(s, auth), T4::accepts(s, auth), T5::accepts(s, auth), T6::accepts(s, auth), T7::accepts(s, auth), T8::accepts(s, auth), T9::accepts(s, auth), T10::accepts(s, auth), T11::accepts(s, auth), T12::accepts(s, auth), T13::accepts(s, auth), T14::accepts(s, auth), T15::accepts(s, auth), T16::accepts(s, auth)]
    }

    open spec fn is_async() -> bool {
        false
    }

    open spec fn callable() -> bool {
        forall|g: F, a1: T1, a2: T2, a3: T3, a4: T4, a5: T5, a6: T6, a7: T7, a8: T8, a9: T9, a10: T10, a11: T11, a12: T12, a13: T13, a14: T14, a15: T15, a16: T16| call_requires(g, (a1, a2, a3, a4, a5, a6, a7, a8, a9, a10, a11, a12, a13, a14, a15, a16))
    }

    open spec fn invoked_with(&self, s: Arc<Socket>, auth: Option<String>) -> bool {
        exists|g: F, a1: T1, a2: T2, a3: T3, a4: T4, a5: T5, a6: T6, a7: T7, a8: T8, a9: T9, a10: T10, a11: T11, a12: T12, a13: T13, a14: T14, a15: T15, a16: T16|
            {
                &&& T1::extracted(s, auth, a1)
                &&& T2::extracted(s, auth, a2)
                &&& T3::extracted(s, auth, a3)
                &&& T4::extracted(s, auth, a4)
                &&& T5::extracted(s, auth, a5)
                &&& T6::extracted(s, auth, a6)
                &&& T7::extracted(s, auth, a7)
                &&& T8::extracted(s, auth, a8)
                &&& T9::extracted(s, auth, a9)
                &&& T10::extracted(s, auth, a10)
                &&& T11::extracted(s, auth, a11)
                &&& T12::extracted(s, auth, a12)
                &&& T13::extracted(s, auth, a13)
                &&& T14::extracted(s, auth, a14)
                &&& T15::extracted(s, auth, a15)
                &&& T16::extracted(s, auth, a16)
                &&& call_ensures(g, (a1, a2, a3, a4, a5, a6, a7, a8, a9, a10, a11, a12, a13, a14, a15, a16), ())
            }
    }

    fn call(&self, s: Arc<Socket>, auth: Option<String>) -> (r: ConnectOutcome) {
        let a1 = match T1::from_connect_parts(&s, &auth) {
            Ok(v) => v,
            Err(_) => return ConnectOutcome::Aborted { at: 0 },
        };
        let a2 = match T2::from_connect_parts(&s, &auth) {
            Ok(v) => v,
            Err(_) => return ConnectOutcome::Aborted { at: 1 },
        };
        let a3 = match T3::from_connect_parts(&s, &auth) {
            Ok(v) => v,
            Err(_) => return ConnectOutcome::Aborted { at: 2 },
        };
        let a4 = match T4::from_connect_parts(&s, &auth) {
            Ok(v) => v,
            Err(_) => return ConnectOutcome::Aborted { at: 3 },
        };
        let a5 = match T5::from_connect_parts(&s, &auth) {
            Ok(v) => v,
            Err(_) => return ConnectOutcome::Aborted { at: 4 },
        };
        let a6 = match T6::from_connect_parts(&s, &auth) {
            Ok(v) => v,
            Err(_) => return ConnectOutcome::Aborted { at: 5 },
        };
        let a7 = match T7::from_connect_parts(&s, &auth) {
            Ok(v) => v,
            Err(_) => return ConnectOutcome::Aborted { at: 6 },
        };
        let a8 = match T8::from_connect_parts(&s, &auth) {
            Ok(v) => v,
            Err(_) => return ConnectOutcome::Aborted { at: 7 },
        };
        let a9 = match T9::from_connect_parts(&s, &auth) {
            Ok(v) => v,
            Err(_) => return ConnectOutcome::Aborted { at: 8 },
        };
        let a10 = match T10::from_connect_parts(&s, &auth) {
            Ok(v) => v,
            Err(_) => return ConnectOutcome::Aborted { at: 9 },
        };
        let a11 = match T11::from_connect_parts(&s, &auth) {
            Ok(v) => v,
            Err(_) => return ConnectOutcome::Aborted { at: 10 },
        };
        let a12 = match T12::from_connect_parts(&s, &auth) {
            Ok(v) => v,
            Err(_) => return ConnectOutcome::Aborted { at: 11 },
        };
        let a13 = match T13::from_connect_parts(&s, &auth) {
            Ok(v) => v,
            Err(_) => return ConnectOutcome::Aborted { at: 12 },
        };
        let a14 = match T14::from_connect_parts(&s, &auth) {
            Ok(v) => v,
            Err(_) => return ConnectOutcome::Aborted { at: 13 },
        };
        let a15 = match T15::from_connect_parts(&s, &auth) {
            Ok(v) => v,
            Err(_) => return ConnectOutcome::Aborted { at: 14 },
        };
        let a16 = match T16::from_connect_parts(&s, &auth) {
            Ok(v) => v,
            Err(_) => return ConnectOutcome::Aborted { at: 15 },
        };
        let ghost args = (a1, a2, a3, a4, a5, a6, a7, a8, a9, a10, a11, a12, a13, a14, a15, a16);
        let handler = self.clone();
        handler(a1, a2, a3, a4, a5, a6, a7, a8, a9, a10, a11, a12, a13, a14, a15, a16);
        assert(call_ensures(handler, args, ()));
        ConnectOutcome::Completed
    }
}

/// A connect handler with its parameter list and return mode erased, so that
/// handlers of any signature can be stored together and invoked alike.
pub trait ErasedConnectHandler: Send + Sync {
    /// Whether the handler inside accepts every argument list.
    spec fn ready(&self) -> bool;

    /// Whether each extractor of the handler inside accepts the context.
    spec fn acceptance(&self, s: Arc<Socket>, auth: Option<String>) -> Seq<bool>;

    /// Whether the handler inside is asynchronous.
    spec fn detached(&self) -> bool;

    /// Whether the handler inside has been invoked on the values extracted
    /// from this context, as `ConnectHandler::invoked_with` says.
    spec fn invoked_with(&self, s: Arc<Socket>, auth: Option<String>) -> bool;

    fn call(&self, s: Arc<Socket>, auth: Option<String>) -> (r: ConnectOutcome)
        requires
            self.ready(),
        ensures
            settles(self.acceptance(s, auth), self.detached(), r),
            !(r is Aborted) ==> self.invoked_with(s, auth),
    ;
}

impl<H, T, F> ErasedConnectHandler for MakeErasedHandler<H, T, F>
    where
        H: ConnectHandler<T, F> + Send + Sync + 'static,
        T: Send + Sync + 'static,
        F: Send + Sync + 'static,
{
    open spec fn ready(&self) -> bool {
        H::callable()
    }

    open spec fn acceptance(&self, s: Arc<Socket>, auth: Option<String>) -> Seq<bool> {
        H::acceptance(s, auth)
    }

    open spec fn detached(&self) -> bool {
        H::is_async()
    }

    open spec fn invoked_with(&self, s: Arc<Socket>, auth: Option<String>) -> bool {
        self.handler.invoked_with(s, auth)
    }

    fn call(&self, s: Arc<Socket>, auth: Option<String>) -> (r: ConnectOutcome) {
        self.handler.call(s, auth)
    }
}

/// A connect handler in its erased form, as a namespace stores it.
pub struct BoxedConnectHandler {
    pub inner: Box<dyn ErasedConnectHandler>,
}

impl BoxedConnectHandler {
    /// Dispatches one connect event: extraction, then the handler's call.
    pub fn call(&self, s: Arc<Socket>, auth: Option<String>) -> (r: ConnectOutcome)
        requires
            self.inner.ready(),
        ensures
            settles(self.inner.acceptance(s, auth), self.inner.detached(), r),
            !(r is Aborted) ==> self.inner.invoked_with(s, auth),
    {
        self.inner.call(s, auth)
    }
}

impl<H, T, F> MakeErasedHandler<H, T, F>
    where
        H: ConnectHandler<T, F> + Send + Sync + 'static,
        T: Send + Sync + 'static,
        F: Send + Sync + 'static,
{
    /// Wraps a typed handler into its erased form.
    pub fn new_ns_boxed(inner: H) -> (r: BoxedConnectHandler)
        ensures
            r.inner.ready() == H::callable(),
            r.inner.detached() == H::is_async(),
            forall|s: Arc<Socket>, auth: Option<String>|
                r.inner.acceptance(s, auth) == H::acceptance(s, auth),
            forall|s: Arc<Socket>, auth: Option<String>|
                r.inner.invoked_with(s, auth) == inner.invoked_with(s, auth),
    {
        BoxedConnectHandler { inner: Box::new(MakeErasedHandler::new(inner)) }
    }
}

} // verus!

