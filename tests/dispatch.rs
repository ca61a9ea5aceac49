use std::sync::atomic::{AtomicUsize, Ordering};
use std::sync::{Arc, Mutex};

use socketioxide::extract::{AuthError, Data, SocketRef, TryData};
use socketioxide::handler::connect::MAX_HANDLER_ARITY;
use socketioxide::handler::{ConnectOutcome, MakeErasedHandler};
use socketioxide::socket::Socket;

fn socket(id: u64) -> Arc<Socket> {
    Arc::new(Socket::new(id))
}

#[test]
fn scenario_required_string_payload() {
    let seen: Arc<Mutex<Vec<(u64, String)>>> = Arc::new(Mutex::new(Vec::new()));
    let log = seen.clone();
    let handler = MakeErasedHandler::<_, (SocketRef, Data<String>), ()>::new_ns_boxed(
        move |s: SocketRef, Data(auth): Data<String>| {
            log.lock().unwrap().push((s.0.id, auth));
        },
    );

    let r = handler.call(socket(1), Some("\"hello\"".to_string()));
    assert_eq!(r, ConnectOutcome::Completed);
    assert_eq!(*seen.lock().unwrap(), vec![(1, "hello".to_string())]);

    let r = handler.call(socket(2), Some("hello".to_string()));
    assert_eq!(r, ConnectOutcome::Aborted { at: 1 });
    let r = handler.call(socket(3), None);
    assert_eq!(r, ConnectOutcome::Aborted { at: 1 });
    assert_eq!(seen.lock().unwrap().len(), 1);
}

#[test]
fn scenario_socket_only_runs_unconditionally() {
    let runs = Arc::new(AtomicUsize::new(0));
    let count = runs.clone();
    let handler = MakeErasedHandler::<_, (SocketRef,), ()>::new_ns_boxed(move |_s: SocketRef| {
        count.fetch_add(1, Ordering::SeqCst);
    });
    assert_eq!(handler.call(socket(1), None), ConnectOutcome::Completed);
    assert_eq!(handler.call(socket(2), Some("\"fine\"".to_string())), ConnectOutcome::Completed);
    assert_eq!(handler.call(socket(3), Some("{broken".to_string())), ConnectOutcome::Completed);
    assert_eq!(runs.load(Ordering::SeqCst), 3);
}

#[test]
fn scenario_async_handler_is_detached() {
    let rt = tokio::runtime::Builder::new_current_thread().build().unwrap();
    let counter = Arc::new(AtomicUsize::new(0));
    let count = counter.clone();
    let handler = MakeErasedHandler::<_, (SocketRef,), (_,)>::new_ns_boxed(move |_s: SocketRef| {
        let count = count.clone();
        async move {
            count.fetch_add(1, Ordering::SeqCst);
        }
    });
    let r = {
        let _entered = rt.enter();
        handler.call(socket(1), None)
    };
    assert_eq!(r, ConnectOutcome::Detached);
    // The current-thread runtime has not been driven yet: the task waits.
    assert_eq!(counter.load(Ordering::SeqCst), 0);
    let seen = counter.clone();
    rt.block_on(async move {
        let mut tries: u32 = 0;
        while seen.load(Ordering::SeqCst) == 0 && tries < 1000 {
            tokio::task::yield_now().await;
            tries += 1;
        }
    });
    assert_eq!(counter.load(Ordering::SeqCst), 1);
}

#[test]
fn async_handler_without_runtime_is_unscheduled() {
    let counter = Arc::new(AtomicUsize::new(0));
    let count = counter.clone();
    let handler = MakeErasedHandler::<_, (), (_,)>::new_ns_boxed(move || {
        let count = count.clone();
        async move {
            count.fetch_add(1, Ordering::SeqCst);
        }
    });
    assert_eq!(handler.call(socket(1), None), ConnectOutcome::Unscheduled);
    assert_eq!(counter.load(Ordering::SeqCst), 0);
}

#[test]
fn async_handler_aborts_before_spawning() {
    let rt = tokio::runtime::Builder::new_current_thread().build().unwrap();
    let counter = Arc::new(AtomicUsize::new(0));
    let count = counter.clone();
    let handler = MakeErasedHandler::<_, (Data<String>,), (_,)>::new_ns_boxed(
        move |_d: Data<String>| {
            let count = count.clone();
            async move {
                count.fetch_add(1, Ordering::SeqCst);
            }
        },
    );
    let _entered = rt.enter();
    assert_eq!(handler.call(socket(1), None), ConnectOutcome::Aborted { at: 0 });
    assert_eq!(counter.load(Ordering::SeqCst), 0);
}

#[test]
fn first_failing_extractor_stops_dispatch() {
    let runs = Arc::new(AtomicUsize::new(0));
    let count = runs.clone();
    let handler = MakeErasedHandler::<_, (SocketRef, TryData<String>, Data<String>, SocketRef), ()>::new_ns_boxed(
        move |_a: SocketRef, _b: TryData<String>, _c: Data<String>, _d: SocketRef| {
            count.fetch_add(1, Ordering::SeqCst);
        },
    );
    assert_eq!(handler.call(socket(1), Some("nope".to_string())), ConnectOutcome::Aborted { at: 2 });
    assert_eq!(handler.call(socket(1), None), ConnectOutcome::Aborted { at: 2 });
    assert_eq!(runs.load(Ordering::SeqCst), 0);
    assert_eq!(handler.call(socket(1), Some("\"yes\"".to_string())), ConnectOutcome::Completed);
    assert_eq!(runs.load(Ordering::SeqCst), 1);
}

#[test]
fn optional_payload_reaches_the_handler() {
    let seen: Arc<Mutex<Vec<Result<String, AuthError>>>> = Arc::new(Mutex::new(Vec::new()));
    let log = seen.clone();
    let handler = MakeErasedHandler::<_, (SocketRef, TryData<String>), ()>::new_ns_boxed(
        move |_s: SocketRef, TryData(auth): TryData<String>| {
            log.lock().unwrap().push(auth);
        },
    );
    assert_eq!(handler.call(socket(1), None), ConnectOutcome::Completed);
    assert_eq!(handler.call(socket(1), Some("bad".to_string())), ConnectOutcome::Completed);
    assert_eq!(handler.call(socket(1), Some("\"good\"".to_string())), ConnectOutcome::Completed);
    assert_eq!(
        *seen.lock().unwrap(),
        vec![Err(AuthError::Missing), Err(AuthError::Malformed), Ok("good".to_string())]
    );
}

#[test]
fn handler_without_parameters_runs_once() {
    let runs = Arc::new(AtomicUsize::new(0));
    let count = runs.clone();
    let handler = MakeErasedHandler::<_, (), ()>::new_ns_boxed(move || {
        count.fetch_add(1, Ordering::SeqCst);
    });
    assert_eq!(handler.call(socket(1), Some("{".to_string())), ConnectOutcome::Completed);
    assert_eq!(runs.load(Ordering::SeqCst), 1);
}

#[test]
fn handler_with_sixteen_parameters_gets_them_in_order() {
    assert_eq!(MAX_HANDLER_ARITY, 16);
    let seen: Arc<Mutex<Vec<u64>>> = Arc::new(Mutex::new(Vec::new()));
    let log = seen.clone();
    type S = SocketRef;
    let handler = MakeErasedHandler::<_, (S, S, S, S, S, S, S, S, S, S, S, S, S, S, S, Data<String>), ()>::new_ns_boxed(
        move |a: S, b: S, c: S, d: S, e: S, f: S, g: S, h: S, i: S, j: S, k: S, l: S, m: S, n: S, o: S, Data(p): Data<String>| {
            let ids = [a, b, c, d, e, f, g, h, i, j, k, l, m, n, o].map(|s| s.0.id);
            let mut out = log.lock().unwrap();
            out.extend(ids);
            out.push(p.len() as u64);
        },
    );
    assert_eq!(handler.call(socket(9), Some("\"xyz\"".to_string())), ConnectOutcome::Completed);
    let mut expected = vec![9u64; 15];
    expected.push(3);
    assert_eq!(*seen.lock().unwrap(), expected);
    assert_eq!(handler.call(socket(9), Some("xyz".to_string())), ConnectOutcome::Aborted { at: 15 });
}

#[test]
fn two_dispatches_are_independent() {
    let seen: Arc<Mutex<Vec<(u64, String)>>> = Arc::new(Mutex::new(Vec::new()));
    let log = seen.clone();
    let handler = MakeErasedHandler::<_, (SocketRef, Data<String>), ()>::new_ns_boxed(
        move |s: SocketRef, Data(mut auth): Data<String>| {
            auth.push('!');
            log.lock().unwrap().push((s.0.id, auth));
        },
    );
    assert_eq!(handler.call(socket(1), Some("\"first\"".to_string())), ConnectOutcome::Completed);
    assert_eq!(handler.call(socket(2), Some("\"second\"".to_string())), ConnectOutcome::Completed);
    assert_eq!(
        *seen.lock().unwrap(),
        vec![(1, "first!".to_string()), (2, "second!".to_string())]
    );
}
