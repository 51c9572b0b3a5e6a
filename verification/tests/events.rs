use atomr_accel_cuda::driver_call::CallOutcome;
use atomr_accel_cuda::error::GpuError;
use atomr_accel_cuda::event::{
    event_reply, fxhash, op_of, open_ipc_reply, query_reply, EventAction, EventActor, EventCall,
    EventMsg, EventOp, IpcEventHandle,
};

#[test]
fn event_msg_round_trip() {
    let actor = EventActor::mock();
    match actor.handle(&EventMsg::Create { reply: 1 }) {
        EventAction::Reply(e) => assert!(matches!(e, GpuError::Unrecoverable(_))),
        EventAction::Call(_) => panic!("no call without a GPU"),
    }
}

#[test]
fn ipc_event_handle_serializes() {
    let bytes: [u8; 64] = std::array::from_fn(|i| i as u8);
    let h = IpcEventHandle::from_bytes(bytes);
    let round = h.as_bytes();
    assert_eq!(round, bytes);
    fn assert_send_sync<T: Send + Sync>() {}
    assert_send_sync::<IpcEventHandle>();
    let _clone: IpcEventHandle = h;
}

#[test]
fn messages_become_driver_calls() {
    let actor = EventActor::new(5);
    match actor.handle(&EventMsg::Create { reply: 1 }) {
        EventAction::Call(EventCall::NewEvent { context }) => assert_eq!(context, 5),
        _ => panic!("wrong action"),
    }
    match actor.handle(&EventMsg::Wait { event: 8, stream: 9, reply: 1 }) {
        EventAction::Call(EventCall::Wait { event, stream }) => {
            assert_eq!((event, stream), (8, 9));
        }
        _ => panic!("wrong action"),
    }
}

#[test]
fn driver_failures_become_errors() {
    let e = event_reply::<()>(EventOp::Record, CallOutcome::Failed("bad stream".into()));
    assert_eq!(e.unwrap_err().panic_message(), "cudarc event error: record: bad stream");
    let e = event_reply::<()>(EventOp::Create, CallOutcome::Failed("x".into()));
    assert_eq!(e.unwrap_err().panic_message(), "cudarc event error: new_event: x");
    let e = event_reply::<()>(EventOp::Synchronize, CallOutcome::NotLoadable);
    assert_eq!(
        e.unwrap_err().panic_message(),
        "Unrecoverable: EventActor::Synchronize: CUDA driver not loadable"
    );
    assert_eq!(query_reply(Some(true)).unwrap(), true);
    assert_eq!(query_reply(Some(false)).unwrap(), false);
    assert_eq!(
        query_reply(None).unwrap_err().panic_message(),
        "Unrecoverable: EventActor::Query: CUDA driver not loadable"
    );
}

#[test]
fn opened_events_are_not_handed_out() {
    let e = open_ipc_reply(Ok(4)).unwrap_err();
    assert!(matches!(e, GpuError::Unrecoverable(_)));
    let e = open_ipc_reply(Err(GpuError::Timeout)).unwrap_err();
    assert!(matches!(e, GpuError::Timeout));
}

#[test]
fn handle_hash_is_fnv() {
    assert_eq!(fxhash(&[]), 0xcbf29ce484222325);
    assert_eq!(fxhash(b"a"), 0xaf63dc4c8601ec8c);
    assert_eq!(fxhash(b"foobar"), 0x85944171f73967e8);
    let h = IpcEventHandle::from_bytes([0; 64]);
    assert_eq!(h.bytes_hash(), fxhash(&[0; 64]));
}

#[test]
fn calls_are_answered_in_their_own_words() {
    let actor = EventActor::new(3);
    let answer = |msg: EventMsg| match actor.handle(&msg) {
        EventAction::Call(c) => op_of(&c)
            .map(|op| event_reply::<u64>(op, CallOutcome::Failed("x".into())).unwrap_err())
            .map(|e| e.panic_message()),
        EventAction::Reply(_) => panic!("a call is made"),
    };
    let expect = |s: &str| Some(format!("cudarc event error: {s}: x"));
    assert_eq!(answer(EventMsg::Create { reply: 0 }), expect("new_event"));
    assert_eq!(answer(EventMsg::Record { event: 1, stream: 2, reply: 0 }), expect("record"));
    assert_eq!(answer(EventMsg::Wait { event: 1, stream: 2, reply: 0 }), expect("wait"));
    assert_eq!(answer(EventMsg::ElapsedTime { start: 1, end: 2, reply: 0 }), expect("elapsed"));
    assert_eq!(answer(EventMsg::Synchronize { event: 1, reply: 0 }), expect("synchronize"));
    assert_eq!(answer(EventMsg::Query { event: 1, reply: 0 }), None);
    assert_eq!(answer(EventMsg::GetIpcHandle { event: 1, reply: 0 }), None);
}
