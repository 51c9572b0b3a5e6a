use atomr_accel_cuda::error::{
    decider, device_supervisor_strategy, DeviceSupervisor, Directive, GpuError,
};

#[test]
fn decider_routes_context_poisoned_to_restart() {
    let d = decider();
    assert_eq!(d("ContextPoisoned: cuInit failed"), Directive::Restart);
}

#[test]
fn decider_routes_out_of_memory_to_resume() {
    let d = decider();
    assert_eq!(d("OutOfMemory: alloc 1GB"), Directive::Resume);
}

#[test]
fn decider_routes_unrecoverable_to_stop() {
    let d = decider();
    assert_eq!(d("Unrecoverable: hardware fault"), Directive::Stop);
}

#[test]
fn decider_escalates_unknown_panics() {
    let d = decider();
    assert_eq!(d("some other panic"), Directive::Escalate);
}

#[test]
fn typed_supervisor_routes_context_poisoned_to_restart() {
    let err = GpuError::ContextPoisoned("simulated".into());
    assert_eq!(DeviceSupervisor::decide(&err), Directive::Restart);
}

#[test]
fn typed_supervisor_routes_oom_to_resume() {
    let err = GpuError::OutOfMemory("alloc 1GB".into());
    assert_eq!(DeviceSupervisor::decide(&err), Directive::Resume);
}

#[test]
fn typed_supervisor_routes_unrecoverable_to_stop() {
    let err = GpuError::Unrecoverable("hw fault".into());
    assert_eq!(DeviceSupervisor::decide(&err), Directive::Stop);
}

#[test]
fn typed_supervisor_escalates_other() {
    let err = GpuError::Timeout;
    assert_eq!(DeviceSupervisor::decide(&err), Directive::Escalate);
    let err = GpuError::GpuRefStale("stale");
    assert_eq!(DeviceSupervisor::decide(&err), Directive::Escalate);
    let err = GpuError::lib("cublas", "x");
    assert_eq!(DeviceSupervisor::decide(&err), Directive::Escalate);
}

#[test]
fn messages_name_the_kind_of_error() {
    let cases = vec![
        (GpuError::ContextPoisoned("a".into()), "ContextPoisoned: a"),
        (GpuError::OutOfMemory("b".into()), "OutOfMemory: b"),
        (GpuError::Unrecoverable("c".into()), "Unrecoverable: c"),
        (GpuError::GpuRefStale("d"), "GpuRef stale: d"),
        (GpuError::Driver("e".into()), "cudarc driver error: e"),
        (GpuError::Cublas("f".into()), "cudarc cuBLAS error: f"),
        (GpuError::lib("nccl", "g"), "cudarc nccl error: g"),
        (GpuError::Timeout, "ask timed out before GPU completion"),
    ];
    for (e, text) in cases {
        assert_eq!(e.panic_message(), text);
    }
}

#[test]
fn decision_survives_the_panic_message() {
    let errors = vec![
        GpuError::ContextPoisoned("sticky".into()),
        GpuError::OutOfMemory("1 MB".into()),
        GpuError::Unrecoverable("fault".into()),
        GpuError::Driver("plain".into()),
        GpuError::Timeout,
    ];
    for e in errors {
        assert_eq!(DeviceSupervisor::decide_str(&e.panic_message()), DeviceSupervisor::decide(&e));
    }
    // A carried text can hold a marker that outranks the error's own kind.
    let e = GpuError::OutOfMemory("ContextPoisoned".into());
    assert_eq!(DeviceSupervisor::decide(&e), Directive::Resume);
    assert_eq!(DeviceSupervisor::decide_str(&e.panic_message()), Directive::Restart);
}

#[test]
fn strategy_has_a_retry_budget() {
    let s = device_supervisor_strategy();
    assert!(s.max_retries > 0);
    assert!(s.within_secs > 0);
}

#[test]
fn the_strategy_decides_by_the_markers() {
    let s = device_supervisor_strategy();
    assert_eq!(s.decide("ContextPoisoned: sticky"), Directive::Restart);
    assert_eq!(s.decide("OutOfMemory: 1 MB"), Directive::Resume);
    assert_eq!(s.decide("Unrecoverable: fault"), Directive::Stop);
    assert_eq!(s.decide("index out of bounds"), Directive::Escalate);
}
