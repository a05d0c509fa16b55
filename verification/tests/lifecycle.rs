use libdeno::buf::deno_buf;
use libdeno::context::{
    core_bindings, deno_init_args, external_references, print_decide, BindTarget, NativeFn,
};
use libdeno::isolate::{
    deno_check_promise_errors, deno_config, deno_lock, deno_new, deno_new_snapshotter,
    deno_snapshot, deno_snapshot_new, deno_unlock, teardown_plan, DenoIsolate, TeardownPlan,
};

fn config() -> deno_config {
    deno_config { will_snapshot: 0, load_snapshot: None, shared: deno_buf::empty() }
}

#[test]
fn fresh_isolate_runs_the_initializer() {
    let (iso, run_initializer) = deno_new(config());
    assert!(run_initializer);
    assert!(iso.last_exception_.is_none());
    assert!(!iso.locked_);
    assert!(!iso.current_args_);
    assert!(!iso.recv_registered_);
    assert_eq!(iso.user_data_, 0);
}

#[test]
fn snapshot_boot_skips_the_initializer() {
    // The snapshot blob already carries the Deno.core bindings; the
    // Context Initializer must not run again.
    let cfg = deno_config {
        will_snapshot: 0,
        load_snapshot: Some(deno_snapshot { data: vec![1u8, 2, 3] }),
        shared: deno_buf::empty(),
    };
    let (iso, run_initializer) = deno_new(cfg);
    assert!(!run_initializer);
    assert!(iso.snapshot_.is_some());
}

#[test]
fn will_snapshot_routes_to_the_snapshotter() {
    let cfg = deno_config { will_snapshot: 1, load_snapshot: None, shared: deno_buf::empty() };
    let (iso, run_initializer) = deno_new(cfg);
    assert!(iso.snapshot_creator_);
    assert!(run_initializer);
}

#[test]
fn snapshotter_lifecycle() {
    let cfg = deno_config { will_snapshot: 1, load_snapshot: None, shared: deno_buf::empty() };
    let (mut iso, _) = deno_new_snapshotter(cfg);
    assert!(iso.snapshot_creator_);
    assert!(!iso.has_snapshotted_);
    // Tearing down before the blob exists must leak both engine objects.
    assert_eq!(teardown_plan(&iso), TeardownPlan::LeakIsolateAndCreator);
    deno_snapshot_new(&mut iso);
    assert!(iso.has_snapshotted_);
    assert_eq!(teardown_plan(&iso), TeardownPlan::LeakIsolateReleaseCreator);
}

#[test]
fn plain_isolate_is_released_normally() {
    let (iso, _) = deno_new(config());
    assert_eq!(teardown_plan(&iso), TeardownPlan::ReleaseIsolate);
}

#[test]
fn lock_and_unlock() {
    let (mut iso, _) = deno_new(config());
    deno_lock(&mut iso);
    assert!(iso.locked_);
    deno_unlock(&mut iso);
    assert!(!iso.locked_);
    deno_lock(&mut iso);
    assert!(iso.locked_);
}

#[test]
fn check_promise_errors_is_a_no_op() {
    let (mut iso, _) = deno_new(config());
    deno_check_promise_errors(&mut iso);
    assert!(iso.last_exception_.is_none());
}

#[test]
fn external_reference_table_is_stable() {
    let refs = external_references();
    assert_eq!(
        refs,
        vec![
            NativeFn::Print,
            NativeFn::Recv,
            NativeFn::Send,
            NativeFn::EvalContext,
            NativeFn::ErrorToJson,
            NativeFn::SharedGetter,
            NativeFn::MessageCallback,
            NativeFn::QueueMicrotask,
        ]
    );
}

#[test]
fn every_installed_binding_is_externally_referenced() {
    let refs = external_references();
    for (name, func, _target) in core_bindings() {
        assert!(refs.contains(&func), "binding {} lacks an external reference", name);
    }
}

#[test]
fn core_bindings_catalog() {
    let bindings = core_bindings();
    let names: Vec<String> = bindings.iter().map(|b| b.0.clone()).collect();
    assert_eq!(
        names,
        vec![
            "print".to_string(),
            "recv".to_string(),
            "send".to_string(),
            "evalContext".to_string(),
            "errorToJSON".to_string(),
            "shared".to_string(),
            "queueMicrotask".to_string(),
        ]
    );
    // Only queueMicrotask is bound on the global object directly.
    for (name, _func, target) in bindings {
        if name == "queueMicrotask" {
            assert_eq!(target, BindTarget::GlobalObject);
        } else {
            assert_eq!(target, BindTarget::CoreObject);
        }
    }
}

#[test]
fn engine_initialization_arguments() {
    let args = deno_init_args();
    assert_eq!(
        args,
        vec![
            "".to_string(),
            "--no-wasm-async-compilation".to_string(),
            "--harmony-top-level-await".to_string(),
        ]
    );
}

#[test]
fn print_selects_the_stream() {
    assert!(!print_decide(1, false));
    assert!(!print_decide(1, true));
    assert!(!print_decide(2, false));
    assert!(print_decide(2, true));
}

#[test]
fn isolate_state_is_inspectable() {
    let iso: DenoIsolate = deno_new(config()).0;
    assert!(!iso.resolve_cb_active_);
    assert!(!iso.shared_ab_created_);
    assert!(!iso.has_snapshotted_);
}
