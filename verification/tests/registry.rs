use libdeno::buf::deno_buf;
use libdeno::exception::ExceptionInfo;
use libdeno::isolate::{deno_config, deno_new, DenoIsolate};
use libdeno::modules::{
    deno_mod_evaluate, deno_mod_imports_get, deno_mod_imports_len, deno_mod_instantiate_begin,
    deno_mod_instantiate_end, deno_mod_new, import_meta_values, match_import,
    mod_evaluate_should_run, resolve_result, CompileOutcome, ModuleInfo, ModuleStatus,
    ResolveOutcome,
};

fn fresh_isolate() -> DenoIsolate {
    let config = deno_config { will_snapshot: 0, load_snapshot: None, shared: deno_buf::empty() };
    deno_new(config).0
}

fn strings(items: &[&str]) -> Vec<String> {
    items.iter().map(|s| s.to_string()).collect()
}

fn plain_exception(message: &str) -> ExceptionInfo {
    ExceptionInfo {
        message: message.to_string(),
        script_resource_name: "a.js".to_string(),
        source_line: "".to_string(),
        line_number: 1,
        start_position: 0,
        end_position: 0,
        error_level: 8,
        start_column: 0,
        end_column: 0,
        is_shared_cross_origin: false,
        is_opaque: false,
        frames: None,
    }
}

#[test]
fn registered_module_is_resolvable() {
    let mut iso = fresh_isolate();
    let id = deno_mod_new(
        &mut iso,
        true,
        "main.js".to_string(),
        CompileOutcome::Compiled(17, strings(&["./dep.js"])),
    );
    assert_eq!(id, 17);
    assert!(iso.get_module_info(17).is_some());
    assert!(iso.get_module_info(0).is_none());
    assert!(iso.get_module_info(99).is_none());
}

#[test]
fn module_ids_stay_resolvable_after_recompilation() {
    // Compiling identical sources twice yields two identity hashes; both
    // stay resolvable.
    let mut iso = fresh_isolate();
    let id1 = deno_mod_new(
        &mut iso,
        true,
        "main.js".to_string(),
        CompileOutcome::Compiled(11, Vec::new()),
    );
    let id2 = deno_mod_new(
        &mut iso,
        true,
        "main.js".to_string(),
        CompileOutcome::Compiled(12, Vec::new()),
    );
    assert_ne!(id1, id2);
    assert!(iso.get_module_info(id1).is_some());
    assert!(iso.get_module_info(id2).is_some());
}

#[test]
fn failed_compilation_returns_zero_and_records_exception() {
    let mut iso = fresh_isolate();
    let id = deno_mod_new(
        &mut iso,
        true,
        "a.js".to_string(),
        CompileOutcome::Failed(plain_exception("Uncaught SyntaxError: Unexpected token ';'"), false),
    );
    assert_eq!(id, 0);
    let last = iso.last_exception_.clone().expect("a compile error must be recorded");
    assert!(last.contains("SyntaxError"));
    // The registry is untouched.
    assert!(iso.get_module_info(0).is_none());
}

#[test]
fn imports_len_and_get() {
    let mut iso = fresh_isolate();
    deno_mod_new(
        &mut iso,
        false,
        "main.js".to_string(),
        CompileOutcome::Compiled(5, strings(&["a", "b", "c"])),
    );
    assert_eq!(deno_mod_imports_len(&iso, 5), 3);
    assert_eq!(deno_mod_imports_get(&iso, 5, 0).as_deref(), Some("a"));
    assert_eq!(deno_mod_imports_get(&iso, 5, 1).as_deref(), Some("b"));
    assert_eq!(deno_mod_imports_get(&iso, 5, 2).as_deref(), Some("c"));
    assert_eq!(deno_mod_imports_get(&iso, 5, 3), None);
    assert_eq!(deno_mod_imports_get(&iso, 6, 0), None);
    assert_eq!(deno_mod_imports_get(&iso, 0, 0), None);
}

#[test]
fn resolver_matches_in_any_request_order() {
    let referrer = ModuleInfo {
        main: true,
        name: "main.js".to_string(),
        import_specifiers: strings(&["a", "b", "c"]),
    };
    // The engine may request the specifiers in any order; each request is
    // matched against the stored list by string equality.
    assert_eq!(match_import(&referrer, &"c".to_string()), Some(2));
    assert_eq!(match_import(&referrer, &"a".to_string()), Some(0));
    assert_eq!(match_import(&referrer, &"b".to_string()), Some(1));
    assert_eq!(match_import(&referrer, &"missing".to_string()), None);
}

#[test]
fn resolution_success_returns_the_module() {
    let mut iso = fresh_isolate();
    deno_mod_new(
        &mut iso,
        false,
        "dep.js".to_string(),
        CompileOutcome::Compiled(31, Vec::new()),
    );
    let outcome = resolve_result(&iso, &"./dep.js".to_string(), &"main.js".to_string(), 31);
    match outcome {
        ResolveOutcome::Module(id) => assert_eq!(id, 31),
        ResolveOutcome::Error(msg) => panic!("unexpected resolution error: {}", msg),
    }
}

#[test]
fn unresolved_specifier_yields_canonical_error() {
    let iso = fresh_isolate();
    // The host resolver answered 0: unresolved.
    let outcome = resolve_result(&iso, &"./missing".to_string(), &"main.js".to_string(), 0);
    match outcome {
        ResolveOutcome::Error(msg) => {
            assert!(msg.starts_with("Cannot resolve module \"./missing\""));
            assert_eq!(msg, "Cannot resolve module \"./missing\" from \"main.js\"");
        },
        ResolveOutcome::Module(_) => panic!("resolution must fail"),
    }
}

#[test]
fn unregistered_resolver_answer_yields_canonical_error() {
    let iso = fresh_isolate();
    let outcome = resolve_result(&iso, &"./x".to_string(), &"main.js".to_string(), 123);
    match outcome {
        ResolveOutcome::Error(msg) => {
            assert_eq!(msg, "Cannot resolve module \"./x\" from \"main.js\"");
        },
        ResolveOutcome::Module(_) => panic!("resolution must fail"),
    }
}

#[test]
fn instantiate_skips_unknown_module() {
    let mut iso = fresh_isolate();
    let proceed = deno_mod_instantiate_begin(&mut iso, 77);
    assert!(!proceed);
    assert!(!iso.resolve_cb_active_);
}

#[test]
fn instantiate_failure_records_exception() {
    let mut iso = fresh_isolate();
    deno_mod_new(
        &mut iso,
        true,
        "main.js".to_string(),
        CompileOutcome::Compiled(9, strings(&["./missing"])),
    );
    let proceed = deno_mod_instantiate_begin(&mut iso, 9);
    assert!(proceed);
    assert!(iso.resolve_cb_active_);
    let caught = plain_exception("Uncaught Error: Cannot resolve module \"./missing\" from \"main.js\"");
    deno_mod_instantiate_end(&mut iso, Some(&caught), false);
    assert!(!iso.resolve_cb_active_);
    let last = iso.last_exception_.clone().expect("instantiation error must be recorded");
    assert!(last.contains("Cannot resolve module \\\"./missing\\\""));
}

#[test]
fn evaluation_runs_only_an_instantiated_module() {
    assert!(mod_evaluate_should_run(ModuleStatus::Instantiated));
    assert!(!mod_evaluate_should_run(ModuleStatus::Evaluated));
    assert!(!mod_evaluate_should_run(ModuleStatus::Errored));
    assert!(!mod_evaluate_should_run(ModuleStatus::Uninstantiated));
}

#[test]
fn successful_evaluation_clears_the_last_exception() {
    let mut iso = fresh_isolate();
    // A stale exception from an earlier call sits in the slot.
    iso.handle_exception(&plain_exception("Uncaught Error: old"), false);
    assert!(iso.last_exception_.is_some());
    deno_mod_evaluate(&mut iso, ModuleStatus::Evaluated, None, false);
    assert!(iso.last_exception_.is_none());
}

#[test]
fn errored_evaluation_records_the_module_exception() {
    let mut iso = fresh_isolate();
    let e = plain_exception("Uncaught Error: boom");
    deno_mod_evaluate(&mut iso, ModuleStatus::Errored, Some(&e), false);
    let last = iso.last_exception_.clone().expect("evaluation error must be recorded");
    assert!(last.contains("Uncaught Error: boom"));
}

#[test]
fn import_meta_url_and_main() {
    let mut iso = fresh_isolate();
    deno_mod_new(
        &mut iso,
        true,
        "main.js".to_string(),
        CompileOutcome::Compiled(3, Vec::new()),
    );
    let (url, main) = import_meta_values(&iso, 3);
    // JS `import.meta.url + ":" + import.meta.main` then reads "main.js:true".
    assert_eq!(format!("{}:{}", url, main), "main.js:true");
}
