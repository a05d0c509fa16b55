//! Isolate lifecycle: creation, locking, exception bookkeeping, snapshot
//! state, and teardown.
//!
//! A `DenoIsolate` here is the embedding core's own state: everything the
//! protocol decides on.  The engine-owned objects (the isolate itself, the
//! context, module handles) live with the unverified host glue; it drives
//! the engine and calls these functions for every decision and every state
//! change, handing in what the engine reported.

use vstd::prelude::*;
use std::collections::HashMap;
use crate::buf::deno_buf;
use crate::exception::{encode_exception_json, exception_json, ExceptionInfo};
use crate::modules::{ModuleInfo, NameEntry};

verus! {

/// A stable module ID: the engine's identity hash of the compiled module,
/// never `0`.
#[allow(non_camel_case_types)]
pub type deno_mod = i32;

/// A startup snapshot blob.
#[allow(non_camel_case_types)]
pub struct deno_snapshot {
    pub data: Vec<u8>,
}

/// Per-isolate configuration.  The host's receive and dynamic-import
/// callbacks are held by the unverified glue, which invokes them when the
/// bridge decides they are due.
#[allow(non_camel_case_types)]
pub struct deno_config {
    /// Nonzero routes creation to the snapshotter path.
    pub will_snapshot: i32,
    /// A snapshot blob to boot from; forbidden together with
    /// `will_snapshot`.
    pub load_snapshot: Option<deno_snapshot>,
    /// The host-owned byte range exposed to JS as `Deno.core.shared`.
    pub shared: deno_buf,
}

/// The embedding core's state for one isolate.
pub struct DenoIsolate {
    /// The single last-exception slot: the canonical JSON document of the
    /// most recent failure, if any.
    pub last_exception_: Option<String>,
    /// The module registry: stable ID to module record.
    pub mods_: HashMap<deno_mod, ModuleInfo>,
    /// The secondary mapping, module name to most recently registered ID.
    pub mods_by_name_: Vec<NameEntry>,
    /// Whether the embedder holds the exclusive engine lock.
    pub locked_: bool,
    /// The shared-buffer descriptor from the configuration.
    pub shared_: deno_buf,
    /// Whether the `SharedArrayBuffer` aliasing `shared_` has been created
    /// and cached by the `shared` getter.
    pub shared_ab_created_: bool,
    /// Whether JS has installed its async-response callback via
    /// `Deno.core.recv`.
    pub recv_registered_: bool,
    /// The opaque host token visible to callbacks, `0` when none; set only
    /// inside a user-data scope.
    pub user_data_: usize,
    /// Whether a synchronous `send` is in flight (the reply channel is
    /// open).
    pub current_args_: bool,
    /// Whether this isolate was built by the snapshotter path.
    pub snapshot_creator_: bool,
    /// Whether the snapshotter has produced its blob.
    pub has_snapshotted_: bool,
    /// The snapshot blob this isolate was configured to boot from.
    pub snapshot_: Option<deno_snapshot>,
    /// Whether a resolver callback is installed for an instantiation in
    /// progress.
    pub resolve_cb_active_: bool,
}

/// What the engine reported for one `execute` call.
pub enum ExecOutcome {
    /// The script compiled and ran to completion.
    Completed,
    /// Compilation or execution threw: the exception data, and whether the
    /// isolate was in execution-terminating state when it was caught.
    Caught(ExceptionInfo, bool),
}

/// How teardown must release the engine objects.  The engine asserts when a
/// snapshot creator is freed before it produced a blob, so such an isolate
/// is deliberately leaked.
#[derive(PartialEq, Eq, Structural, Debug)]
pub enum TeardownPlan {
    /// No snapshot creator: release the isolate normally.
    ReleaseIsolate,
    /// A creator that has produced its blob: leak the isolate, release the
    /// creator.
    LeakIsolateReleaseCreator,
    /// A creator that has not produced a blob yet: leak both.
    LeakIsolateAndCreator,
}

impl DenoIsolate {
    /// Fresh core state for the given configuration.
    pub fn new(config: deno_config) -> (d: Self)
        ensures
            d.last_exception_ is None,
            d.mods_@ == Map::<deno_mod, ModuleInfo>::empty(),
            d.mods_by_name_@ == Seq::<NameEntry>::empty(),
            !d.locked_,
            d.shared_ == config.shared,
            !d.shared_ab_created_,
            !d.recv_registered_,
            d.user_data_ == 0,
            !d.current_args_,
            !d.snapshot_creator_,
            !d.has_snapshotted_,
            d.snapshot_ == config.load_snapshot,
            !d.resolve_cb_active_,
    {
        broadcast use vstd::std_specs::hash::group_hash_axioms;

        DenoIsolate {
            last_exception_: None,
            mods_: HashMap::new(),
            mods_by_name_: Vec::new(),
            locked_: false,
            shared_: config.shared,
            shared_ab_created_: false,
            recv_registered_: false,
            user_data_: 0,
            current_args_: false,
            snapshot_creator_: false,
            has_snapshotted_: false,
            snapshot_: config.load_snapshot,
            resolve_cb_active_: false,
        }
    }

    /// Store an exception as the last exception, encoded as the canonical
    /// JSON document.  When the isolate was in execution-terminating state,
    /// the caller has already cancelled termination so the exception could
    /// be materialized; the returned flag tells it to re-raise termination
    /// afterwards.
    pub fn handle_exception(&mut self, info: &ExceptionInfo, is_terminating: bool) -> (reterminate:
        bool)
        ensures
            final(self).last_exception_ is Some,
            final(self).last_exception_->Some_0@ == exception_json(*info),
            reterminate == is_terminating,
            *final(self) == (DenoIsolate { last_exception_: final(self).last_exception_, ..*old(self) }),
    {
        let json = encode_exception_json(info);
        self.last_exception_ = Some(json);
        is_terminating
    }

    /// The outcome-handling half of `execute`: on a completed run the state
    /// is untouched; on a caught exception the last-exception slot receives
    /// the canonical document.  Returns whether the run succeeded.
    pub fn execute(&mut self, outcome: &ExecOutcome) -> (ok: bool)
        ensures
            ok == (outcome is Completed),
            outcome is Completed ==> *final(self) == *old(self),
            outcome matches ExecOutcome::Caught(info, _) ==> {
                &&& final(self).last_exception_ is Some
                &&& final(self).last_exception_->Some_0@ == exception_json(*info)
                &&& *final(self) == (DenoIsolate {
                    last_exception_: final(self).last_exception_,
                    ..*old(self)
                })
            },
    {
        match outcome {
            ExecOutcome::Completed => true,
            ExecOutcome::Caught(info, terminating) => {
                self.handle_exception(info, *terminating);
                false
            },
        }
    }
}

/// Create the core state for a standard isolate.  Routes to the snapshotter
/// path when the configuration asks for one; configuring a snapshotter with
/// a pre-loaded snapshot is a fatal configuration error and is excluded.
/// The returned flag says whether the Context Initializer must run on the
/// fresh context: it runs unless a snapshot blob restores the bindings.
pub fn deno_new(config: deno_config) -> (r: (DenoIsolate, bool))
    requires
        config.will_snapshot != 0 ==> config.load_snapshot is None,
    ensures
        r.0.last_exception_ is None,
        r.0.mods_@ == Map::<deno_mod, ModuleInfo>::empty(),
        !r.0.locked_,
        r.0.shared_ == config.shared,
        !r.0.recv_registered_,
        r.0.user_data_ == 0,
        !r.0.current_args_,
        r.0.snapshot_creator_ == (config.will_snapshot != 0),
        !r.0.has_snapshotted_,
        !r.0.resolve_cb_active_,
        r.0.snapshot_ == (if config.will_snapshot != 0 {
            Option::<deno_snapshot>::None
        } else {
            config.load_snapshot
        }),
        r.1 == (config.will_snapshot != 0 || config.load_snapshot is None),
{
    if config.will_snapshot != 0 {
        deno_new_snapshotter(config)
    } else {
        let run_initializer = config.load_snapshot.is_none();
        let d = DenoIsolate::new(config);
        (d, run_initializer)
    }
}

/// Create the core state for a snapshotter isolate.  Requires the
/// snapshotting configuration and no pre-loaded snapshot; the Context
/// Initializer always runs on its fresh context.
pub fn deno_new_snapshotter(config: deno_config) -> (r: (DenoIsolate, bool))
    requires
        config.will_snapshot != 0,
        config.load_snapshot is None,
    ensures
        r.0.last_exception_ is None,
        r.0.mods_@ == Map::<deno_mod, ModuleInfo>::empty(),
        !r.0.locked_,
        r.0.shared_ == config.shared,
        !r.0.recv_registered_,
        r.0.user_data_ == 0,
        !r.0.current_args_,
        r.0.snapshot_creator_,
        !r.0.has_snapshotted_,
        r.0.snapshot_ is None,
        !r.0.resolve_cb_active_,
        r.1,
{
    let mut d = DenoIsolate::new(config);
    d.snapshot_creator_ = true;
    (d, true)
}

/// Acquire the exclusive engine lock.  Double-locking is a fatal assertion
/// and is excluded.
pub fn deno_lock(i: &mut DenoIsolate)
    requires
        !old(i).locked_,
    ensures
        final(i).locked_,
        *final(i) == (DenoIsolate { locked_: true, ..*old(i) }),
{
    i.locked_ = true;
}

/// Release the exclusive engine lock, which must be held.
pub fn deno_unlock(i: &mut DenoIsolate)
    requires
        old(i).locked_,
    ensures
        !final(i).locked_,
        *final(i) == (DenoIsolate { locked_: false, ..*old(i) }),
{
    i.locked_ = false;
}

/// The last-exception slot: the canonical JSON document of the most recent
/// failure, or `None`.
pub fn deno_last_exception(i: &DenoIsolate) -> (r: Option<String>)
    ensures
        r is Some <==> i.last_exception_ is Some,
        r matches Some(s) ==> i.last_exception_ matches Some(t) && s@ == t@,
{
    match &i.last_exception_ {
        Some(s) => Some(s.clone()),
        None => None,
    }
}

/// Reset the last-exception slot.
pub fn deno_clear_last_exception(i: &mut DenoIsolate)
    ensures
        final(i).last_exception_ is None,
        *final(i) == (DenoIsolate { last_exception_: None, ..*old(i) }),
{
    i.last_exception_ = None;
}

/// Pending-promise rejections are not wired through this core yet; the call
/// deliberately leaves the state untouched.
pub fn deno_check_promise_errors(i: &mut DenoIsolate)
    ensures
        *final(i) == *old(i),
{
}

/// The state change of taking a startup snapshot: the context handle is
/// considered reset, and the creator is marked as having produced its blob
/// (so teardown may release it).  Only a snapshotter isolate can snapshot.
pub fn deno_snapshot_new(i: &mut DenoIsolate)
    requires
        old(i).snapshot_creator_,
    ensures
        final(i).has_snapshotted_,
        *final(i) == (DenoIsolate { has_snapshotted_: true, ..*old(i) }),
{
    i.has_snapshotted_ = true;
}

/// The exception text synthesized when an exception is to be reported
/// while the pending engine exception is null or undefined because
/// execution was terminated.
pub fn terminated_exception_message() -> (r: String)
    ensures
        r@ == "execution terminated"@,
{
    String::from_str("execution terminated")
}

/// How teardown must release this isolate's engine objects.
pub fn teardown_plan(i: &DenoIsolate) -> (r: TeardownPlan)
    ensures
        r == (if !i.snapshot_creator_ {
            TeardownPlan::ReleaseIsolate
        } else if i.has_snapshotted_ {
            TeardownPlan::LeakIsolateReleaseCreator
        } else {
            TeardownPlan::LeakIsolateAndCreator
        }),
{
    if !i.snapshot_creator_ {
        TeardownPlan::ReleaseIsolate
    } else if i.has_snapshotted_ {
        TeardownPlan::LeakIsolateReleaseCreator
    } else {
        TeardownPlan::LeakIsolateAndCreator
    }
}

} // verus!
