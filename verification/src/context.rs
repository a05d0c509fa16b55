//! The context initializer's catalog: which native functions a fresh
//! context installs, and the external-reference table registered at
//! isolate creation.
//!
//! Snapshot restoration rebinds function templates through the
//! external-reference table, so every native function the initializer
//! installs must appear in that table, and the table's contents and order
//! must be stable.  Both are defined here, side by side, and
//! `lemma_bindings_have_external_references` proves they are in lockstep.

use vstd::prelude::*;

verus! {

/// The native functions the embedding core exposes to JS.
#[derive(Clone, Copy, PartialEq, Eq, Structural, Debug)]
pub enum NativeFn {
    Print,
    Recv,
    Send,
    EvalContext,
    ErrorToJson,
    SharedGetter,
    MessageCallback,
    QueueMicrotask,
}

/// Where the initializer installs a binding.
#[derive(Clone, Copy, PartialEq, Eq, Structural, Debug)]
pub enum BindTarget {
    /// A property of the `Deno.core` object (`shared` as an accessor, the
    /// rest as functions).
    CoreObject,
    /// A property of the global object.
    GlobalObject,
}

/// The external-reference table, in its fixed registration order.
pub open spec fn spec_external_references() -> Seq<NativeFn> {
    seq![
        NativeFn::Print,
        NativeFn::Recv,
        NativeFn::Send,
        NativeFn::EvalContext,
        NativeFn::ErrorToJson,
        NativeFn::SharedGetter,
        NativeFn::MessageCallback,
        NativeFn::QueueMicrotask,
    ]
}

/// The bindings the Context Initializer installs on a fresh context, in
/// installation order: the `Deno.core` namespace and the global
/// `queueMicrotask`.
pub open spec fn spec_core_bindings() -> Seq<(Seq<char>, NativeFn, BindTarget)> {
    seq![
        ("print"@, NativeFn::Print, BindTarget::CoreObject),
        ("recv"@, NativeFn::Recv, BindTarget::CoreObject),
        ("send"@, NativeFn::Send, BindTarget::CoreObject),
        ("evalContext"@, NativeFn::EvalContext, BindTarget::CoreObject),
        ("errorToJSON"@, NativeFn::ErrorToJson, BindTarget::CoreObject),
        ("shared"@, NativeFn::SharedGetter, BindTarget::CoreObject),
        ("queueMicrotask"@, NativeFn::QueueMicrotask, BindTarget::GlobalObject),
    ]
}

/// The external-reference table to register at isolate creation.
pub fn external_references() -> (r: Vec<NativeFn>)
    ensures
        r@ == spec_external_references(),
{
    let mut v: Vec<NativeFn> = Vec::new();
    v.push(NativeFn::Print);
    v.push(NativeFn::Recv);
    v.push(NativeFn::Send);
    v.push(NativeFn::EvalContext);
    v.push(NativeFn::ErrorToJson);
    v.push(NativeFn::SharedGetter);
    v.push(NativeFn::MessageCallback);
    v.push(NativeFn::QueueMicrotask);
    proof {
        assert(v@ =~= spec_external_references());
    }
    v
}

/// The bindings the Context Initializer installs, in order.
pub fn core_bindings() -> (r: Vec<(String, NativeFn, BindTarget)>)
    ensures
        r@.map_values(|b: (String, NativeFn, BindTarget)| (b.0@, b.1, b.2))
            == spec_core_bindings(),
{
    let mut v: Vec<(String, NativeFn, BindTarget)> = Vec::new();
    v.push((String::from_str("print"), NativeFn::Print, BindTarget::CoreObject));
    v.push((String::from_str("recv"), NativeFn::Recv, BindTarget::CoreObject));
    v.push((String::from_str("send"), NativeFn::Send, BindTarget::CoreObject));
    v.push((String::from_str("evalContext"), NativeFn::EvalContext, BindTarget::CoreObject));
    v.push((String::from_str("errorToJSON"), NativeFn::ErrorToJson, BindTarget::CoreObject));
    v.push((String::from_str("shared"), NativeFn::SharedGetter, BindTarget::CoreObject));
    v.push((String::from_str("queueMicrotask"), NativeFn::QueueMicrotask, BindTarget::GlobalObject));
    proof {
        assert(v@.map_values(|b: (String, NativeFn, BindTarget)| (b.0@, b.1, b.2))
            =~= spec_core_bindings());
    }
    v
}

/// Law: every native function the Context Initializer installs appears in
/// the external-reference table, so a snapshot taken of an initialized
/// context can always be restored.
pub proof fn lemma_bindings_have_external_references()
    ensures
        forall|k: int|
            0 <= k < spec_core_bindings().len() ==> spec_external_references().contains(
                #[trigger] spec_core_bindings()[k].1,
            ),
{
    let ext = spec_external_references();
    assert(ext[0] == NativeFn::Print);
    assert(ext[1] == NativeFn::Recv);
    assert(ext[2] == NativeFn::Send);
    assert(ext[3] == NativeFn::EvalContext);
    assert(ext[4] == NativeFn::ErrorToJson);
    assert(ext[5] == NativeFn::SharedGetter);
    assert(ext[7] == NativeFn::QueueMicrotask);
    assert forall|k: int| 0 <= k < spec_core_bindings().len() implies ext.contains(
        #[trigger] spec_core_bindings()[k].1,
    ) by {
        let f = spec_core_bindings()[k].1;
        if k == 0 {
            assert(ext.contains(f)) by { assert(ext[0] == f); }
        } else if k == 1 {
            assert(ext.contains(f)) by { assert(ext[1] == f); }
        } else if k == 2 {
            assert(ext.contains(f)) by { assert(ext[2] == f); }
        } else if k == 3 {
            assert(ext.contains(f)) by { assert(ext[3] == f); }
        } else if k == 4 {
            assert(ext.contains(f)) by { assert(ext[4] == f); }
        } else if k == 5 {
            assert(ext.contains(f)) by { assert(ext[5] == f); }
        } else {
            assert(ext.contains(f)) by { assert(ext[7] == f); }
        }
    }
}

/// The argument vector for one-time engine initialization: a placeholder
/// program name, then the flags that keep WebAssembly compilation
/// synchronous and enable top-level `await`.
pub fn deno_init_args() -> (r: Vec<String>)
    ensures
        r@.len() == 3,
        r@[0]@ == ""@,
        r@[1]@ == "--no-wasm-async-compilation"@,
        r@[2]@ == "--harmony-top-level-await"@,
{
    let mut v: Vec<String> = Vec::new();
    v.push(String::from_str(""));
    v.push(String::from_str("--no-wasm-async-compilation"));
    v.push(String::from_str("--harmony-top-level-await"));
    v
}

/// The `Deno.core.print(value, isErr?)` dispatch: with two arguments a
/// truthy second argument selects stderr, otherwise stdout.  `print`
/// tolerates one or two arguments; anything else throws before this
/// decision.
pub fn print_decide(arg_count: usize, second_truthy: bool) -> (is_err: bool)
    requires
        1 <= arg_count <= 2,
    ensures
        is_err == (arg_count == 2 && second_truthy),
{
    arg_count == 2 && second_truthy
}

} // verus!
