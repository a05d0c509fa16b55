//! The message bridge: the `send`/`recv`/`respond` protocol that carries
//! `(op_id, control, zero_copy)` tuples between JS and the host.
//!
//! A synchronous `send` opens a reply channel (`current_args_`); `respond`
//! either answers through that channel or, asynchronously, invokes the JS
//! receiver installed by `Deno.core.recv`.  The decisions are verified
//! here; the host glue performs the engine calls each decision names.

use vstd::prelude::*;
use crate::buf::deno_buf;
use crate::isolate::DenoIsolate;

verus! {

/// The tag of one `send`/`recv` message exchange.
pub type OpId = u32;

/// The bytes JS receives when a buffer is imported: a fresh typed array
/// with a copy of the contents, zero-length for the null buffer.
pub open spec fn spec_import_bytes(b: Option<Seq<u8>>) -> Seq<u8> {
    match b {
        Some(s) => s,
        None => Seq::empty(),
    }
}

/// The value a synchronous `respond` sets as the in-flight `send`'s return
/// value: the imported buffer for a non-empty buffer, nothing otherwise.
pub open spec fn sync_return_payload(b: Option<Seq<u8>>) -> Option<Seq<u8>> {
    match b {
        Some(s) => if s.len() > 0 {
            Some(s)
        } else {
            None
        },
        None => None,
    }
}

/// The arguments of an asynchronous `recv` invocation: `(op_id, imported
/// bytes)` for a non-null buffer, no arguments at all for the null buffer.
pub open spec fn async_recv_args(op_id: OpId, b: Option<Seq<u8>>) -> Option<(OpId, Seq<u8>)> {
    match b {
        Some(s) => Some((op_id, s)),
        None => None,
    }
}

/// A violation of the bridge protocol, surfaced to JS at the offending
/// call site.
#[derive(PartialEq, Eq, Structural, Debug)]
pub enum ProtocolViolation {
    /// A second `send` while a synchronous `send` was still in flight.
    ReentrantSend,
}

/// What `respond` decided: the engine work the host glue must perform.
pub enum RespondAction {
    /// Synchronous mode: set this value (an imported buffer, or nothing)
    /// as the return value of the in-flight `send`.
    SyncReturn(Option<Vec<u8>>),
    /// Asynchronous mode: call the registered JS receiver with these
    /// arguments (or with none).
    CallRecv(Option<(OpId, Vec<u8>)>),
    /// Asynchronous mode without a registered receiver: nothing to call;
    /// the failure is recorded in the last-exception slot.
    RecvNotRegistered,
}

pub open spec fn opt_bytes_view(p: Option<Vec<u8>>) -> Option<Seq<u8>> {
    match p {
        Some(v) => Some(v@),
        None => None,
    }
}

pub open spec fn opt_args_view(p: Option<(OpId, Vec<u8>)>) -> Option<(OpId, Seq<u8>)> {
    match p {
        Some(a) => Some((a.0, a.1@)),
        None => None,
    }
}

/// Import a buffer for JS: a fresh copy of its bytes.  An empty or null
/// buffer yields a zero-length array, never nothing.
pub fn deno_import_buf(buf: &deno_buf) -> (r: Vec<u8>)
    ensures
        r@ == spec_import_bytes(buf@),
{
    let src = buf.bytes();
    let n = src.len();
    let mut out: Vec<u8> = Vec::new();
    let mut j: usize = 0;
    while j < n
        invariant
            j <= n,
            n == src@.len(),
            out@ == src@.subrange(0, j as int),
        decreases n - j,
    {
        out.push(src[j]);
        proof {
            assert(out@ =~= src@.subrange(0, j as int + 1));
        }
        j = j + 1;
    }
    proof {
        assert(src@.subrange(0, n as int) =~= src@);
    }
    out
}

/// Open the synchronous reply channel for one `send`.  A second `send`
/// while one is in flight is the protocol violation the bridge must raise.
pub fn send_begin(i: &mut DenoIsolate) -> (r: Result<(), ProtocolViolation>)
    ensures
        r is Ok <==> !old(i).current_args_,
        r is Ok ==> *final(i) == (DenoIsolate { current_args_: true, ..*old(i) }),
        r is Err ==> *final(i) == *old(i) && r->Err_0 == ProtocolViolation::ReentrantSend,
{
    if i.current_args_ {
        Err(ProtocolViolation::ReentrantSend)
    } else {
        i.current_args_ = true;
        Ok(())
    }
}

/// Close the reply channel after the host's receive callback returned.  If
/// no synchronous `respond` consumed it, the op is asynchronous and the
/// channel is simply cleared.
pub fn send_finish(i: &mut DenoIsolate)
    ensures
        *final(i) == (DenoIsolate { current_args_: false, ..*old(i) }),
{
    i.current_args_ = false;
}

/// Install the JS async-response callback.  Calling it twice throws
/// `Deno.core.recv already called.` at the JS call site.
pub fn register_recv(i: &mut DenoIsolate) -> (r: Result<(), String>)
    ensures
        r is Ok <==> !old(i).recv_registered_,
        r is Ok ==> *final(i) == (DenoIsolate { recv_registered_: true, ..*old(i) }),
        r matches Err(m) ==> m@ == "Deno.core.recv already called."@ && *final(i) == *old(i),
{
    if i.recv_registered_ {
        Err(String::from_str("Deno.core.recv already called."))
    } else {
        i.recv_registered_ = true;
        Ok(())
    }
}

/// Answer one op.  With a `send` in flight this is the synchronous mode:
/// the buffer (if non-empty) becomes the `send`'s return value and the
/// channel closes; the `op_id` is not passed back.  Otherwise it is the
/// asynchronous mode: the registered receiver is to be called — within a
/// user-data scope the glue has entered — or, when none was registered,
/// the failure text is recorded in the last-exception slot.
pub fn deno_respond(i: &mut DenoIsolate, op_id: OpId, buf: &deno_buf) -> (r: RespondAction)
    ensures
        old(i).current_args_ ==> {
            &&& r is SyncReturn
            &&& opt_bytes_view(r->SyncReturn_0) == sync_return_payload(buf@)
            &&& *final(i) == (DenoIsolate { current_args_: false, ..*old(i) })
        },
        !old(i).current_args_ && old(i).recv_registered_ ==> {
            &&& r is CallRecv
            &&& opt_args_view(r->CallRecv_0) == async_recv_args(op_id, buf@)
            &&& *final(i) == *old(i)
        },
        !old(i).current_args_ && !old(i).recv_registered_ ==> {
            &&& r is RecvNotRegistered
            &&& final(i).last_exception_ is Some
            &&& final(i).last_exception_->Some_0@ == "Deno.core.recv has not been called."@
            &&& *final(i) == (DenoIsolate {
                last_exception_: final(i).last_exception_,
                ..*old(i)
            })
        },
{
    if i.current_args_ {
        // Synchronous response.
        let payload = if !buf.is_null() && buf.len() > 0 {
            Some(deno_import_buf(buf))
        } else {
            None
        };
        i.current_args_ = false;
        RespondAction::SyncReturn(payload)
    } else if i.recv_registered_ {
        // Asynchronous response through the JS receiver.
        let args = if !buf.is_null() {
            Some((op_id, deno_import_buf(buf)))
        } else {
            None
        };
        RespondAction::CallRecv(args)
    } else {
        i.last_exception_ = Some(String::from_str("Deno.core.recv has not been called."));
        RespondAction::RecvNotRegistered
    }
}

/// What the `Deno.core.shared` getter does: nothing for an empty
/// descriptor, else a lazily created `SharedArrayBuffer` aliasing the
/// descriptor, cached after the first access.
#[derive(PartialEq, Eq, Structural, Debug)]
pub enum SharedGetterAction {
    /// The descriptor is null: the getter returns `undefined`.
    NoValue,
    /// First access: create the aliasing `SharedArrayBuffer`, cache its
    /// handle, and return it.
    CreateAndCache,
    /// The cached handle is returned.
    UseCached,
}

pub fn shared_getter(i: &mut DenoIsolate) -> (r: SharedGetterAction)
    ensures
        old(i).shared_@ is None ==> r == SharedGetterAction::NoValue && *final(i) == *old(i),
        old(i).shared_@ is Some && !old(i).shared_ab_created_ ==> {
            &&& r == SharedGetterAction::CreateAndCache
            &&& *final(i) == (DenoIsolate { shared_ab_created_: true, ..*old(i) })
        },
        old(i).shared_@ is Some && old(i).shared_ab_created_ ==> r == SharedGetterAction::UseCached
            && *final(i) == *old(i),
{
    if i.shared_.is_null() {
        SharedGetterAction::NoValue
    } else if !i.shared_ab_created_ {
        i.shared_ab_created_ = true;
        SharedGetterAction::CreateAndCache
    } else {
        SharedGetterAction::UseCached
    }
}

/// Law (round-trip bytes): importing a buffer hands JS exactly the
/// buffer's bytes; a synchronous response with a non-empty buffer returns
/// exactly those bytes to the in-flight `send`, and an asynchronous
/// response hands the receiver the op ID with exactly those bytes.
pub proof fn lemma_round_trip_bytes(op_id: OpId, bytes: Seq<u8>)
    ensures
        spec_import_bytes(Some(bytes)) == bytes,
        bytes.len() > 0 ==> sync_return_payload(Some(bytes)) == Some(bytes),
        async_recv_args(op_id, Some(bytes)) == Some((op_id, bytes)),
{
}

} // verus!
