//! Exception capture: engine diagnostics rendered as one canonical JSON
//! document.
//!
//! Given the data of an engine exception message — stringified message,
//! script origin, position, severity, and stack frames — the encoder
//! produces the exact JSON object the host deserializes.  The document's
//! shape is fixed: the spec functions below give it character by character,
//! and `lemma_exception_keys` states that its top-level keys are exactly the
//! canonical ones, in order.

use vstd::prelude::*;
use crate::json::{
    dec_int, json_array, json_bool, json_object, json_string, push_bool, push_dec_i32,
    push_json_string, render_array, render_object,
};

verus! {

/// One stack frame of an engine stack trace, as the encoder reports it.
/// `function_name` is absent for anonymous frames; `script_name` already
/// carries the `<unknown>` placeholder when the engine had none.
pub struct StackFrame {
    pub line: i32,
    pub column: i32,
    pub function_name: Option<String>,
    pub script_name: String,
    pub is_eval: bool,
    pub is_constructor: bool,
    pub is_wasm: bool,
}

/// Everything the encoder reads off an engine exception message.  `frames`
/// is `None` when the engine attached no stack trace; the document then
/// carries a single synthetic frame.
pub struct ExceptionInfo {
    pub message: String,
    pub script_resource_name: String,
    pub source_line: String,
    pub line_number: i32,
    pub start_position: i32,
    pub end_position: i32,
    pub error_level: i32,
    pub start_column: i32,
    pub end_column: i32,
    pub is_shared_cross_origin: bool,
    pub is_opaque: bool,
    pub frames: Option<Vec<StackFrame>>,
}

// ---------------------------------------------------------------------------
// Specification of the document
// ---------------------------------------------------------------------------

/// The members of one reported stack frame, in order; `functionName` is
/// present exactly when the frame has a function name.
pub open spec fn frame_members(f: StackFrame) -> Seq<(Seq<char>, Seq<char>)> {
    let head = seq![
        ("line"@, dec_int(f.line as int)),
        ("column"@, dec_int(f.column as int)),
    ];
    let tail = seq![
        ("scriptName"@, json_string(f.script_name@)),
        ("isEval"@, json_bool(f.is_eval)),
        ("isConstructor"@, json_bool(f.is_constructor)),
        ("isWasm"@, json_bool(f.is_wasm)),
    ];
    match f.function_name {
        Some(name) => head + seq![("functionName"@, json_string(name@))] + tail,
        None => head + tail,
    }
}

pub open spec fn frame_json(f: StackFrame) -> Seq<char> {
    json_object(frame_members(f))
}

/// The single frame reported when the engine attached no stack trace.
pub open spec fn synthetic_frame_members(e: ExceptionInfo) -> Seq<(Seq<char>, Seq<char>)> {
    seq![
        ("scriptResourceName"@, json_string(e.script_resource_name@)),
        ("line"@, dec_int(e.line_number as int)),
        ("column"@, dec_int(e.start_column as int)),
    ]
}

pub open spec fn synthetic_frame_json(e: ExceptionInfo) -> Seq<char> {
    json_object(synthetic_frame_members(e))
}

/// The `frames` member: every trace frame in order, or the one synthetic
/// frame.
pub open spec fn frames_json(e: ExceptionInfo) -> Seq<char> {
    match e.frames {
        Some(fs) => json_array(fs@.map_values(|f: StackFrame| frame_json(f))),
        None => json_array(seq![synthetic_frame_json(e)]),
    }
}

/// The top-level members of the canonical document, in order.
pub open spec fn exception_members(e: ExceptionInfo) -> Seq<(Seq<char>, Seq<char>)> {
    seq![
        ("message"@, json_string(e.message@)),
        ("scriptResourceName"@, json_string(e.script_resource_name@)),
        ("sourceLine"@, json_string(e.source_line@)),
        ("lineNumber"@, dec_int(e.line_number as int)),
        ("startPosition"@, dec_int(e.start_position as int)),
        ("endPosition"@, dec_int(e.end_position as int)),
        ("errorLevel"@, dec_int(e.error_level as int)),
        ("startColumn"@, dec_int(e.start_column as int)),
        ("endColumn"@, dec_int(e.end_column as int)),
        ("isSharedCrossOrigin"@, json_bool(e.is_shared_cross_origin)),
        ("isOpaque"@, json_bool(e.is_opaque)),
        ("frames"@, frames_json(e)),
    ]
}

/// The canonical JSON document for an exception.
pub open spec fn exception_json(e: ExceptionInfo) -> Seq<char> {
    json_object(exception_members(e))
}

/// The canonical top-level key list.
pub open spec fn exception_keys() -> Seq<Seq<char>> {
    seq![
        "message"@,
        "scriptResourceName"@,
        "sourceLine"@,
        "lineNumber"@,
        "startPosition"@,
        "endPosition"@,
        "errorLevel"@,
        "startColumn"@,
        "endColumn"@,
        "isSharedCrossOrigin"@,
        "isOpaque"@,
        "frames"@,
    ]
}

/// Law: whatever the exception was, the document's top-level keys are
/// exactly the canonical ones, in the canonical order.
pub proof fn lemma_exception_keys(e: ExceptionInfo)
    ensures
        exception_members(e).map_values(|m: (Seq<char>, Seq<char>)| m.0) == exception_keys(),
{
    assert(exception_members(e).map_values(|m: (Seq<char>, Seq<char>)| m.0) =~= exception_keys());
}

// ---------------------------------------------------------------------------
// Executable encoder
// ---------------------------------------------------------------------------

/// The JSON string literal denoting `s`.
pub fn render_json_str(s: &str) -> (r: String)
    ensures
        r@ == json_string(s@),
{
    let mut out = String::new();
    push_json_string(&mut out, s);
    assert(out@ =~= json_string(s@));
    out
}

/// The decimal numeral of `n`.
pub fn render_dec_i32(n: i32) -> (r: String)
    ensures
        r@ == dec_int(n as int),
{
    let mut out = String::new();
    push_dec_i32(&mut out, n);
    assert(out@ =~= dec_int(n as int));
    out
}

/// `true` or `false`.
pub fn render_bool(b: bool) -> (r: String)
    ensures
        r@ == json_bool(b),
{
    let mut out = String::new();
    push_bool(&mut out, b);
    assert(out@ =~= json_bool(b));
    out
}

/// One stack frame as a JSON object.
pub fn encode_frame(f: &StackFrame) -> (r: String)
    ensures
        r@ == frame_json(*f),
{
    let mut pairs: Vec<(String, String)> = Vec::new();
    pairs.push((String::from_str("line"), render_dec_i32(f.line)));
    pairs.push((String::from_str("column"), render_dec_i32(f.column)));
    match &f.function_name {
        Some(name) => {
            pairs.push((String::from_str("functionName"), render_json_str(name.as_str())));
        },
        None => {},
    }
    pairs.push((String::from_str("scriptName"), render_json_str(f.script_name.as_str())));
    pairs.push((String::from_str("isEval"), render_bool(f.is_eval)));
    pairs.push((String::from_str("isConstructor"), render_bool(f.is_constructor)));
    pairs.push((String::from_str("isWasm"), render_bool(f.is_wasm)));
    let r = render_object(&pairs);
    proof {
        assert(pairs@.map_values(|p: (String, String)| (p.0@, p.1@)) =~= frame_members(*f));
    }
    r
}

/// The synthetic frame used when no stack trace exists.
fn encode_synthetic_frame(e: &ExceptionInfo) -> (r: String)
    ensures
        r@ == synthetic_frame_json(*e),
{
    let mut pairs: Vec<(String, String)> = Vec::new();
    pairs.push((
        String::from_str("scriptResourceName"),
        render_json_str(e.script_resource_name.as_str()),
    ));
    pairs.push((String::from_str("line"), render_dec_i32(e.line_number)));
    pairs.push((String::from_str("column"), render_dec_i32(e.start_column)));
    let r = render_object(&pairs);
    proof {
        assert(pairs@.map_values(|p: (String, String)| (p.0@, p.1@)) =~= synthetic_frame_members(
            *e,
        ));
    }
    r
}

/// The `frames` member of the document.
fn encode_frames(e: &ExceptionInfo) -> (r: String)
    ensures
        r@ == frames_json(*e),
{
    match &e.frames {
        Some(fs) => {
            let mut items: Vec<String> = Vec::new();
            let mut i: usize = 0;
            while i < fs.len()
                invariant
                    i <= fs.len(),
                    items@.len() == i,
                    forall|j: int| 0 <= j < i as int ==> items@[j]@ == frame_json(fs@[j]),
                decreases fs.len() - i,
            {
                let rendered = encode_frame(&fs[i]);
                items.push(rendered);
                i = i + 1;
            }
            let r = render_array(&items);
            proof {
                let lhs = items@.map_values(|s: String| s@);
                let rhs = fs@.map_values(|f: StackFrame| frame_json(f));
                assert forall|j: int| 0 <= j < lhs.len() implies lhs[j] == rhs[j] by {
                    assert(items@[j]@ == frame_json(fs@[j]));
                }
                assert(lhs =~= rhs);
            }
            r
        },
        None => {
            let mut items: Vec<String> = Vec::new();
            items.push(encode_synthetic_frame(e));
            let r = render_array(&items);
            proof {
                assert(items@.map_values(|s: String| s@) =~= seq![synthetic_frame_json(*e)]);
            }
            r
        },
    }
}

/// The canonical JSON document for an exception, exactly as
/// `exception_json` specifies it.
pub fn encode_exception_json(e: &ExceptionInfo) -> (r: String)
    ensures
        r@ == exception_json(*e),
{
    let mut pairs: Vec<(String, String)> = Vec::new();
    pairs.push((String::from_str("message"), render_json_str(e.message.as_str())));
    pairs.push((
        String::from_str("scriptResourceName"),
        render_json_str(e.script_resource_name.as_str()),
    ));
    pairs.push((String::from_str("sourceLine"), render_json_str(e.source_line.as_str())));
    pairs.push((String::from_str("lineNumber"), render_dec_i32(e.line_number)));
    pairs.push((String::from_str("startPosition"), render_dec_i32(e.start_position)));
    pairs.push((String::from_str("endPosition"), render_dec_i32(e.end_position)));
    pairs.push((String::from_str("errorLevel"), render_dec_i32(e.error_level)));
    pairs.push((String::from_str("startColumn"), render_dec_i32(e.start_column)));
    pairs.push((String::from_str("endColumn"), render_dec_i32(e.end_column)));
    pairs.push((
        String::from_str("isSharedCrossOrigin"),
        render_bool(e.is_shared_cross_origin),
    ));
    pairs.push((String::from_str("isOpaque"), render_bool(e.is_opaque)));
    pairs.push((String::from_str("frames"), encode_frames(e)));
    let r = render_object(&pairs);
    proof {
        assert(pairs@.map_values(|p: (String, String)| (p.0@, p.1@)) =~= exception_members(*e));
    }
    r
}

} // verus!
