//! Construction of JSON text, with an exact character-level specification.
//!
//! The exception encoder serializes engine diagnostics into a canonical JSON
//! document for the host.  The spec functions here define that text: decimal
//! numerals, JSON string escaping, and comma-joined objects and arrays.  The
//! executable builders are proved to produce exactly the specified sequence
//! of characters.

use vstd::prelude::*;

verus! {

// ---------------------------------------------------------------------------
// Specification: decimal numerals
// ---------------------------------------------------------------------------

pub open spec fn digit_char(d: int) -> char
    recommends
        0 <= d < 10,
{
    if d == 0 {
        '0'
    } else if d == 1 {
        '1'
    } else if d == 2 {
        '2'
    } else if d == 3 {
        '3'
    } else if d == 4 {
        '4'
    } else if d == 5 {
        '5'
    } else if d == 6 {
        '6'
    } else if d == 7 {
        '7'
    } else if d == 8 {
        '8'
    } else {
        '9'
    }
}

/// The decimal numeral of a natural number, most significant digit first.
pub open spec fn dec_nat(n: nat) -> Seq<char>
    decreases n,
{
    if n < 10 {
        seq![digit_char(n as int)]
    } else {
        dec_nat(n / 10) + seq![digit_char((n % 10) as int)]
    }
}

/// The decimal numeral of an integer: a minus sign for negative values.
pub open spec fn dec_int(n: int) -> Seq<char> {
    if n < 0 {
        seq!['-'] + dec_nat((-n) as nat)
    } else {
        dec_nat(n as nat)
    }
}

// ---------------------------------------------------------------------------
// Specification: JSON strings, booleans, objects, arrays
// ---------------------------------------------------------------------------

pub open spec fn hex_digit_char(d: int) -> char
    recommends
        0 <= d < 16,
{
    if d < 10 {
        digit_char(d)
    } else if d == 10 {
        'a'
    } else if d == 11 {
        'b'
    } else if d == 12 {
        'c'
    } else if d == 13 {
        'd'
    } else if d == 14 {
        'e'
    } else {
        'f'
    }
}

/// How one character appears inside a JSON string literal: quote and
/// backslash get a backslash escape, control characters get their short
/// escape where one exists and a `\u00..` escape otherwise, and every other
/// character stands for itself.
pub open spec fn json_escape_char(c: char) -> Seq<char> {
    let n = c as u32;
    if n == 0x22 {
        seq!['\\', '"']
    } else if n == 0x5c {
        seq!['\\', '\\']
    } else if n == 0x08 {
        seq!['\\', 'b']
    } else if n == 0x09 {
        seq!['\\', 't']
    } else if n == 0x0a {
        seq!['\\', 'n']
    } else if n == 0x0c {
        seq!['\\', 'f']
    } else if n == 0x0d {
        seq!['\\', 'r']
    } else if n < 0x20 {
        seq!['\\', 'u', '0', '0', hex_digit_char(n as int / 16), hex_digit_char(n as int % 16)]
    } else {
        seq![c]
    }
}

pub open spec fn json_escape(s: Seq<char>) -> Seq<char>
    decreases s.len(),
{
    if s.len() == 0 {
        Seq::empty()
    } else {
        json_escape_char(s[0]) + json_escape(s.drop_first())
    }
}

/// A JSON string literal: the escaped text between double quotes.
pub open spec fn json_string(s: Seq<char>) -> Seq<char> {
    seq!['"'] + json_escape(s) + seq!['"']
}

pub open spec fn json_bool(b: bool) -> Seq<char> {
    if b {
        seq!['t', 'r', 'u', 'e']
    } else {
        seq!['f', 'a', 'l', 's', 'e']
    }
}

/// One object member: a quoted key, a colon, and the already-rendered value.
pub open spec fn json_member(m: (Seq<char>, Seq<char>)) -> Seq<char> {
    json_string(m.0) + seq![':'] + m.1
}

/// Members joined by commas.
pub open spec fn json_members(ms: Seq<(Seq<char>, Seq<char>)>) -> Seq<char>
    decreases ms.len(),
{
    if ms.len() == 0 {
        Seq::empty()
    } else if ms.len() == 1 {
        json_member(ms[0])
    } else {
        json_member(ms[0]) + seq![','] + json_members(ms.drop_first())
    }
}

/// A JSON object over the given members, in order, without whitespace.
pub open spec fn json_object(ms: Seq<(Seq<char>, Seq<char>)>) -> Seq<char> {
    seq!['{'] + json_members(ms) + seq!['}']
}

/// Already-rendered items joined by commas.
pub open spec fn json_items(items: Seq<Seq<char>>) -> Seq<char>
    decreases items.len(),
{
    if items.len() == 0 {
        Seq::empty()
    } else if items.len() == 1 {
        items[0]
    } else {
        items[0] + seq![','] + json_items(items.drop_first())
    }
}

/// A JSON array over the given items, in order, without whitespace.
pub open spec fn json_array(items: Seq<Seq<char>>) -> Seq<char> {
    seq!['['] + json_items(items) + seq![']']
}

// ---------------------------------------------------------------------------
// Lemmas about the specification
// ---------------------------------------------------------------------------

/// Escaping distributes over concatenation.
pub proof fn lemma_json_escape_concat(a: Seq<char>, b: Seq<char>)
    ensures
        json_escape(a + b) == json_escape(a) + json_escape(b),
    decreases a.len(),
{
    if a.len() == 0 {
        assert(a + b =~= b);
        assert(json_escape(a) + json_escape(b) =~= json_escape(b));
    } else {
        assert((a + b).drop_first() =~= a.drop_first() + b);
        assert((a + b)[0] == a[0]);
        lemma_json_escape_concat(a.drop_first(), b);
        assert(json_escape(a + b) =~= json_escape(a) + json_escape(b));
    }
}

/// Law: escaped text never contains a raw control character, whatever the
/// input held — the canonical document is always a single line of
/// printable JSON text.
pub proof fn lemma_json_escape_no_controls(s: Seq<char>)
    ensures
        forall|i: int| 0 <= i < json_escape(s).len() ==> (#[trigger] json_escape(s)[i]) as u32
            >= 0x20,
    decreases s.len(),
{
    if s.len() > 0 {
        lemma_json_escape_no_controls(s.drop_first());
        let head = json_escape_char(s[0]);
        assert forall|i: int| 0 <= i < head.len() implies (#[trigger] head[i]) as u32 >= 0x20 by {
            let n = s[0] as u32;
            if n == 0x22 || n == 0x5c || n == 0x08 || n == 0x09 || n == 0x0a || n == 0x0c || n
                == 0x0d {
            } else if n < 0x20 {
                assert(hex_digit_char(n as int / 16) as u32 >= 0x20);
                assert(hex_digit_char(n as int % 16) as u32 >= 0x20);
            } else {
            }
        }
        assert forall|i: int| 0 <= i < json_escape(s).len() implies (#[trigger] json_escape(
            s,
        )[i]) as u32 >= 0x20 by {
            if i < head.len() {
                assert(json_escape(s)[i] == head[i]);
            } else {
                assert(json_escape(s)[i] == json_escape(s.drop_first())[i - head.len()]);
            }
        }
    }
}

proof fn lemma_hex_digit_char_injective(d1: int, d2: int)
    requires
        0 <= d1 < 16,
        0 <= d2 < 16,
        hex_digit_char(d1) == hex_digit_char(d2),
    ensures
        d1 == d2,
{
}

/// Two escaped texts that begin with different characters differ: the
/// escape of the first character determines it.
proof fn lemma_escape_first_char(x: char, y: char, tx: Seq<char>, ty: Seq<char>)
    requires
        json_escape_char(x) + tx == json_escape_char(y) + ty,
    ensures
        x == y,
{
    let px = json_escape_char(x);
    let py = json_escape_char(y);
    let nx = x as u32;
    let ny = y as u32;
    assert((px + tx)[0] == px[0]);
    assert((py + ty)[0] == py[0]);
    let x_escaped = nx == 0x22 || nx == 0x5c || nx < 0x20;
    let y_escaped = ny == 0x22 || ny == 0x5c || ny < 0x20;
    if !x_escaped && !y_escaped {
        // Both stand for themselves.
    } else if x_escaped && y_escaped {
        // Both begin with a backslash; the second character, or for `\u00..`
        // the hex digits, pin the original character down.
        assert(px.len() >= 2);
        assert(py.len() >= 2);
        assert((px + tx)[1] == px[1]);
        assert((py + ty)[1] == py[1]);
        let x_uni = nx < 0x20 && nx != 0x08 && nx != 0x09 && nx != 0x0a && nx != 0x0c && nx
            != 0x0d;
        let y_uni = ny < 0x20 && ny != 0x08 && ny != 0x09 && ny != 0x0a && ny != 0x0c && ny
            != 0x0d;
        if x_uni && y_uni {
            assert(px.len() == 6);
            assert((px + tx)[4] == px[4]);
            assert((py + ty)[4] == py[4]);
            assert((px + tx)[5] == px[5]);
            assert((py + ty)[5] == py[5]);
            lemma_hex_digit_char_injective(nx as int / 16, ny as int / 16);
            lemma_hex_digit_char_injective(nx as int % 16, ny as int % 16);
            vstd::arithmetic::div_mod::lemma_fundamental_div_mod(nx as int, 16);
            vstd::arithmetic::div_mod::lemma_fundamental_div_mod(ny as int, 16);
            assert(nx == ny);
        } else {
            // Short escapes: the letter after the backslash is unique to
            // each escaped character, and is never `u`.
            assert(nx == ny);
        }
    } else {
        // One begins with a backslash, the other stands for itself and is
        // not a backslash: their first characters differ.
        assert(px[0] == py[0]);
        if x_escaped {
            assert(px[0] == '\\');
            assert(py[0] == y);
            assert(y as u32 == '\\' as u32);
            assert(false);
        } else {
            assert(py[0] == '\\');
            assert(px[0] == x);
            assert(x as u32 == '\\' as u32);
            assert(false);
        }
    }
}

/// Law: escaping is lossless — two texts with the same escaped form are
/// the same text, so the host can always recover the original strings of
/// the document.
pub proof fn lemma_json_escape_injective(a: Seq<char>, b: Seq<char>)
    requires
        json_escape(a) == json_escape(b),
    ensures
        a == b,
    decreases a.len(),
{
    if a.len() == 0 && b.len() == 0 {
        assert(a =~= b);
    } else if a.len() == 0 {
        assert(json_escape(a).len() == 0);
        assert(json_escape(b) == json_escape_char(b[0]) + json_escape(b.drop_first()));
        assert(json_escape_char(b[0]).len() >= 1);
        assert(false);
    } else if b.len() == 0 {
        assert(json_escape(b).len() == 0);
        assert(json_escape(a) == json_escape_char(a[0]) + json_escape(a.drop_first()));
        assert(json_escape_char(a[0]).len() >= 1);
        assert(false);
    } else {
        let pa = json_escape_char(a[0]);
        let pb = json_escape_char(b[0]);
        let ta = json_escape(a.drop_first());
        let tb = json_escape(b.drop_first());
        lemma_escape_first_char(a[0], b[0], ta, tb);
        assert(pa == pb);
        assert(ta =~= tb) by {
            assert((pa + ta).len() == (pb + tb).len());
            assert forall|i: int| 0 <= i < ta.len() implies ta[i] == tb[i] by {
                assert((pa + ta)[pa.len() + i] == ta[i]);
                assert((pb + tb)[pb.len() + i] == tb[i]);
            }
        }
        lemma_json_escape_injective(a.drop_first(), b.drop_first());
        assert(a =~= b) by {
            assert forall|i: int| 0 <= i < a.len() implies a[i] == b[i] by {
                if i > 0 {
                    assert(a.drop_first()[i - 1] == b.drop_first()[i - 1]);
                }
            }
        }
    }
}

/// Law: two different texts never render to the same JSON string literal,
/// so every string of the canonical document can be recovered exactly.
pub proof fn lemma_json_string_injective(a: Seq<char>, b: Seq<char>)
    requires
        json_string(a) == json_string(b),
    ensures
        a == b,
{
    let ea = json_escape(a);
    let eb = json_escape(b);
    assert(ea =~= eb) by {
        assert(json_string(a).len() == 2 + ea.len());
        assert(json_string(b).len() == 2 + eb.len());
        assert(ea.len() == eb.len());
        assert forall|i: int| 0 <= i < ea.len() implies ea[i] == eb[i] by {
            assert((seq!['"'] + ea)[1 + i] == ea[i]);
            assert((seq!['"'] + ea + seq!['"'])[1 + i] == (seq!['"'] + ea)[1 + i]);
            assert((seq!['"'] + eb)[1 + i] == eb[i]);
            assert((seq!['"'] + eb + seq!['"'])[1 + i] == (seq!['"'] + eb)[1 + i]);
        }
    }
    lemma_json_escape_injective(a, b);
}

/// Escaping one more character extends the escaped prefix.
pub proof fn lemma_json_escape_snoc(s: Seq<char>, i: int)
    requires
        0 <= i < s.len(),
    ensures
        json_escape(s.subrange(0, i + 1)) == json_escape(s.subrange(0, i)) + json_escape_char(
            s[i],
        ),
{
    let one = s.subrange(i, i + 1);
    assert(s.subrange(0, i + 1) =~= s.subrange(0, i) + one);
    lemma_json_escape_concat(s.subrange(0, i), one);
    assert(one.drop_first() =~= Seq::<char>::empty());
    assert(json_escape(Seq::<char>::empty()) =~= Seq::<char>::empty());
    assert(json_escape(one) =~= json_escape_char(s[i]) + json_escape(one.drop_first()));
    assert(json_escape(one) =~= json_escape_char(s[i]));
}

/// Appending a member to a non-degenerate member list appends a comma and
/// the member's text.
pub proof fn lemma_json_members_snoc(ms: Seq<(Seq<char>, Seq<char>)>, m: (Seq<char>, Seq<char>))
    ensures
        ms.len() == 0 ==> json_members(ms.push(m)) == json_member(m),
        ms.len() > 0 ==> json_members(ms.push(m)) == json_members(ms) + seq![','] + json_member(m),
    decreases ms.len(),
{
    if ms.len() == 0 {
        assert(ms.push(m)[0] == m);
        assert(json_members(ms.push(m)) =~= json_member(m));
    } else {
        assert(ms.push(m).drop_first() =~= ms.drop_first().push(m));
        lemma_json_members_snoc(ms.drop_first(), m);
        assert(json_members(ms.push(m)) =~= json_members(ms) + seq![','] + json_member(m));
    }
}

/// The array analogue of `lemma_json_members_snoc`.
pub proof fn lemma_json_items_snoc(items: Seq<Seq<char>>, it: Seq<char>)
    ensures
        items.len() == 0 ==> json_items(items.push(it)) == it,
        items.len() > 0 ==> json_items(items.push(it)) == json_items(items) + seq![','] + it,
    decreases items.len(),
{
    if items.len() == 0 {
        assert(items.push(it)[0] == it);
        assert(json_items(items.push(it)) =~= it);
    } else {
        assert(items.push(it).drop_first() =~= items.drop_first().push(it));
        lemma_json_items_snoc(items.drop_first(), it);
        assert(json_items(items.push(it)) =~= json_items(items) + seq![','] + it);
    }
}

// ---------------------------------------------------------------------------
// Executable builders
// ---------------------------------------------------------------------------

/// Append one decimal digit.
fn push_digit(out: &mut String, d: u32)
    requires
        d < 10,
    ensures
        final(out)@ == old(out)@ + seq![digit_char(d as int)],
{
    proof {
        reveal_strlit("0");
        reveal_strlit("1");
        reveal_strlit("2");
        reveal_strlit("3");
        reveal_strlit("4");
        reveal_strlit("5");
        reveal_strlit("6");
        reveal_strlit("7");
        reveal_strlit("8");
        reveal_strlit("9");
    }
    if d == 0 {
        out.append("0");
    } else if d == 1 {
        out.append("1");
    } else if d == 2 {
        out.append("2");
    } else if d == 3 {
        out.append("3");
    } else if d == 4 {
        out.append("4");
    } else if d == 5 {
        out.append("5");
    } else if d == 6 {
        out.append("6");
    } else if d == 7 {
        out.append("7");
    } else if d == 8 {
        out.append("8");
    } else {
        out.append("9");
    }
    assert(final(out)@ =~= old(out)@ + seq![digit_char(d as int)]);
}

/// Append one lowercase hexadecimal digit.
fn push_hex_digit(out: &mut String, d: u32)
    requires
        d < 16,
    ensures
        final(out)@ == old(out)@ + seq![hex_digit_char(d as int)],
{
    if d < 10 {
        push_digit(out, d);
    } else {
        proof {
            reveal_strlit("a");
            reveal_strlit("b");
            reveal_strlit("c");
            reveal_strlit("d");
            reveal_strlit("e");
            reveal_strlit("f");
        }
        if d == 10 {
            out.append("a");
        } else if d == 11 {
            out.append("b");
        } else if d == 12 {
            out.append("c");
        } else if d == 13 {
            out.append("d");
        } else if d == 14 {
            out.append("e");
        } else {
            out.append("f");
        }
        assert(final(out)@ =~= old(out)@ + seq![hex_digit_char(d as int)]);
    }
}

/// Append the decimal numeral of `n`.
pub fn push_dec_u32(out: &mut String, n: u32)
    ensures
        final(out)@ == old(out)@ + dec_nat(n as nat),
    decreases n,
{
    if n >= 10 {
        push_dec_u32(out, n / 10);
    }
    push_digit(out, n % 10);
    assert(final(out)@ =~= old(out)@ + dec_nat(n as nat));
}

/// Append the decimal numeral of `n`, with a minus sign when negative.
pub fn push_dec_i32(out: &mut String, n: i32)
    ensures
        final(out)@ == old(out)@ + dec_int(n as int),
{
    if n < 0 {
        proof {
            reveal_strlit("-");
        }
        out.append("-");
        let wide: i64 = n as i64;
        let mag: u32 = (-wide) as u32;
        assert(mag as nat == (-(n as int)) as nat);
        push_dec_u32(out, mag);
        assert(final(out)@ =~= old(out)@ + dec_int(n as int));
    } else {
        push_dec_u32(out, n as u32);
    }
}

/// Append `true` or `false`.
pub fn push_bool(out: &mut String, b: bool)
    ensures
        final(out)@ == old(out)@ + json_bool(b),
{
    if b {
        proof {
            reveal_strlit("true");
        }
        out.append("true");
        assert(final(out)@ =~= old(out)@ + json_bool(b));
    } else {
        proof {
            reveal_strlit("false");
        }
        out.append("false");
        assert(final(out)@ =~= old(out)@ + json_bool(b));
    }
}

/// Append the text of `s` with every character escaped as JSON requires.
fn push_escaped(out: &mut String, s: &str)
    ensures
        final(out)@ == old(out)@ + json_escape(s@),
{
    let n = s.unicode_len();
    let mut i: usize = 0;
    while i < n
        invariant
            i <= n,
            n == s@.len(),
            out@ == old(out)@ + json_escape(s@.subrange(0, i as int)),
        decreases n - i,
    {
        let c = s.get_char(i);
        let code = c as u32;
        if code == 0x22 {
            proof {
                reveal_strlit("\\\"");
            }
            out.append("\\\"");
        } else if code == 0x5c {
            proof {
                reveal_strlit("\\\\");
            }
            out.append("\\\\");
        } else if code == 0x08 {
            proof {
                reveal_strlit("\\b");
            }
            out.append("\\b");
        } else if code == 0x09 {
            proof {
                reveal_strlit("\\t");
            }
            out.append("\\t");
        } else if code == 0x0a {
            proof {
                reveal_strlit("\\n");
            }
            out.append("\\n");
        } else if code == 0x0c {
            proof {
                reveal_strlit("\\f");
            }
            out.append("\\f");
        } else if code == 0x0d {
            proof {
                reveal_strlit("\\r");
            }
            out.append("\\r");
        } else if code < 0x20 {
            proof {
                reveal_strlit("\\u00");
            }
            out.append("\\u00");
            push_hex_digit(out, code / 16);
            push_hex_digit(out, code % 16);
        } else {
            let piece = s.substring_char(i, i + 1);
            out.append(piece);
            assert(piece@ =~= seq![s@[i as int]]);
        }
        proof {
            lemma_json_escape_snoc(s@, i as int);
            assert(out@ =~= old(out)@ + json_escape(s@.subrange(0, i as int + 1)));
        }
        i = i + 1;
    }
    proof {
        assert(s@.subrange(0, n as int) =~= s@);
    }
}

/// Append the JSON string literal denoting `s`.
pub fn push_json_string(out: &mut String, s: &str)
    ensures
        final(out)@ == old(out)@ + json_string(s@),
{
    proof {
        reveal_strlit("\"");
    }
    out.append("\"");
    push_escaped(out, s);
    out.append("\"");
    assert(final(out)@ =~= old(out)@ + json_string(s@));
}

/// The JSON object whose members are the given key/value pairs: keys are
/// quoted and escaped, values are taken as already-rendered JSON text.
pub fn render_object(pairs: &Vec<(String, String)>) -> (r: String)
    ensures
        r@ == json_object(pairs@.map_values(|p: (String, String)| (p.0@, p.1@))),
{
    let ghost ms = pairs@.map_values(|p: (String, String)| (p.0@, p.1@));
    proof {
        reveal_strlit("{");
        reveal_strlit("}");
        reveal_strlit(",");
        reveal_strlit(":");
    }
    let mut out = String::new();
    out.append("{");
    proof {
        assert(out@ =~= seq!['{'] + json_members(ms.subrange(0, 0)));
    }
    let mut i: usize = 0;
    while i < pairs.len()
        invariant
            i <= pairs.len(),
            ms == pairs@.map_values(|p: (String, String)| (p.0@, p.1@)),
            ms.len() == pairs@.len(),
            out@ == seq!['{'] + json_members(ms.subrange(0, i as int)),
        decreases pairs.len() - i,
    {
        let ghost out0 = out@;
        if i > 0 {
            out.append(",");
        }
        let ghost out1 = out@;
        push_json_string(&mut out, pairs[i].0.as_str());
        out.append(":");
        out.append(pairs[i].1.as_str());
        proof {
            reveal_strlit("{");
            reveal_strlit(",");
            reveal_strlit(":");
            let msi = ms[i as int];
            assert(msi.0 == pairs@[i as int].0@);
            assert(msi.1 == pairs@[i as int].1@);
            assert(out@ =~= out1 + json_member(msi));
            lemma_json_members_snoc(ms.subrange(0, i as int), msi);
            assert(ms.subrange(0, i as int).push(msi) =~= ms.subrange(0, i as int + 1));
            if i == 0 {
                assert(out@ =~= seq!['{'] + json_members(ms.subrange(0, 1)));
            } else {
                assert(out1 =~= out0 + seq![',']);
                assert(out@ =~= seq!['{'] + json_members(ms.subrange(0, i as int + 1)));
            }
        }
        i = i + 1;
    }
    out.append("}");
    proof {
        assert(ms.subrange(0, ms.len() as int) =~= ms);
        assert(out@ =~= json_object(ms));
    }
    out
}

/// The JSON array whose items are the given already-rendered JSON texts.
pub fn render_array(items: &Vec<String>) -> (r: String)
    ensures
        r@ == json_array(items@.map_values(|s: String| s@)),
{
    let ghost its = items@.map_values(|s: String| s@);
    proof {
        reveal_strlit("[");
        reveal_strlit("]");
        reveal_strlit(",");
    }
    let mut out = String::new();
    out.append("[");
    proof {
        assert(out@ =~= seq!['['] + json_items(its.subrange(0, 0)));
    }
    let mut i: usize = 0;
    while i < items.len()
        invariant
            i <= items.len(),
            its == items@.map_values(|s: String| s@),
            its.len() == items@.len(),
            out@ == seq!['['] + json_items(its.subrange(0, i as int)),
        decreases items.len() - i,
    {
        let ghost out0 = out@;
        if i > 0 {
            out.append(",");
        }
        let ghost out1 = out@;
        out.append(items[i].as_str());
        proof {
            reveal_strlit("[");
            reveal_strlit(",");
            let iti = its[i as int];
            assert(iti == items@[i as int]@);
            assert(out@ =~= out1 + iti);
            lemma_json_items_snoc(its.subrange(0, i as int), iti);
            assert(its.subrange(0, i as int).push(iti) =~= its.subrange(0, i as int + 1));
            if i == 0 {
                assert(out@ =~= seq!['['] + json_items(its.subrange(0, 1)));
            } else {
                assert(out1 =~= out0 + seq![',']);
                assert(out@ =~= seq!['['] + json_items(its.subrange(0, i as int + 1)));
            }
        }
        i = i + 1;
    }
    out.append("]");
    proof {
        assert(its.subrange(0, its.len() as int) =~= its);
        assert(out@ =~= json_array(its));
    }
    out
}

} // verus!
