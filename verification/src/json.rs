//! A JSON document held as plain data, together with the specification of
//! its serialized forms (compact and pretty-printed).

use crate::strutil::push_char;
use vstd::prelude::*;
use vstd::string::{StrSliceExecFns, StringExecFns};

verus! {

/// A JSON value modeled as plain data. A number is kept as the literal text
/// its producer rendered it with, so serialization reproduces it exactly.
#[derive(Debug)]
pub enum JsonVal {
    Null,
    Bool(bool),
    Num(String),
    Str(String),
    Arr(Vec<JsonVal>),
    Obj(Vec<(String, JsonVal)>),
}

/// The lowercase hexadecimal digit for `d` (meaningful for `d < 16`).
pub open spec fn hex_char(d: nat) -> char {
    seq!['0', '1', '2', '3', '4', '5', '6', '7', '8', '9', 'a', 'b', 'c', 'd', 'e', 'f'][d as int]
}

/// How a single character appears inside a serialized JSON string:
/// quote and backslash get a backslash escape, the control characters with a
/// short escape use it, the remaining control characters become `\u00xx`,
/// and everything else stands for itself.
pub open spec fn escaped_char(c: char) -> Seq<char> {
    if c == '"' {
        seq!['\\', '"']
    } else if c == '\\' {
        seq!['\\', '\\']
    } else if c == '\u{0008}' {
        seq!['\\', 'b']
    } else if c == '\t' {
        seq!['\\', 't']
    } else if c == '\n' {
        seq!['\\', 'n']
    } else if c == '\u{000C}' {
        seq!['\\', 'f']
    } else if c == '\r' {
        seq!['\\', 'r']
    } else if (c as u32) < 0x20 {
        seq!['\\', 'u', '0', '0', hex_char((c as u32 / 16) as nat), hex_char((c as u32 % 16) as nat)]
    } else {
        seq![c]
    }
}

/// The body of a serialized JSON string: each character escaped in order.
pub open spec fn escaped(s: Seq<char>) -> Seq<char>
    decreases s.len(),
{
    if s.len() == 0 {
        Seq::empty()
    } else {
        escaped(s.drop_last()) + escaped_char(s.last())
    }
}

/// A serialized JSON string: the escaped body between double quotes.
pub open spec fn quoted(s: Seq<char>) -> Seq<char> {
    seq!['"'] + escaped(s) + seq!['"']
}

/// The compact serialization of a value: no spaces, fields and items
/// separated by commas.
pub open spec fn compact_spec(v: JsonVal) -> Seq<char>
    decreases v,
{
    match v {
        JsonVal::Null => "null"@,
        JsonVal::Bool(b) => if b {
            "true"@
        } else {
            "false"@
        },
        JsonVal::Num(s) => s@,
        JsonVal::Str(s) => quoted(s@),
        JsonVal::Arr(items) => seq!['['] + compact_items(items@) + seq![']'],
        JsonVal::Obj(entries) => seq!['{'] + compact_entries(entries@) + seq!['}'],
    }
}

/// The comma-separated compact serialization of array items.
pub open spec fn compact_items(items: Seq<JsonVal>) -> Seq<char>
    decreases items,
{
    if items.len() == 0 {
        Seq::empty()
    } else if items.len() == 1 {
        compact_spec(items.last())
    } else {
        compact_items(items.drop_last()) + seq![','] + compact_spec(items.last())
    }
}

/// The comma-separated compact serialization of object entries.
pub open spec fn compact_entries(entries: Seq<(String, JsonVal)>) -> Seq<char>
    decreases entries,
{
    if entries.len() == 0 {
        Seq::empty()
    } else if entries.len() == 1 {
        quoted(entries.last().0@) + seq![':'] + compact_spec(entries.last().1)
    } else {
        compact_entries(entries.drop_last()) + seq![','] + quoted(entries.last().0@) + seq![':']
            + compact_spec(entries.last().1)
    }
}

/// The pretty serialization of a value standing at indentation `ind`:
/// arrays and objects spread over lines, two further spaces per level,
/// scalars as in the compact form.
pub open spec fn pretty_spec(v: JsonVal, ind: Seq<char>) -> Seq<char>
    decreases v, 0int,
{
    match v {
        JsonVal::Arr(items) => if items@.len() == 0 {
            "[]"@
        } else {
            seq!['['] + pretty_items(items@, ind + "  "@) + seq!['\n'] + ind + seq![']']
        },
        JsonVal::Obj(entries) => pretty_obj(entries@, ind),
        _ => compact_spec(v),
    }
}

/// The pretty serialization of an object with the given entries, standing at
/// indentation `ind`.
pub open spec fn pretty_obj(entries: Seq<(String, JsonVal)>, ind: Seq<char>) -> Seq<char>
    decreases entries, 1int,
{
    if entries.len() == 0 {
        "{}"@
    } else {
        seq!['{'] + pretty_entries(entries, ind + "  "@) + seq!['\n'] + ind + seq!['}']
    }
}

/// The pretty serialization of array items: each on its own line at
/// indentation `ind`, separated by commas.
pub open spec fn pretty_items(items: Seq<JsonVal>, ind: Seq<char>) -> Seq<char>
    decreases items, 0int,
{
    if items.len() == 0 {
        Seq::empty()
    } else {
        let sep: Seq<char> = if items.len() == 1 {
            Seq::empty()
        } else {
            pretty_items(items.drop_last(), ind) + seq![',']
        };
        sep + seq!['\n'] + ind + pretty_spec(items.last(), ind)
    }
}

/// The pretty serialization of object entries: each `"key": value` on its own
/// line at indentation `ind`, separated by commas.
pub open spec fn pretty_entries(entries: Seq<(String, JsonVal)>, ind: Seq<char>) -> Seq<char>
    decreases entries, 0int,
{
    if entries.len() == 0 {
        Seq::empty()
    } else {
        let sep: Seq<char> = if entries.len() == 1 {
            Seq::empty()
        } else {
            pretty_entries(entries.drop_last(), ind) + seq![',']
        };
        sep + seq!['\n'] + ind + quoted(entries.last().0@) + ": "@
            + pretty_spec(entries.last().1, ind)
    }
}

/// The size of a value: one for each node of the tree. It serves as the
/// termination measure for the recursions that follow values found by name.
pub open spec fn weight(v: JsonVal) -> nat
    decreases v,
{
    match v {
        JsonVal::Arr(items) => 1 + weight_list(items@),
        JsonVal::Obj(entries) => 1 + weight_entries(entries@),
        _ => 1,
    }
}

/// The summed size of array items, one extra for each item.
pub open spec fn weight_list(items: Seq<JsonVal>) -> nat
    decreases items,
{
    if items.len() == 0 {
        0
    } else {
        weight(items[0]) + 1 + weight_list(items.drop_first())
    }
}

/// The summed size of the values of object entries, one extra for each entry.
pub open spec fn weight_entries(entries: Seq<(String, JsonVal)>) -> nat
    decreases entries,
{
    if entries.len() == 0 {
        0
    } else {
        weight(entries[0].1) + 1 + weight_entries(entries.drop_first())
    }
}

/// The value of the first entry named `name`, if the object has one.
pub open spec fn find_val(entries: Seq<(String, JsonVal)>, name: Seq<char>) -> Option<JsonVal>
    decreases entries.len(),
{
    if entries.len() == 0 {
        None
    } else if entries[0].0@ == name {
        Some(entries[0].1)
    } else {
        find_val(entries.drop_first(), name)
    }
}

/// Each array item weighs less than the whole list.
pub proof fn lemma_weight_list_elem(items: Seq<JsonVal>, i: int)
    requires
        0 <= i < items.len(),
    ensures
        weight(items[i]) < weight_list(items),
    decreases items.len(),
{
    if i > 0 {
        lemma_weight_list_elem(items.drop_first(), i - 1);
    }
}

/// The value of each object entry weighs less than the whole entry list.
pub proof fn lemma_weight_entries_elem(entries: Seq<(String, JsonVal)>, i: int)
    requires
        0 <= i < entries.len(),
    ensures
        weight(entries[i].1) < weight_entries(entries),
    decreases entries.len(),
{
    if i > 0 {
        lemma_weight_entries_elem(entries.drop_first(), i - 1);
    }
}

/// A value found by name weighs less than the entry list it was found in.
pub proof fn lemma_find_val_weight(entries: Seq<(String, JsonVal)>, name: Seq<char>)
    ensures
        find_val(entries, name) matches Some(v) ==> weight(v) < weight_entries(entries),
    decreases entries.len(),
{
    if entries.len() > 0 && !(entries[0].0@ == name) {
        lemma_find_val_weight(entries.drop_first(), name);
    }
}

/// The candidate field names the extractor looks for, in priority order.
/// The first candidate that yields a result wins, so this order is part of
/// the observable behavior and must not be rearranged.
pub open spec fn candidate_fields() -> Seq<Seq<char>> {
    seq![
        "error"@,
        "err"@,
        "message"@,
        "detail"@,
        "details"@,
        "description"@,
        "errorMessage"@,
        "error_message"@,
        "reason"@,
        "title"@,
    ]
}

/// What the extractor returns for `v`: an object is scanned for the candidate
/// fields, a string is returned as it stands, and any other value is rendered
/// compactly.
pub open spec fn extract_spec(v: JsonVal) -> Seq<char>
    decreases weight(v), 11int,
{
    match v {
        JsonVal::Obj(entries) => scan_spec(entries@, 0),
        JsonVal::Str(s) => s@,
        _ => compact_spec(v),
    }
}

/// The scan of an object's entries from candidate `i` on. The first candidate
/// field holding a string wins; one holding an object is searched recursively
/// and wins if that search returns anything; when no candidate yields a
/// result, the whole object is pretty-printed.
pub open spec fn scan_spec(entries: Seq<(String, JsonVal)>, i: int) -> Seq<char>
    decreases weight_entries(entries), 10 - i,
{
    if i < 0 || i >= 10 {
        pretty_obj(entries, Seq::empty())
    } else {
        match find_val(entries, candidate_fields()[i]) {
            Some(found) => match found {
                JsonVal::Str(s) => s@,
                JsonVal::Obj(o2) => {
                    proof {
                        lemma_find_val_weight(entries, candidate_fields()[i]);
                    }
                    let nested = extract_spec(found);
                    if nested.len() > 0 {
                        nested
                    } else {
                        scan_spec(entries, i + 1)
                    }
                },
                _ => scan_spec(entries, i + 1),
            },
            None => scan_spec(entries, i + 1),
        }
    }
}

/// The lowercase hexadecimal digit for `d`, executably.
fn hex_char_ex(d: u32) -> (c: char)
    requires
        d < 16,
    ensures
        c == hex_char(d as nat),
{
    match d {
        0 => '0',
        1 => '1',
        2 => '2',
        3 => '3',
        4 => '4',
        5 => '5',
        6 => '6',
        7 => '7',
        8 => '8',
        9 => '9',
        10 => 'a',
        11 => 'b',
        12 => 'c',
        13 => 'd',
        14 => 'e',
        _ => 'f',
    }
}

/// Appends the escape of a single character to `out`.
fn append_escaped_char(out: &mut String, c: char)
    ensures
        final(out)@ == old(out)@ + escaped_char(c),
{
    if c == '"' {
        push_char(out, '\\');
        push_char(out, '"');
    } else if c == '\\' {
        push_char(out, '\\');
        push_char(out, '\\');
    } else if c == '\u{0008}' {
        push_char(out, '\\');
        push_char(out, 'b');
    } else if c == '\t' {
        push_char(out, '\\');
        push_char(out, 't');
    } else if c == '\n' {
        push_char(out, '\\');
        push_char(out, 'n');
    } else if c == '\u{000C}' {
        push_char(out, '\\');
        push_char(out, 'f');
    } else if c == '\r' {
        push_char(out, '\\');
        push_char(out, 'r');
    } else if (c as u32) < 0x20 {
        let d = c as u32;
        push_char(out, '\\');
        push_char(out, 'u');
        push_char(out, '0');
        push_char(out, '0');
        push_char(out, hex_char_ex(d / 16));
        push_char(out, hex_char_ex(d % 16));
    } else {
        push_char(out, c);
    }
    proof {
        assert(final(out)@ =~= old(out)@ + escaped_char(c));
    }
}

/// Appends the escaped body of `s` to `out`.
#[verifier::loop_isolation(false)]
fn append_escaped(out: &mut String, s: &str)
    ensures
        final(out)@ == old(out)@ + escaped(s@),
{
    let ghost base = out@;
    let n = s.unicode_len();
    let mut i: usize = 0;
    while i < n
        invariant
            i <= n,
            out@ == base + escaped(s@.take(i as int)),
        decreases n - i,
    {
        let c = s.get_char(i);
        append_escaped_char(out, c);
        proof {
            assert(s@.take(i + 1).drop_last() =~= s@.take(i as int));
            assert(s@.take(i + 1).last() == c);
        }
        i = i + 1;
    }
    proof {
        assert(s@.take(n as int) =~= s@);
    }
}

/// Appends the serialized JSON string form of `s` to `out`.
fn append_quoted(out: &mut String, s: &str)
    ensures
        final(out)@ == old(out)@ + quoted(s@),
{
    push_char(out, '"');
    append_escaped(out, s);
    push_char(out, '"');
    proof {
        assert(final(out)@ =~= old(out)@ + quoted(s@));
    }
}

/// Appends the compact serialization of `v` to `out`.
#[verifier::loop_isolation(false)]
pub fn append_compact(out: &mut String, v: &JsonVal)
    ensures
        final(out)@ == old(out)@ + compact_spec(*v),
    decreases weight(*v),
{
    let ghost base = out@;
    match v {
        JsonVal::Null => out.append("null"),
        JsonVal::Bool(b) => if *b {
            out.append("true")
        } else {
            out.append("false")
        },
        JsonVal::Num(s) => out.append(s.as_str()),
        JsonVal::Str(s) => append_quoted(out, s.as_str()),
        JsonVal::Arr(items) => {
            push_char(out, '[');
            let n = items.len();
            let mut i: usize = 0;
            while i < n
                invariant
                    i <= n,
                    out@ == base.push('[') + compact_items(items@.take(i as int)),
                decreases n - i,
            {
                if i > 0 {
                    push_char(out, ',');
                }
                proof {
                    lemma_weight_list_elem(items@, i as int);
                }
                append_compact(out, &items[i]);
                proof {
                    assert(items@.take(i + 1).drop_last() =~= items@.take(i as int));
                    assert(out@ =~= base.push('[') + compact_items(items@.take(i + 1)));
                }
                i = i + 1;
            }
            push_char(out, ']');
            proof {
                assert(items@.take(n as int) =~= items@);
                assert(out@ =~= base + compact_spec(*v));
            }
        },
        JsonVal::Obj(entries) => {
            push_char(out, '{');
            let n = entries.len();
            let mut i: usize = 0;
            while i < n
                invariant
                    i <= n,
                    out@ == base.push('{') + compact_entries(entries@.take(i as int)),
                decreases n - i,
            {
                if i > 0 {
                    push_char(out, ',');
                }
                let e = &entries[i];
                append_quoted(out, e.0.as_str());
                push_char(out, ':');
                proof {
                    lemma_weight_entries_elem(entries@, i as int);
                }
                append_compact(out, &e.1);
                proof {
                    assert(entries@.take(i + 1).drop_last() =~= entries@.take(i as int));
                    assert(out@ =~= base.push('{') + compact_entries(entries@.take(i + 1)));
                }
                i = i + 1;
            }
            push_char(out, '}');
            proof {
                assert(entries@.take(n as int) =~= entries@);
                assert(out@ =~= base + compact_spec(*v));
            }
        },
    }
}

/// The indentation one level deeper than `ind`.
fn deeper_indent(ind: &str) -> (r: String)
    ensures
        r@ == ind@ + "  "@,
{
    let mut r = ind.to_owned();
    r.append("  ");
    r
}

/// Appends the pretty serialization of `v`, standing at indentation `ind`,
/// to `out`.
#[verifier::loop_isolation(false)]
pub fn append_pretty(out: &mut String, v: &JsonVal, ind: &str)
    ensures
        final(out)@ == old(out)@ + pretty_spec(*v, ind@),
    decreases weight(*v),
{
    let ghost base = out@;
    match v {
        JsonVal::Arr(items) => {
            if items.len() == 0 {
                out.append("[]");
            } else {
                push_char(out, '[');
                let deeper = deeper_indent(ind);
                let n = items.len();
                let mut i: usize = 0;
                while i < n
                    invariant
                        i <= n,
                        out@ == base.push('[') + pretty_items(items@.take(i as int), deeper@),
                    decreases n - i,
                {
                    if i > 0 {
                        push_char(out, ',');
                    }
                    push_char(out, '\n');
                    out.append(deeper.as_str());
                    proof {
                        lemma_weight_list_elem(items@, i as int);
                    }
                    append_pretty(out, &items[i], deeper.as_str());
                    proof {
                        assert(items@.take(i + 1).drop_last() =~= items@.take(i as int));
                        assert(out@ =~= base.push('[') + pretty_items(items@.take(i + 1), deeper@));
                    }
                    i = i + 1;
                }
                push_char(out, '\n');
                out.append(ind);
                push_char(out, ']');
                proof {
                    assert(items@.take(n as int) =~= items@);
                    assert(out@ =~= base + pretty_spec(*v, ind@));
                }
            }
        },
        JsonVal::Obj(entries) => append_pretty_obj(out, entries, ind),
        _ => {
            append_compact(out, v);
        },
    }
}

/// Appends the pretty serialization of an object with the given entries,
/// standing at indentation `ind`, to `out`.
#[verifier::loop_isolation(false)]
pub fn append_pretty_obj(out: &mut String, entries: &Vec<(String, JsonVal)>, ind: &str)
    ensures
        final(out)@ == old(out)@ + pretty_obj(entries@, ind@),
    decreases weight_entries(entries@),
{
    let ghost base = out@;
    if entries.len() == 0 {
        out.append("{}");
    } else {
        push_char(out, '{');
        let deeper = deeper_indent(ind);
        let n = entries.len();
        let mut i: usize = 0;
        while i < n
            invariant
                i <= n,
                out@ == base.push('{') + pretty_entries(entries@.take(i as int), deeper@),
            decreases n - i,
        {
            if i > 0 {
                push_char(out, ',');
            }
            push_char(out, '\n');
            out.append(deeper.as_str());
            let e = &entries[i];
            append_quoted(out, e.0.as_str());
            out.append(": ");
            proof {
                lemma_weight_entries_elem(entries@, i as int);
            }
            append_pretty(out, &e.1, deeper.as_str());
            proof {
                assert(entries@.take(i + 1).drop_last() =~= entries@.take(i as int));
                assert(out@ =~= base.push('{') + pretty_entries(entries@.take(i + 1), deeper@));
            }
            i = i + 1;
        }
        push_char(out, '\n');
        out.append(ind);
        push_char(out, '}');
        proof {
            assert(entries@.take(n as int) =~= entries@);
            assert(out@ =~= base + pretty_obj(entries@, ind@));
        }
    }
}

/// The compact serialization of `v` as a fresh string.
pub fn to_compact_string(v: &JsonVal) -> (r: String)
    ensures
        r@ == compact_spec(*v),
{
    let mut out = String::new();
    append_compact(&mut out, v);
    proof {
        assert(Seq::<char>::empty() + compact_spec(*v) =~= compact_spec(*v));
    }
    out
}

/// The pretty serialization of `v` as a fresh string, starting at the left
/// margin.
pub fn to_pretty_string(v: &JsonVal) -> (r: String)
    ensures
        r@ == pretty_spec(*v, Seq::empty()),
{
    let mut out = String::new();
    append_pretty(&mut out, v, "");
    proof {
        reveal_strlit("");
        assert(""@ =~= Seq::<char>::empty());
        assert(Seq::<char>::empty() + pretty_spec(*v, ""@) =~= pretty_spec(*v, Seq::empty()));
    }
    out
}

} // verus!
