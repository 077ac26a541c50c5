//! The heuristic extractor of a human-readable error message from a JSON
//! failure body of unknown shape.

use crate::json::{
    JsonVal, candidate_fields, compact_spec, extract_spec, find_val, lemma_find_val_weight,
    pretty_obj, scan_spec, weight, append_pretty_obj, to_compact_string,
};
use vstd::prelude::*;
use vstd::string::StringExecFns;

verus! {

/// A JSON failure body of unknown shape, kept as it arrived; a readable
/// message is only derived from it on demand.
#[derive(Debug)]
pub struct SerdeValue(pub JsonVal);

/// Scanning past entries whose keys all differ from `name` does not change
/// what is found.
proof fn lemma_find_val_skip(entries: Seq<(String, JsonVal)>, name: Seq<char>, i: int)
    requires
        0 <= i <= entries.len(),
        forall|k: int| 0 <= k < i ==> entries[k].0@ != name,
    ensures
        find_val(entries, name) == find_val(entries.skip(i), name),
    decreases i,
{
    if i > 0 {
        lemma_find_val_skip(entries, name, i - 1);
        let s = entries.skip(i - 1);
        assert(s[0] == entries[i - 1]);
        assert(s.drop_first() =~= entries.skip(i));
    } else {
        assert(entries.skip(0) =~= entries);
    }
}

/// The value of the first entry named `name`, executably.
pub(crate) fn find_field<'a>(entries: &'a Vec<(String, JsonVal)>, name: &String) -> (r: Option<&'a JsonVal>)
    ensures
        match r {
            Some(found) => find_val(entries@, name@) == Some(*found),
            None => find_val(entries@, name@) is None,
        },
{
    let n = entries.len();
    let mut i: usize = 0;
    while i < n
        invariant
            i <= n,
            n == entries@.len(),
            forall|k: int| 0 <= k < i ==> entries@[k].0@ != name@,
        decreases n - i,
    {
        let e = &entries[i];
        if e.0 == *name {
            proof {
                lemma_find_val_skip(entries@, name@, i as int);
                assert(entries@.skip(i as int)[0] == entries@[i as int]);
            }
            return Some(&e.1);
        }
        i = i + 1;
    }
    proof {
        lemma_find_val_skip(entries@, name@, n as int);
        assert(entries@.skip(n as int) =~= Seq::<(String, JsonVal)>::empty());
    }
    None
}

/// The candidate field names of the extractor, executably, in the same
/// priority order as `candidate_fields`.
fn candidate_names() -> (r: Vec<String>)
    ensures
        r@.len() == 10,
        forall|i: int| 0 <= i < 10 ==> r@[i]@ == candidate_fields()[i],
{
    let mut v: Vec<String> = Vec::new();
    v.push(String::from_str("error"));
    v.push(String::from_str("err"));
    v.push(String::from_str("message"));
    v.push(String::from_str("detail"));
    v.push(String::from_str("details"));
    v.push(String::from_str("description"));
    v.push(String::from_str("errorMessage"));
    v.push(String::from_str("error_message"));
    v.push(String::from_str("reason"));
    v.push(String::from_str("title"));
    v
}

/// The extractor itself, on a bare value.
#[verifier::loop_isolation(false)]
fn extract_from_val(v: &JsonVal) -> (r: String)
    ensures
        r@ == extract_spec(*v),
    decreases weight(*v),
{
    match v {
        JsonVal::Obj(entries) => {
            let names = candidate_names();
            let mut i: usize = 0;
            while i < 10
                invariant
                    i <= 10,
                    extract_spec(*v) == scan_spec(entries@, i as int),
                decreases 10 - i,
            {
                let name = &names[i];
                match find_field(entries, name) {
                    Some(found) => match found {
                        JsonVal::Str(s) => {
                            return s.clone();
                        },
                        JsonVal::Obj(_) => {
                            proof {
                                lemma_find_val_weight(entries@, name@);
                            }
                            let nested = extract_from_val(found);
                            if !nested.as_str().is_empty() {
                                return nested;
                            }
                        },
                        _ => {},
                    },
                    None => {},
                }
                proof {
                    assert(scan_spec(entries@, i as int) == scan_spec(entries@, i + 1));
                }
                i = i + 1;
            }
            let mut out = String::new();
            append_pretty_obj(&mut out, entries, "");
            proof {
                reveal_strlit("");
                assert(""@ =~= Seq::<char>::empty());
                assert(out@ =~= pretty_obj(entries@, Seq::empty()));
            }
            out
        },
        JsonVal::Str(s) => s.clone(),
        _ => to_compact_string(v),
    }
}

impl SerdeValue {
    /// The most plausible human-readable error message inside the held value:
    /// the first candidate field holding a string, in priority order, a
    /// recursive search of a candidate field holding an object, and otherwise
    /// the value itself, pretty-printed for an object and rendered compactly
    /// for everything else. It never fails to return something.
    pub fn extract_error_from_json(&self) -> (r: String)
        ensures
            r@ == extract_spec(self.0),
    {
        extract_from_val(&self.0)
    }

    /// The display text of the held value: its compact serialization.
    pub fn display_message(&self) -> (r: String)
        ensures
            r@ == compact_spec(self.0),
    {
        to_compact_string(&self.0)
    }
}

} // verus!
