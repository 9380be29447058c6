//! Deterministic identifier-safety helpers.
//!
//! Device identifiers and free-text instance names are mapped to
//! identifier-safe strings before they are used in unique ids and topic
//! segments. The mapping is a pure function of its input, so an id derived
//! from it is stable across restarts.

use vstd::prelude::*;
use vstd::string::StrSliceExecFns;
use crate::device::DeviceRecord;

verus! {

/// Trusted: relies on `String::push` appending the given character.
pub assume_specification[ String::push ](s: &mut String, ch: char)
    ensures
        final(s)@ == old(s)@ + seq![ch],
;

/// True of the characters that may stand in a topic segment or unique id
/// unchanged: ASCII letters, digits and `-`.
pub open spec fn is_safe_char(c: char) -> bool {
    let u = c as u32;
    (48 <= u && u <= 57) || (65 <= u && u <= 90) || (97 <= u && u <= 122) || u == 45
}

/// Identifier-safe form of one character: safe characters pass through,
/// every other character becomes `_`.
pub open spec fn safe_char(c: char) -> char {
    if is_safe_char(c) {
        c
    } else {
        '_'
    }
}

/// Identifier-safe form of a string, character by character.
pub open spec fn topic_safe_seq(s: Seq<char>) -> Seq<char> {
    s.map_values(|c: char| safe_char(c))
}

/// Maps free text to an identifier-safe string: ASCII letters, digits and
/// `-` pass through, every other character becomes `_`.
pub fn topic_safe_string(s: &str) -> (r: String)
    ensures
        r@ == topic_safe_seq(s@),
{
    let len = s.unicode_len();
    let mut out = String::new();
    let mut i: usize = 0;
    while i < len
        invariant
            i <= len,
            len == s@.len(),
            out@ == topic_safe_seq(s@.subrange(0, i as int)),
        decreases len - i,
    {
        let c = s.get_char(i);
        let u = c as u32;
        if (48 <= u && u <= 57) || (65 <= u && u <= 90) || (97 <= u && u <= 122) || u == 45 {
            out.push(c);
        } else {
            out.push('_');
        }
        proof {
            assert(topic_safe_seq(s@.subrange(0, i + 1 as int)) =~= topic_safe_seq(
                s@.subrange(0, i as int),
            ) + seq![safe_char(s@[i as int])]);
        }
        i += 1;
    }
    proof {
        assert(s@.subrange(0, len as int) =~= s@);
    }
    out
}

/// Identifier-safe form of a device's raw id.
pub fn topic_safe_id(device: &DeviceRecord) -> (r: String)
    ensures
        r@ == topic_safe_seq(device.id@),
{
    topic_safe_string(device.id.as_str())
}

/// The one topic on which the bridge announces its own availability; every
/// entity's discovery payload points the hub at it.
pub fn availability_topic() -> (r: String)
    ensures
        r@ == "gv2mqtt/availability"@,
{
    "gv2mqtt/availability".to_owned()
}

/// Whether two strings hold the same characters.
pub fn str_eq(a: &str, b: &str) -> (r: bool)
    ensures
        r == (a@ == b@),
{
    let alen = a.unicode_len();
    let blen = b.unicode_len();
    if alen != blen {
        return false;
    }
    let mut i: usize = 0;
    while i < alen
        invariant
            i <= alen,
            alen == a@.len(),
            alen == b@.len(),
            forall|j: int| 0 <= j < i ==> a@[j] == b@[j],
        decreases alen - i,
    {
        if a.get_char(i) != b.get_char(i) {
            return false;
        }
        i += 1;
    }
    proof {
        assert(a@ =~= b@);
    }
    true
}

} // verus!
