//! The wire-name transform.
//!
//! Every property name of a generated type is serialized in lowerCamelCase:
//! the identifier is split into segments at underscores and at uppercase
//! letters, the first segment is lowercased entirely, the first letter of
//! every later segment is capitalized and the rest lowercased, and the
//! segments are concatenated with no separator. The transform is purely a
//! presentation-layer rename; it never affects in-memory field identity.

use vstd::prelude::*;
use vstd::string::*;

verus! {

/// An ASCII uppercase letter.
pub open spec fn spec_is_upper(c: char) -> bool {
    'A' <= c && c <= 'Z'
}

/// An ASCII lowercase letter.
pub open spec fn spec_is_lower(c: char) -> bool {
    'a' <= c && c <= 'z'
}

/// ASCII lowercasing; other characters are unchanged.
pub open spec fn spec_to_lower(c: char) -> char {
    if spec_is_upper(c) {
        ((c as u32) + 32) as char
    } else {
        c
    }
}

/// ASCII uppercasing; other characters are unchanged.
pub open spec fn spec_to_upper(c: char) -> char {
    if spec_is_lower(c) {
        ((c as u32) - 32) as char
    } else {
        c
    }
}

/// One step of the transform per character, carrying the two pieces of
/// state it needs: `boundary` says the next letter starts a new segment
/// (true at the start and after an underscore), and `seen` says whether any
/// character of the first segment has been emitted yet. An uppercase letter
/// always starts a new segment of its own.
pub open spec fn camel_rec(s: Seq<char>, boundary: bool, seen: bool) -> Seq<char>
    decreases s.len(),
{
    if s.len() == 0 {
        Seq::empty()
    } else {
        let c = s[0];
        let rest = s.drop_first();
        if c == '_' {
            camel_rec(rest, true, seen)
        } else if (boundary || spec_is_upper(c)) && seen {
            seq![spec_to_upper(c)] + camel_rec(rest, false, true)
        } else {
            seq![spec_to_lower(c)] + camel_rec(rest, false, true)
        }
    }
}

/// The lowerCamelCase transform of an identifier.
pub open spec fn camel_case(s: Seq<char>) -> Seq<char> {
    camel_rec(s, true, false)
}

/// ASCII lowercasing of one character.
pub fn to_lower(c: char) -> (r: char)
    ensures
        r == spec_to_lower(c),
{
    if 'A' <= c && c <= 'Z' {
        (((c as u32) + 32) as u8) as char
    } else {
        c
    }
}

/// ASCII uppercasing of one character.
pub fn to_upper(c: char) -> (r: char)
    ensures
        r == spec_to_upper(c),
{
    if 'a' <= c && c <= 'z' {
        (((c as u32) - 32) as u8) as char
    } else {
        c
    }
}

/// Applies the lowerCamelCase transform to a sequence of characters.
pub fn camel_case_chars(v: &Vec<char>) -> (out: Vec<char>)
    ensures
        out@ == camel_case(v@),
{
    let mut out: Vec<char> = Vec::new();
    let mut boundary = true;
    let mut seen = false;
    let mut i: usize = 0;
    proof {
        assert(v@.skip(0) =~= v@);
        assert(out@ + camel_rec(v@, true, false) =~= camel_rec(v@, true, false));
    }
    while i < v.len()
        invariant
            i <= v@.len(),
            camel_case(v@) == out@ + camel_rec(v@.skip(i as int), boundary, seen),
        decreases v@.len() - i,
    {
        proof {
            assert(v@.skip(i as int)[0] == v@[i as int]);
            assert(v@.skip(i as int).drop_first() =~= v@.skip(i as int + 1));
        }
        let c = v[i];
        if c == '_' {
            proof {
                assert(camel_rec(v@.skip(i as int), boundary, seen) == camel_rec(
                    v@.skip(i as int + 1),
                    true,
                    seen,
                ));
            }
            boundary = true;
        } else if (boundary || ('A' <= c && c <= 'Z')) && seen {
            proof {
                assert(out@ + (seq![spec_to_upper(c)] + camel_rec(v@.skip(i as int + 1), false, true))
                    =~= (out@ + seq![spec_to_upper(c)]) + camel_rec(v@.skip(i as int + 1), false, true));
            }
            out.push(to_upper(c));
            boundary = false;
            seen = true;
        } else {
            proof {
                assert(out@ + (seq![spec_to_lower(c)] + camel_rec(v@.skip(i as int + 1), false, true))
                    =~= (out@ + seq![spec_to_lower(c)]) + camel_rec(v@.skip(i as int + 1), false, true));
            }
            out.push(to_lower(c));
            boundary = false;
            seen = true;
        }
        i += 1;
    }
    proof {
        assert(v@.skip(v@.len() as int) =~= Seq::<char>::empty());
        assert(out@ + Seq::<char>::empty() =~= out@);
    }
    out
}

/// Collects the characters of a string slice into a vector.
pub fn chars_of_str(s: &str) -> (out: Vec<char>)
    ensures
        out@ == s@,
{
    let n = s.unicode_len();
    let mut out: Vec<char> = Vec::new();
    let mut i: usize = 0;
    while i < n
        invariant
            n == s@.len(),
            i <= n,
            out@ == s@.subrange(0, i as int),
        decreases n - i,
    {
        let c = s.get_char(i);
        out.push(c);
        i += 1;
        proof {
            assert(out@ =~= s@.subrange(0, i as int));
        }
    }
    proof {
        assert(s@.subrange(0, s@.len() as int) =~= s@);
    }
    out
}

/// Relies on `String`'s `FromIterator<&char>` impl: collecting characters
/// yields the string of exactly those characters in order.
#[verifier::external_body]
pub fn string_from_chars(v: &Vec<char>) -> (r: String)
    ensures
        r@ == v@,
{
    v.iter().collect()
}

/// The wire name of an identifier: its lowerCamelCase transform.
pub fn wire_name(s: &str) -> (r: String)
    ensures
        r@ == camel_case(s@),
{
    let cs = chars_of_str(s);
    let cc = camel_case_chars(&cs);
    string_from_chars(&cc)
}

} // verus!
