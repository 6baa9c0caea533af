//! Small string predicates the action set branches on: the permissive
//! phone-number shape, the "is this string itself a serialized resource"
//! heuristic, and the subject-id extraction built on it.

use vstd::prelude::*;

use crate::trusted::{
    is_numeric_char, is_whitespace_char, json_id_of, json_object_id, numeric_char, whitespace_char,
};

verus! {

/// A character the permissive phone pattern accepts: a digit, a whitespace
/// character or a hyphen.
pub open spec fn is_phone_char(c: char) -> bool {
    numeric_char(c) || whitespace_char(c) || c == '-'
}

/// One or more characters, all of them digits, whitespace or hyphens.
pub open spec fn all_phone_chars(t: Seq<char>) -> bool {
    t.len() > 0 && forall|i: int| 0 <= i < t.len() ==> is_phone_char(#[trigger] t[i])
}

/// The permissive phone shape: an optional leading `+`, then one or more
/// digits, whitespace characters or hyphens, and nothing else.
pub open spec fn is_phone_spec(s: Seq<char>) -> bool {
    if s.len() > 0 && s[0] == '+' {
        all_phone_chars(s.drop_first())
    } else {
        all_phone_chars(s)
    }
}

/// True exactly when the identity string looks like a phone number.
pub fn is_phone(s: &str) -> (r: bool)
    ensures
        r == is_phone_spec(s@),
{
    let n = s.unicode_len();
    if n == 0 {
        return false;
    }
    let first = s.get_char(0);
    let start: usize = if first == '+' {
        1
    } else {
        0
    };
    if start == n {
        // A bare `+` carries no digits at all.
        return false;
    }
    let mut i: usize = start;
    while i < n
        invariant
            start <= i <= n,
            start == 0 || start == 1,
            n == s@.len(),
            start == 1 ==> s@[0] == '+',
            start == 0 ==> !(s@.len() > 0 && s@[0] == '+'),
            start < n,
            forall|j: int| start <= j < i ==> is_phone_char(#[trigger] s@[j]),
        decreases n - i,
    {
        let c = s.get_char(i);
        let accepted = is_numeric_char(c) || is_whitespace_char(c) || c == '-';
        if !accepted {
            proof {
                if start == 1 {
                    assert(s@.drop_first()[i - 1] == s@[i as int]);
                    assert(!is_phone_char(s@.drop_first()[i - 1]));
                } else {
                    assert(!is_phone_char(s@[i as int]));
                }
            }
            return false;
        }
        i = i + 1;
    }
    proof {
        if start == 1 {
            let t = s@.drop_first();
            assert forall|j: int| 0 <= j < t.len() implies is_phone_char(#[trigger] t[j]) by {
                assert(t[j] == s@[j + 1]);
            };
            assert(all_phone_chars(s@.drop_first()));
        } else {
            assert(all_phone_chars(s@));
        }
    }
    true
}

/// A string is resource-shaped when it reads as a JSON object literal: its
/// first character is `{` and its last is `}`. A best-effort heuristic; the
/// id extraction still falls back to the raw string when the parse fails.
pub open spec fn is_resource_spec(s: Seq<char>) -> bool {
    s.len() >= 2 && s[0] == '{' && s[s.len() - 1] == '}'
}

/// True exactly when the string looks like a serialized resource payload.
pub fn is_resource(s: &str) -> (r: bool)
    ensures
        r == is_resource_spec(s@),
{
    let n = s.unicode_len();
    if n < 2 {
        return false;
    }
    let first = s.get_char(0);
    let last = s.get_char(n - 1);
    first == '{' && last == '}'
}

/// What a subject identifier stands for: when the string is itself a
/// serialized resource carrying a string `"id"` field, that field; in every
/// other case the string taken verbatim.
pub open spec fn subject_id_spec(s: Seq<char>) -> Seq<char> {
    if is_resource_spec(s) {
        match json_id_of(s) {
            Some(id) => id,
            None => s,
        }
    } else {
        s
    }
}

/// Resolves a subject identifier: a resource-shaped string is parsed and its
/// nested `"id"` taken; on any failure the original string is used verbatim,
/// never a hard error.
pub fn extract_subject_id(s: &str) -> (r: String)
    ensures
        r@ == subject_id_spec(s@),
{
    if is_resource(s) {
        match json_object_id(s) {
            Some(id) => id,
            None => s.to_owned(),
        }
    } else {
        s.to_owned()
    }
}

/// `needle` occurs contiguously somewhere in `hay`; the empty needle
/// occurs in every string.
pub open spec fn contains_substring_spec(hay: Seq<char>, needle: Seq<char>) -> bool {
    exists|i: int|
        0 <= i && i + needle.len() <= hay.len() && #[trigger] hay.subrange(i, i + needle.len())
            == needle
}

/// The view of an optional borrowed string.
pub open spec fn opt_str_view(o: Option<&str>) -> Option<Seq<char>> {
    match o {
        Some(s) => Some(s@),
        None => None,
    }
}

/// True exactly when `needle` matches `hay` at offset `i`.
fn matches_at(hay: &str, needle: &str, i: usize) -> (r: bool)
    requires
        i + needle@.len() <= hay@.len(),
    ensures
        r == (hay@.subrange(i as int, i + needle@.len()) == needle@),
{
    let m = needle.unicode_len();
    let hay_len = hay.unicode_len();
    let mut k: usize = 0;
    while k < m
        invariant
            k <= m,
            m == needle@.len(),
            hay_len == hay@.len(),
            i + m <= hay@.len(),
            forall|l: int| 0 <= l < k ==> hay@[i + l] == needle@[l],
        decreases m - k,
    {
        let hc = hay.get_char(i + k);
        let nc = needle.get_char(k);
        if hc != nc {
            proof {
                assert(hay@.subrange(i as int, i + m as int)[k as int] == hay@[i + k]);
            }
            return false;
        }
        k = k + 1;
    }
    proof {
        assert forall|l: int|
            0 <= l < m implies hay@.subrange(i as int, i + m as int)[l] == needle@[l] by {
            assert(hay@.subrange(i as int, i + m as int)[l] == hay@[i + l]);
        };
        assert(hay@.subrange(i as int, i + m as int) =~= needle@);
    }
    true
}

/// True exactly when `needle` occurs contiguously in `hay`.
pub fn contains_substring(hay: &str, needle: &str) -> (r: bool)
    ensures
        r == contains_substring_spec(hay@, needle@),
{
    let n = hay.unicode_len();
    let m = needle.unicode_len();
    if m > n {
        return false;
    }
    if m == 0 {
        proof {
            assert(hay@.subrange(0, 0 + needle@.len() as int) =~= needle@);
        }
        return true;
    }
    let mut i: usize = 0;
    while i <= n - m
        invariant
            1 <= m <= n,
            n == hay@.len(),
            m == needle@.len(),
            i <= n - m + 1,
            forall|j: int| 0 <= j < i ==> #[trigger] hay@.subrange(j, j + m as int) != needle@,
        decreases n - i,
    {
        if matches_at(hay, needle, i) {
            return true;
        }
        i = i + 1;
    }
    false
}

} // verus!
