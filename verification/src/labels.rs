//! Normalization of attribute keys into legal Cloud Monitoring label keys.
//!
//! A legal label key matches `[a-zA-Z_][a-zA-Z0-9_]*`: every other character
//! is replaced with `_`, and a key whose first character may not open a label
//! key (or an empty key) is prefixed with `key_`.

use vstd::prelude::*;

verus! {

/// An ASCII letter, `a`-`z` or `A`-`Z`.
pub open spec fn is_ascii_letter(c: char) -> bool {
    (97 <= c as u32 && c as u32 <= 122) || (65 <= c as u32 && c as u32 <= 90)
}

/// An ASCII digit, `0`-`9`.
pub open spec fn is_ascii_digit(c: char) -> bool {
    48 <= c as u32 && c as u32 <= 57
}

/// A character legal anywhere in a label key.
pub open spec fn is_legal_label_char(c: char) -> bool {
    is_ascii_letter(c) || is_ascii_digit(c) || c == '_'
}

/// A character legal as the first character of a label key.
pub open spec fn is_legal_label_start(c: char) -> bool {
    is_ascii_letter(c) || c == '_'
}

/// A key that already matches `[a-zA-Z_][a-zA-Z0-9_]*`.
pub open spec fn is_legal_label_key(s: Seq<char>) -> bool {
    &&& s.len() > 0
    &&& is_legal_label_start(s[0])
    &&& forall|i: int| 0 <= i < s.len() ==> is_legal_label_char(#[trigger] s[i])
}

/// An illegal character is replaced with an underscore.
pub open spec fn sanitize_char(c: char) -> char {
    if is_legal_label_char(c) {
        c
    } else {
        '_'
    }
}

/// The prefix put before a key that does not open with a legal start character.
pub open spec fn key_prefix() -> Seq<char> {
    seq!['k', 'e', 'y', '_']
}

/// Whether normalization prefixes the key: the key is empty or opens with a
/// character that may not open a label key.
pub open spec fn needs_key_prefix(s: Seq<char>) -> bool {
    s.len() == 0 || !is_legal_label_start(s[0])
}

/// The normalized form of an attribute key.
pub open spec fn normalize_label_key_spec(s: Seq<char>) -> Seq<char> {
    if needs_key_prefix(s) {
        key_prefix() + s.map_values(|c: char| sanitize_char(c))
    } else {
        s.map_values(|c: char| sanitize_char(c))
    }
}

/// Relies on std's `String::push`: appends exactly one character.
#[verifier::external_body]
fn push_char(s: &mut String, c: char)
    ensures
        final(s)@ == old(s)@.push(c),
{
    s.push(c);
}

fn is_legal_label_char_exec(c: char) -> (r: bool)
    ensures
        r == is_legal_label_char(c),
{
    let u: u32 = c as u32;
    (97 <= u && u <= 122) || (65 <= u && u <= 90) || (48 <= u && u <= 57) || c == '_'
}

fn is_legal_label_start_exec(c: char) -> (r: bool)
    ensures
        r == is_legal_label_start(c),
{
    let u: u32 = c as u32;
    (97 <= u && u <= 122) || (65 <= u && u <= 90) || c == '_'
}

/// Turn an arbitrary attribute key into a legal label key: replace every
/// illegal character with `_` and prefix `key_` when the key is empty or its
/// first character may not open a label key.
pub fn normalize_label_key(key: &str) -> (r: String)
    ensures
        r@ == normalize_label_key_spec(key@),
{
    let n = key.unicode_len();
    let mut out = String::new();
    let needs_prefix = if n == 0 {
        true
    } else {
        !is_legal_label_start_exec(key.get_char(0))
    };
    if needs_prefix {
        out.append("key_");
        proof {
            reveal_strlit("key_");
            assert(out@ =~= key_prefix());
        }
    }
    let ghost head: Seq<char> = out@;
    let mut i: usize = 0;
    while i < n
        invariant
            i <= n,
            n == key@.len(),
            out@ == head + key@.subrange(0, i as int).map_values(|c: char| sanitize_char(c)),
        decreases n - i,
    {
        let c = key.get_char(i);
        let sanitized = if is_legal_label_char_exec(c) {
            c
        } else {
            '_'
        };
        push_char(&mut out, sanitized);
        proof {
            assert(key@.subrange(0, i + 1 as int).map_values(|c: char| sanitize_char(c)) =~= key@
                .subrange(0, i as int).map_values(|c: char| sanitize_char(c)).push(
                sanitize_char(key@[i as int]),
            ));
        }
        i = i + 1;
    }
    proof {
        assert(key@.subrange(0, n as int) =~= key@);
        assert(out@ =~= normalize_label_key_spec(key@));
    }
    out
}

/// Every normalized key matches `[a-zA-Z_][a-zA-Z0-9_]*`: it is non-empty,
/// opens with a legal start character, and holds legal characters only.
pub proof fn lemma_normalize_label_key_legal(s: Seq<char>)
    ensures
        is_legal_label_key(normalize_label_key_spec(s)),
{
    let r = normalize_label_key_spec(s);
    let mapped = s.map_values(|c: char| sanitize_char(c));
    assert forall|i: int| 0 <= i < r.len() implies is_legal_label_char(#[trigger] r[i]) by {
        if needs_key_prefix(s) {
            if i >= 4 {
                assert(r[i] == sanitize_char(s[i - 4]));
            }
        } else {
            assert(r[i] == sanitize_char(s[i]));
        }
    }
    if needs_key_prefix(s) {
        assert(r[0] == 'k');
    } else {
        assert(r[0] == sanitize_char(s[0]) == s[0]);
    }
}

/// Normalization is idempotent: a key that already went through it comes out
/// unchanged.
pub proof fn lemma_normalize_label_key_idempotent(s: Seq<char>)
    ensures
        normalize_label_key_spec(normalize_label_key_spec(s)) == normalize_label_key_spec(s),
{
    let r = normalize_label_key_spec(s);
    lemma_normalize_label_key_legal(s);
    assert(!needs_key_prefix(r));
    assert(normalize_label_key_spec(r) =~= r) by {
        assert forall|i: int| 0 <= i < r.len() implies r.map_values(
            |c: char| sanitize_char(c),
        )[i] == r[i] by {
            assert(is_legal_label_char(r[i]));
        }
    }
}

} // verus!
