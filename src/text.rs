use vstd::prelude::*;

verus! {

/// True when no character of `s` is `#`, the character that opens and closes a
/// placeholder marker.
pub open spec fn hash_free(s: Seq<char>) -> bool {
    forall|i: int| 0 <= i < s.len() ==> s[i] != '#'
}

/// True when `s` holds a placeholder marker's delimiter `##` somewhere.
pub open spec fn has_marker(s: Seq<char>) -> bool {
    exists|i: int| 0 <= i && i + 1 < s.len() && #[trigger] s[i] == '#' && s[i + 1] == '#'
}

pub open spec fn is_ascii_char(c: char) -> bool {
    (c as u32) < 128
}

pub open spec fn ascii_lower(c: char) -> char {
    if 'A' <= c && c <= 'Z' {
        ((c as u32 + 32) as u8) as char
    } else {
        c
    }
}

pub open spec fn ascii_upper(c: char) -> char {
    if 'a' <= c && c <= 'z' {
        ((c as u32 - 32) as u8) as char
    } else {
        c
    }
}

pub broadcast proof fn lemma_hash_free_no_marker(s: Seq<char>)
    requires
        hash_free(s),
    ensures
        !#[trigger] has_marker(s),
{
}

pub broadcast proof fn lemma_hash_free_concat(a: Seq<char>, b: Seq<char>)
    ensures
        #[trigger] hash_free(a + b) == (hash_free(a) && hash_free(b)),
{
    if hash_free(a) && hash_free(b) {
        assert forall|i: int| 0 <= i < (a + b).len() implies (a + b)[i] != '#' by {
            if i >= a.len() {
                assert((a + b)[i] == b[i - a.len()]);
            }
        }
    }
    if hash_free(a + b) {
        assert forall|i: int| 0 <= i < a.len() implies a[i] != '#' by {
            assert((a + b)[i] == a[i]);
        }
        assert forall|i: int| 0 <= i < b.len() implies b[i] != '#' by {
            assert((a + b)[i + a.len()] == b[i]);
        }
    }
}

/// Joining two texts without a marker makes none, unless the first ends and the
/// second starts with `#`.
pub broadcast proof fn lemma_join_no_marker(a: Seq<char>, b: Seq<char>)
    requires
        !has_marker(a),
        !has_marker(b),
        a.len() == 0 || b.len() == 0 || a.last() != '#' || b[0] != '#',
    ensures
        !has_marker(#[trigger] (a + b)),
{
    if has_marker(a + b) {
        let s = a + b;
        let i = choose|i: int| 0 <= i && i + 1 < s.len() && #[trigger] s[i] == '#' && s[i + 1] == '#';
        if i + 1 < a.len() {
            assert(a[i] == '#' && a[i + 1] == '#');
        } else if i >= a.len() {
            assert(b[i - a.len()] == '#' && b[i - a.len() + 1] == '#');
        } else {
            assert(a.last() == '#' && b[0] == '#');
        }
    }
}

pub fn to_ascii_lower(c: char) -> (r: char)
    requires
        is_ascii_char(c),
    ensures
        r == ascii_lower(c),
{
    if 'A' <= c && c <= 'Z' {
        ((c as u32 + 32) as u8) as char
    } else {
        c
    }
}

pub fn to_ascii_upper(c: char) -> (r: char)
    requires
        is_ascii_char(c),
    ensures
        r == ascii_upper(c),
{
    if 'a' <= c && c <= 'z' {
        ((c as u32 - 32) as u8) as char
    } else {
        c
    }
}

/// Relies on `String::push`: the character is appended at the end.
#[verifier::external_body]
pub(crate) fn push_char(s: &mut String, c: char)
    ensures
        final(s)@ == old(s)@.push(c),
{
    s.push(c);
}

} // verus!
