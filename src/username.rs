use vstd::prelude::*;
use vstd::string::*;

verus! {

/// The characters with the Unicode `White_Space` property.
pub open spec fn is_white_space(c: char) -> bool {
    let n = c as u32;
    (9 <= n <= 13) || n == 32 || n == 0x85 || n == 0xA0 || n == 0x1680 || (0x2000 <= n <= 0x200A)
        || n == 0x2028 || n == 0x2029 || n == 0x202F || n == 0x205F || n == 0x3000
}

pub open spec fn trim_start(s: Seq<char>) -> Seq<char>
    decreases s.len(),
{
    if s.len() > 0 && is_white_space(s[0]) {
        trim_start(s.drop_first())
    } else {
        s
    }
}

pub open spec fn trim_end(s: Seq<char>) -> Seq<char>
    decreases s.len(),
{
    if s.len() > 0 && is_white_space(s.last()) {
        trim_end(s.drop_last())
    } else {
        s
    }
}

/// The text without its leading and trailing white space.
pub open spec fn trimmed(s: Seq<char>) -> Seq<char> {
    trim_end(trim_start(s))
}

/// Relies on `str::trim`: leading and trailing characters with the Unicode
/// `White_Space` property are removed.
#[verifier::external_body]
fn trim(s: &str) -> (r: &str)
    ensures
        r@ == trimmed(s@),
{
    s.trim()
}

/// The key under which the version-control configuration lists the user name.
pub open spec fn user_key() -> Seq<char> {
    "user.name="@
}

/// The user name on one (trimmed) configuration line `user.name=<value>`: the
/// key ends at the first `=`, and the value is all that follows it.
pub open spec fn username_of_line(line: Seq<char>) -> Option<Seq<char>> {
    if line.len() >= user_key().len() && line.subrange(0, user_key().len() as int) == user_key() {
        Some(line.subrange(user_key().len() as int, line.len() as int))
    } else {
        None
    }
}

/// Where the line that starts at `i` ends: at the next newline, or at the end.
pub open spec fn line_end(s: Seq<char>, i: int) -> int
    decreases s.len() - i,
{
    if i >= s.len() || s[i] == '\n' {
        i
    } else {
        line_end(s, i + 1)
    }
}

/// The user name of the first line, from the one that starts at `start` on,
/// that carries one; each line is trimmed first.
pub open spec fn username_from(s: Seq<char>, start: int) -> Option<Seq<char>>
    decreases s.len() - start,
{
    if start < 0 || start > s.len() {
        None
    } else {
        let e = line_end(s, start);
        if e < start || e > s.len() {
            None
        } else {
            match username_of_line(trimmed(s.subrange(start, e))) {
                Some(v) => Some(v),
                None => if e >= s.len() {
                    None
                } else {
                    username_from(s, e + 1)
                },
            }
        }
    }
}

pub open spec fn view_opt(o: Option<String>) -> Option<Seq<char>> {
    match o {
        Some(s) => Some(s@),
        None => None,
    }
}

proof fn lemma_line_end_bounds(s: Seq<char>, i: int)
    requires
        0 <= i <= s.len(),
    ensures
        i <= line_end(s, i) <= s.len(),
        line_end(s, i) < s.len() ==> s[line_end(s, i)] == '\n',
    decreases s.len() - i,
{
    if i < s.len() && s[i] != '\n' {
        lemma_line_end_bounds(s, i + 1);
    }
}

/// The user name on one trimmed configuration line, if the line is `user.name=<value>`.
pub fn username_from_line(line: &str) -> (r: Option<String>)
    ensures
        view_opt(r) == username_of_line(line@),
{
    proof {
        reveal_strlit("user.name=");
    }
    let n = line.unicode_len();
    if n < 10 {
        return None;
    }
    let key = String::from_str(line.substring_char(0, 10));
    if key == String::from_str("user.name=") {
        Some(String::from_str(line.substring_char(10, n)))
    } else {
        None
    }
}

/// The user name in the output of the configuration listing: the whole output
/// is trimmed, then split into lines, and the first line `user.name=<value>`
/// (after trimming) gives the value.
pub fn get_git_username(output: &str) -> (r: Option<String>)
    ensures
        view_opt(r) == username_from(trimmed(output@), 0),
{
    let text = trim(output);
    let n = text.unicode_len();
    let mut start: usize = 0;
    loop
        invariant
            text@ == trimmed(output@),
            n == text@.len(),
            start <= n,
            username_from(text@, 0) == username_from(text@, start as int),
        decreases n - start,
    {
        let mut end = start;
        while end < n && text.get_char(end) != '\n'
            invariant
                n == text@.len(),
                start <= end <= n,
                line_end(text@, start as int) == line_end(text@, end as int),
            decreases n - end,
        {
            end = end + 1;
        }
        proof {
            lemma_line_end_bounds(text@, start as int);
            assert(line_end(text@, end as int) == end as int);
        }
        let line = trim(text.substring_char(start, end));
        assert(line@ == trimmed(text@.subrange(start as int, end as int)));
        match username_from_line(line) {
            Some(v) => {
                return Some(v);
            },
            None => {},
        }
        if end >= n {
            return None;
        }
        start = end + 1;
    }
}

} // verus!
