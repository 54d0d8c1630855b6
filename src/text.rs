//! Character-level helpers used to normalise native metadata.
use vstd::prelude::*;
use vstd::string::*;

verus! {

/// Whitespace: the characters with the Unicode `White_Space` property, the
/// set that `char::is_whitespace` documents.
pub open spec fn is_blank(c: char) -> bool {
    ('\u{09}' <= c && c <= '\u{0D}') || c == ' ' || c == '\u{85}' || c == '\u{A0}' || c == '\u{1680}'
        || ('\u{2000}' <= c && c <= '\u{200A}') || c == '\u{2028}' || c == '\u{2029}' || c == '\u{202F}'
        || c == '\u{205F}' || c == '\u{3000}'
}

/// `s` without its trailing blanks.
pub open spec fn trim_end_spec(s: Seq<char>) -> Seq<char>
    decreases s.len(),
{
    if s.len() > 0 && is_blank(s.last()) {
        trim_end_spec(s.drop_last())
    } else {
        s
    }
}

/// `s` without one leading and one trailing double quote, where present.
pub open spec fn unquote_spec(s: Seq<char>) -> Seq<char> {
    let t = if s.len() > 0 && s[0] == '"' { s.drop_first() } else { s };
    if t.len() > 0 && t.last() == '"' { t.drop_last() } else { t }
}

/// Whether `s` ends with the file-open placeholder `%u`, in either case.
pub open spec fn ends_with_placeholder(s: Seq<char>) -> bool {
    s.len() >= 2 && s[s.len() - 2] == '%' && (s.last() == 'u' || s.last() == 'U')
}

/// A launch command with a trailing `%u` placeholder removed and the blanks
/// before it trimmed.
pub open spec fn launch_command_spec(s: Seq<char>) -> Seq<char> {
    if ends_with_placeholder(s) {
        trim_end_spec(s.subrange(0, s.len() - 2))
    } else {
        s
    }
}

/// Whether two texts hold the same characters.
pub fn same_text(a: &str, b: &str) -> (r: bool)
    ensures
        r == (a@ == b@),
{
    let n = a.unicode_len();
    if n != b.unicode_len() {
        return false;
    }
    let mut i: usize = 0;
    while i < n
        invariant
            n == a@.len(),
            n == b@.len(),
            i <= n,
            forall|j: int| 0 <= j < i ==> a@[j] == b@[j],
        decreases n - i,
    {
        if a.get_char(i) != b.get_char(i) {
            return false;
        }
        i = i + 1;
    }
    assert(a@ =~= b@);
    true
}

/// Removes one surrounding double quote on each side, where present.
pub fn unquote(s: &str) -> (r: String)
    ensures
        r@ == unquote_spec(s@),
{
    let n = s.unicode_len();
    let mut start: usize = 0;
    if n > 0 && s.get_char(0) == '"' {
        start = 1;
    }
    let mut end: usize = n;
    if end > start && s.get_char(end - 1) == '"' {
        end = end - 1;
    }
    let t = s.substring_char(start, end);
    proof {
        let u = if s@.len() > 0 && s@[0] == '"' { s@.drop_first() } else { s@ };
        assert(u =~= s@.subrange(start as int, n as int));
    }
    assert(t@ =~= unquote_spec(s@));
    String::from_str(t)
}

/// Removes trailing blanks.
pub fn trim_end(s: &str) -> (r: String)
    ensures
        r@ == trim_end_spec(s@),
{
    let mut end: usize = s.unicode_len();
    assert(s@.subrange(0, end as int) =~= s@);
    while end > 0 && is_blank_char(s.get_char(end - 1))
        invariant
            end <= s@.len(),
            trim_end_spec(s@.subrange(0, end as int)) == trim_end_spec(s@),
        decreases end,
    {
        assert(s@.subrange(0, end as int).drop_last() =~= s@.subrange(0, end - 1));
        end = end - 1;
    }
    let t = s.substring_char(0, end);
    assert(trim_end_spec(t@) == t@);
    String::from_str(t)
}

/// Whether `c` is whitespace in the sense of `is_blank`.
pub fn is_blank_char(c: char) -> (r: bool)
    ensures
        r == is_blank(c),
{
    ('\u{09}' <= c && c <= '\u{0D}') || c == ' ' || c == '\u{85}' || c == '\u{A0}' || c == '\u{1680}'
        || ('\u{2000}' <= c && c <= '\u{200A}') || c == '\u{2028}' || c == '\u{2029}' || c == '\u{202F}'
        || c == '\u{205F}' || c == '\u{3000}'
}

/// The launch command of a desktop entry: a trailing `%u` or `%U` removed,
/// and the blanks before it trimmed.
pub fn launch_command(exec: &str) -> (r: String)
    ensures
        r@ == launch_command_spec(exec@),
{
    let n = exec.unicode_len();
    if n >= 2 && exec.get_char(n - 2) == '%' {
        let last = exec.get_char(n - 1);
        if last == 'u' || last == 'U' {
            let head = exec.substring_char(0, n - 2);
            return trim_end(head);
        }
    }
    String::from_str(exec)
}

} // verus!
