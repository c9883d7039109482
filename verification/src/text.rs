//! Character-level operations on commit message text.

use vstd::prelude::*;
use vstd::string::StrSliceExecFns;

verus! {

/// Index of the first occurrence of `c` in `s`, or `s.len()` if absent.
pub open spec fn first_index_of(s: Seq<char>, c: char) -> int
    decreases s.len(),
{
    if s.len() == 0 {
        0
    } else if s[0] == c {
        0
    } else {
        1 + first_index_of(s.drop_first(), c)
    }
}

pub proof fn lemma_first_index_of(s: Seq<char>, c: char)
    ensures
        0 <= first_index_of(s, c) <= s.len(),
        first_index_of(s, c) < s.len() ==> s[first_index_of(s, c)] == c,
        forall|j: int| 0 <= j < first_index_of(s, c) ==> s[j] != c,
    decreases s.len(),
{
    if s.len() == 0 {
    } else if s[0] == c {
    } else {
        lemma_first_index_of(s.drop_first(), c);
        assert forall|j: int| 0 <= j < first_index_of(s, c) implies s[j] != c by {
            if j > 0 {
                assert(s.drop_first()[j - 1] == s[j]);
            }
        }
    }
}

/// The characters of `s`, as a vector.
pub fn chars_of(s: &str) -> (r: Vec<char>)
    ensures
        r@ == s@,
{
    let n = s.unicode_len();
    let mut r: Vec<char> = Vec::new();
    let mut i: usize = 0;
    while i < n
        invariant
            i <= n,
            n == s@.len(),
            r@ == s@.subrange(0, i as int),
        decreases n - i,
    {
        r.push(s.get_char(i));
        proof {
            assert(r@ =~= s@.subrange(0, i + 1));
        }
        i = i + 1;
    }
    proof {
        assert(r@ =~= s@);
    }
    r
}

/// Index of the first occurrence of `c` in `v`, or `v.len()` if absent.
pub fn find_char(v: &Vec<char>, c: char) -> (r: usize)
    ensures
        r == first_index_of(v@, c),
{
    let mut i: usize = 0;
    while i < v.len()
        invariant
            i <= v@.len(),
            forall|j: int| 0 <= j < i ==> v@[j] != c,
        decreases v@.len() - i,
    {
        if v[i] == c {
            proof {
                lemma_first_index_unique(v@, c, i as int);
            }
            return i;
        }
        i = i + 1;
    }
    proof {
        lemma_first_index_unique(v@, c, v@.len() as int);
    }
    i
}

/// ASCII upper-case letters map to their lower-case forms; everything else is unchanged.
pub open spec fn lower_char(c: char) -> char {
    if 'A' <= c && c <= 'Z' {
        (((c as u8) + 32) as char)
    } else {
        c
    }
}

pub open spec fn lower(s: Seq<char>) -> Seq<char> {
    s.map_values(|c: char| lower_char(c))
}

pub fn to_lower_char(c: char) -> (r: char)
    ensures
        r == lower_char(c),
{
    if 'A' <= c && c <= 'Z' {
        ((c as u8) + 32) as char
    } else {
        c
    }
}

pub fn lower_chars(v: &Vec<char>) -> (r: Vec<char>)
    ensures
        r@ == lower(v@),
{
    let mut r: Vec<char> = Vec::new();
    let mut i: usize = 0;
    while i < v.len()
        invariant
            i <= v@.len(),
            r@ == lower(v@.subrange(0, i as int)),
        decreases v@.len() - i,
    {
        r.push(to_lower_char(v[i]));
        proof {
            assert(r@ =~= lower(v@.subrange(0, i + 1)));
        }
        i = i + 1;
    }
    proof {
        assert(v@.subrange(0, v@.len() as int) =~= v@);
    }
    r
}

/// The characters carrying the Unicode `White_Space` property.
pub open spec fn is_wspace(c: char) -> bool {
    ||| c == ' '
    ||| c == '\t'
    ||| c == '\n'
    ||| c == '\u{0B}'
    ||| c == '\u{0C}'
    ||| c == '\r'
    ||| c == '\u{85}'
    ||| c == '\u{A0}'
    ||| c == '\u{1680}'
    ||| ('\u{2000}' <= c && c <= '\u{200A}')
    ||| c == '\u{2028}'
    ||| c == '\u{2029}'
    ||| c == '\u{202F}'
    ||| c == '\u{205F}'
    ||| c == '\u{3000}'
}

pub fn is_whitespace_char(c: char) -> (r: bool)
    ensures
        r == is_wspace(c),
{
    c == ' ' || c == '\t' || c == '\n' || c == '\u{0B}' || c == '\u{0C}' || c == '\r'
        || c == '\u{85}' || c == '\u{A0}' || c == '\u{1680}'
        || ('\u{2000}' <= c && c <= '\u{200A}') || c == '\u{2028}' || c == '\u{2029}'
        || c == '\u{202F}' || c == '\u{205F}' || c == '\u{3000}'
}

/// `s` without its leading white space.
pub open spec fn spec_trim_start(s: Seq<char>) -> Seq<char>
    decreases s.len(),
{
    if s.len() > 0 && is_wspace(s[0]) {
        spec_trim_start(s.drop_first())
    } else {
        s
    }
}

/// `s` without its trailing white space.
pub open spec fn spec_trim_end(s: Seq<char>) -> Seq<char>
    decreases s.len(),
{
    if s.len() > 0 && is_wspace(s.last()) {
        spec_trim_end(s.drop_last())
    } else {
        s
    }
}

/// `s` without leading and trailing white space.
pub open spec fn spec_trim(s: Seq<char>) -> Seq<char> {
    spec_trim_end(spec_trim_start(s))
}

proof fn lemma_trim_start_subrange(s: Seq<char>, a: int)
    requires
        0 <= a <= s.len(),
        forall|j: int| 0 <= j < a ==> is_wspace(s[j]),
        a < s.len() ==> !is_wspace(s[a]),
    ensures
        spec_trim_start(s) =~= s.subrange(a, s.len() as int),
    decreases a,
{
    if a == 0 {
        if s.len() > 0 && is_wspace(s[0]) {
            assert(false);
        }
        assert(s.subrange(0, s.len() as int) =~= s);
    } else {
        assert(is_wspace(s[0]));
        let t = s.drop_first();
        assert forall|j: int| 0 <= j < a - 1 implies is_wspace(t[j]) by {
            assert(t[j] == s[j + 1]);
        }
        lemma_trim_start_subrange(t, a - 1);
        assert(t.subrange(a - 1, t.len() as int) =~= s.subrange(a, s.len() as int));
    }
}

proof fn lemma_trim_end_subrange(s: Seq<char>, b: int)
    requires
        0 <= b <= s.len(),
        forall|j: int| b <= j < s.len() ==> is_wspace(s[j]),
        b > 0 ==> !is_wspace(s[b - 1]),
    ensures
        spec_trim_end(s) =~= s.subrange(0, b),
    decreases s.len() - b,
{
    if b == s.len() {
        if s.len() > 0 && is_wspace(s.last()) {
            assert(false);
        }
        assert(s.subrange(0, s.len() as int) =~= s);
    } else {
        assert(is_wspace(s.last()));
        let t = s.drop_last();
        lemma_trim_end_subrange(t, b);
        assert(t.subrange(0, b) =~= s.subrange(0, b));
    }
}

/// The copy of `v` with leading and trailing white space removed.
pub fn trim_chars(v: &Vec<char>) -> (r: Vec<char>)
    ensures
        r@ == spec_trim(v@),
{
    let n = v.len();
    let mut a: usize = 0;
    while a < n && is_whitespace_char(v[a])
        invariant
            a <= n,
            n == v@.len(),
            forall|j: int| 0 <= j < a ==> is_wspace(v@[j]),
        decreases n - a,
    {
        a = a + 1;
    }
    proof {
        lemma_trim_start_subrange(v@, a as int);
    }
    let mut b: usize = n;
    while b > a && is_whitespace_char(v[b - 1])
        invariant
            a <= b <= n,
            n == v@.len(),
            forall|j: int| b <= j < n ==> is_wspace(v@[j]),
        decreases b,
    {
        b = b - 1;
    }
    let r = sub_chars(v, a, b);
    proof {
        let t = v@.subrange(a as int, v@.len() as int);
        assert forall|j: int| b - a <= j < t.len() implies is_wspace(t[j]) by {
            assert(t[j] == v@[j + a]);
        }
        if b > a {
            assert(t[b - a - 1] == v@[b - 1]);
        }
        lemma_trim_end_subrange(t, b - a);
        assert(t.subrange(0, b - a) =~= v@.subrange(a as int, b as int));
    }
    r
}

/// The slice `v[from..to]` as a fresh vector.
pub fn sub_chars(v: &Vec<char>, from: usize, to: usize) -> (r: Vec<char>)
    requires
        from <= to <= v@.len(),
    ensures
        r@ == v@.subrange(from as int, to as int),
{
    let mut r: Vec<char> = Vec::new();
    let mut i: usize = from;
    while i < to
        invariant
            from <= i <= to <= v@.len(),
            r@ == v@.subrange(from as int, i as int),
        decreases to - i,
    {
        r.push(v[i]);
        proof {
            assert(r@ =~= v@.subrange(from as int, i + 1));
        }
        i = i + 1;
    }
    r
}

/// True when `p` is a prefix of `s`.
pub fn starts_with_chars(v: &Vec<char>, p: &Vec<char>) -> (r: bool)
    ensures
        r == p@.is_prefix_of(v@),
{
    if p.len() > v.len() {
        return false;
    }
    let mut i: usize = 0;
    while i < p.len()
        invariant
            i <= p@.len() <= v@.len(),
            forall|j: int| 0 <= j < i ==> v@[j] == p@[j],
        decreases p@.len() - i,
    {
        if v[i] != p[i] {
            return false;
        }
        i = i + 1;
    }
    proof {
        assert(p@ =~= v@.subrange(0, p@.len() as int));
    }
    true
}

/// True when `v` ends with the characters of `s`.
pub fn ends_with_str(v: &Vec<char>, s: &str) -> (r: bool)
    ensures
        r == s@.is_suffix_of(v@),
{
    let n = s.unicode_len();
    if n > v.len() {
        proof {
            assert(!s@.is_suffix_of(v@));
        }
        return false;
    }
    let tail = sub_chars(v, v.len() - n, v.len());
    let r = chars_eq_str(&tail, s);
    proof {
        if r {
            assert(s@ =~= v@.subrange(v@.len() - s@.len(), v@.len() as int));
        } else {
            if s@.is_suffix_of(v@) {
                assert(tail@ =~= s@);
            }
        }
    }
    r
}

pub open spec fn contains_char(s: Seq<char>, c: char) -> bool {
    exists|i: int| 0 <= i < s.len() && s[i] == c
}

pub fn vec_contains_char(v: &Vec<char>, c: char) -> (r: bool)
    ensures
        r == contains_char(v@, c),
{
    let i = find_char(v, c);
    proof {
        lemma_first_index_of(v@, c);
    }
    i < v.len()
}

/// True when `needle` occurs as a contiguous subsequence of `s`.
pub open spec fn contains_seq(s: Seq<char>, needle: Seq<char>) -> bool {
    exists|i: int|
        0 <= i && i + needle.len() <= s.len() && #[trigger] s.subrange(i, i + needle.len() as int)
            == needle
}

pub fn vec_contains_seq(v: &Vec<char>, needle: &Vec<char>) -> (r: bool)
    ensures
        r == contains_seq(v@, needle@),
{
    if needle.len() > v.len() {
        return false;
    }
    if needle.len() == 0 {
        proof {
            assert(v@.subrange(0, 0 + needle@.len() as int) =~= needle@);
        }
        return true;
    }
    let n = needle.len();
    let mut i: usize = 0;
    while i <= v.len() - n
        invariant
            n == needle@.len(),
            1 <= n <= v@.len(),
            i <= v@.len() - n + 1,
            forall|k: int|
                0 <= k < i ==> #[trigger] v@.subrange(k, k + needle@.len() as int) != needle@,
        decreases v@.len() - n + 1 - i,
    {
        let window = sub_chars(v, i, i + n);
        if chars_eq(&window, needle) {
            return true;
        }
        i = i + 1;
    }
    false
}

/// True when the two vectors hold the same characters.
pub fn chars_eq(a: &Vec<char>, b: &Vec<char>) -> (r: bool)
    ensures
        r == (a@ == b@),
{
    if a.len() != b.len() {
        proof {
            assert(a@ != b@);
        }
        return false;
    }
    let mut i: usize = 0;
    while i < a.len()
        invariant
            i <= a@.len(),
            a@.len() == b@.len(),
            forall|j: int| 0 <= j < i ==> a@[j] == b@[j],
        decreases a@.len() - i,
    {
        if a[i] != b[i] {
            return false;
        }
        i = i + 1;
    }
    proof {
        assert(a@ =~= b@);
    }
    true
}

/// True when the two vectors hold the same characters as `s`.
pub fn chars_eq_str(v: &Vec<char>, s: &str) -> (r: bool)
    ensures
        r == (v@ == s@),
{
    let n = s.unicode_len();
    if v.len() != n {
        proof {
            assert(v@ != s@);
        }
        return false;
    }
    let mut i: usize = 0;
    while i < n
        invariant
            i <= n,
            n == s@.len(),
            n == v@.len(),
            forall|j: int| 0 <= j < i ==> v@[j] == s@[j],
        decreases n - i,
    {
        if v[i] != s.get_char(i) {
            proof {
                assert(v@[i as int] != s@[i as int]);
            }
            return false;
        }
        i = i + 1;
    }
    proof {
        assert(v@ =~= s@);
    }
    true
}

/// The text up to (not including) the first newline, or all of `s` if it has none.
pub open spec fn spec_first_line(s: Seq<char>) -> Seq<char> {
    s.subrange(0, first_index_of(s, '\n'))
}

/// The text up to (not including) the first colon, lower-cased; the whole of `s` if it
/// has no colon.
pub open spec fn spec_prefix(s: Seq<char>) -> Seq<char> {
    lower(s.subrange(0, first_index_of(s, ':')))
}

/// The text after the first colon, with one following space (if any) dropped; empty if
/// `s` has no colon.
pub open spec fn spec_rest_after_colon(s: Seq<char>) -> Seq<char> {
    let i = first_index_of(s, ':');
    if i == s.len() {
        Seq::empty()
    } else {
        let r = s.subrange(i + 1, s.len() as int);
        if r.len() > 0 && r[0] == ' ' {
            r.drop_first()
        } else {
            r
        }
    }
}

/// The text strictly between the first `(` and the first `)`, provided the `)` comes
/// later; `None` otherwise.
pub open spec fn spec_extract_scope(s: Seq<char>) -> Option<Seq<char>> {
    let o = first_index_of(s, '(');
    let c = first_index_of(s, ')');
    if o < s.len() && c < s.len() && o < c {
        Some(s.subrange(o + 1, c))
    } else {
        None
    }
}

/// Extension methods for `&str`, useful for handling conventional commits.
pub trait FirstLine: View<V = Seq<char>> {
    /// The first line of a conventional commit.
    fn first_line(&self) -> (r: String)
        ensures
            r@ == spec_first_line(self.view()),
    ;

    /// The part before the colon ":" symbol, i.e. type and optional scope.
    fn prefix(&self) -> (r: String)
        ensures
            r@ == spec_prefix(self.view()),
    ;

    /// Split a conventional commit message into type and description.
    fn split_at_colon(&self) -> (r: (String, String))
        ensures
            r.0@ == spec_prefix(self.view()),
            r.1@ == spec_rest_after_colon(self.view()),
    ;

    /// Find a substring between (parenthesis) and return it if present.
    fn extract_scope(&self) -> (r: Option<String>)
        ensures
            match r {
                Some(t) => spec_extract_scope(self.view()) == Some(t@),
                None => spec_extract_scope(self.view()) is None,
            },
    ;
}

impl FirstLine for str {
    fn first_line(&self) -> (r: String) {
        let v = chars_of(self);
        let i = find_char(&v, '\n');
        proof {
            lemma_first_index_of(v@, '\n');
        }
        let line = sub_chars(&v, 0, i);
        string_from_chars(&line)
    }

    fn prefix(&self) -> (r: String) {
        let v = chars_of(self);
        let p = prefix_chars(&v);
        string_from_chars(&p)
    }

    fn split_at_colon(&self) -> (r: (String, String)) {
        let v = chars_of(self);
        let p = prefix_chars(&v);
        let rest = rest_after_colon_chars(&v);
        (string_from_chars(&p), string_from_chars(&rest))
    }

    fn extract_scope(&self) -> (r: Option<String>) {
        let v = chars_of(self);
        match scope_chars(&v) {
            Some(sc) => Some(string_from_chars(&sc)),
            None => None,
        }
    }
}

/// The lower-cased part of `v` before its first colon.
pub fn prefix_chars(v: &Vec<char>) -> (r: Vec<char>)
    ensures
        r@ == spec_prefix(v@),
{
    let i = find_char(v, ':');
    proof {
        lemma_first_index_of(v@, ':');
    }
    let head = sub_chars(v, 0, i);
    lower_chars(&head)
}

/// The part of `v` after its first colon, with one following space dropped.
pub fn rest_after_colon_chars(v: &Vec<char>) -> (r: Vec<char>)
    ensures
        r@ == spec_rest_after_colon(v@),
{
    let i = find_char(v, ':');
    proof {
        lemma_first_index_of(v@, ':');
    }
    if i == v.len() {
        proof {
            assert(Seq::<char>::empty() =~= spec_rest_after_colon(v@));
        }
        Vec::new()
    } else {
        let tail = sub_chars(v, i + 1, v.len());
        if tail.len() > 0 && tail[0] == ' ' {
            let r = sub_chars(&tail, 1, tail.len());
            proof {
                assert(r@ =~= tail@.drop_first());
            }
            r
        } else {
            tail
        }
    }
}

/// The scope between the first parenthesis pair of `v`, if well formed.
pub fn scope_chars(v: &Vec<char>) -> (r: Option<Vec<char>>)
    ensures
        match r {
            Some(t) => spec_extract_scope(v@) == Some(t@),
            None => spec_extract_scope(v@) is None,
        },
{
    let o = find_char(v, '(');
    let c = find_char(v, ')');
    proof {
        lemma_first_index_of(v@, '(');
        lemma_first_index_of(v@, ')');
    }
    if o < v.len() && c < v.len() && o < c {
        Some(sub_chars(v, o + 1, c))
    } else {
        None
    }
}

/// Relies on `String::push`: appends the given character to the end of the string.
#[verifier::external_body]
fn push_char(s: &mut String, c: char)
    ensures
        final(s)@ == old(s)@.push(c),
{
    s.push(c);
}

/// A `String` holding exactly the characters of `v`.
pub fn string_from_chars(v: &Vec<char>) -> (r: String)
    ensures
        r@ == v@,
{
    let mut r = String::new();
    let mut i: usize = 0;
    while i < v.len()
        invariant
            i <= v@.len(),
            r@ == v@.subrange(0, i as int),
        decreases v@.len() - i,
    {
        push_char(&mut r, v[i]);
        proof {
            assert(r@ =~= v@.subrange(0, i + 1));
        }
        i = i + 1;
    }
    proof {
        assert(r@ =~= v@);
    }
    r
}

proof fn lemma_first_index_unique(s: Seq<char>, c: char, i: int)
    requires
        0 <= i <= s.len(),
        i < s.len() ==> s[i] == c,
        forall|j: int| 0 <= j < i ==> s[j] != c,
    ensures
        i == first_index_of(s, c),
{
    lemma_first_index_of(s, c);
    if i < first_index_of(s, c) {
    } else if first_index_of(s, c) < i {
    }
}

} // verus!
