//! Small verified helpers on strings and character sequences.

use vstd::prelude::*;
use vstd::string::{StrSliceExecFns, StringExecFns, StringSliceAdditionalSpecFns};

verus! {

/// The characters of an optional string.
pub open spec fn opt_text(s: Option<String>) -> Option<Seq<char>> {
    match s {
        Some(t) => Some(t@),
        None => None,
    }
}

/// The number of bytes that a text takes in UTF-8.
pub open spec fn byte_len(s: Seq<char>) -> nat {
    vstd::utf8::encode_utf8(s).len()
}

/// Whether two string slices hold the same characters.
pub fn str_eq(a: &str, b: &str) -> (r: bool)
    ensures
        r == (a@ == b@),
{
    let x = a.as_bytes();
    let y = b.as_bytes();
    proof {
        vstd::utf8::encode_utf8_decode_utf8(a@);
        vstd::utf8::encode_utf8_decode_utf8(b@);
    }
    if x.len() != y.len() {
        return false;
    }
    let mut i: usize = 0;
    while i < x.len()
        invariant
            i <= x.len(),
            x.len() == y.len(),
            x@ == a.spec_bytes(),
            y@ == b.spec_bytes(),
            forall|j: int| 0 <= j < i ==> x@[j] == y@[j],
        decreases x.len() - i,
    {
        if x[i] != y[i] {
            return false;
        }
        i += 1;
    }
    assert(x@ =~= y@);
    true
}

/// The characters of a string, in order.
pub fn to_chars(s: &str) -> (v: Vec<char>)
    ensures
        v@ == s@,
{
    let mut v: Vec<char> = Vec::new();
    for c in it: s.chars()
        invariant
            v@ == it.seq().take(it.index() as int),
    {
        v.push(c);
    }
    v
}

/// What `String::from_utf8_lossy` makes of bytes: their text, with the
/// replacement character in place of whatever is no UTF-8.
pub uninterp spec fn utf8_lossy(bytes: Seq<u8>) -> Seq<char>;

/// `String::from_utf8_lossy`, as an owned string. The result depends on the
/// bytes alone.
#[verifier::external_body]
pub(crate) fn decode_lossy(bytes: &[u8]) -> (r: String)
    ensures
        r@ == utf8_lossy(bytes@),
{
    String::from_utf8_lossy(bytes).into_owned()
}

/// `needle` occurs in `hay` as a run of consecutive characters.
pub open spec fn occurs_at(hay: Seq<char>, needle: Seq<char>, at: int) -> bool {
    0 <= at && at + needle.len() <= hay.len() && hay.subrange(at, at + needle.len()) == needle
}

/// `needle` occurs somewhere in `hay`.
pub open spec fn contains(hay: Seq<char>, needle: Seq<char>) -> bool {
    exists|at: int| occurs_at(hay, needle, at)
}

/// Whether `needle` stands in `hay` at position `at`.
pub fn matches_at(hay: &Vec<char>, needle: &Vec<char>, at: usize) -> (r: bool)
    ensures
        r == occurs_at(hay@, needle@, at as int),
{
    if needle.len() > hay.len() || at > hay.len() - needle.len() {
        return false;
    }
    let mut j: usize = 0;
    while j < needle.len()
        invariant
            j <= needle.len(),
            at + needle.len() <= hay.len(),
            forall|k: int| 0 <= k < j ==> hay@[at + k] == needle@[k],
        decreases needle.len() - j,
    {
        if hay[at + j] != needle[j] {
            assert(hay@.subrange(at as int, at + needle.len())[j as int] == hay@[at + j]);
            return false;
        }
        j += 1;
    }
    assert(hay@.subrange(at as int, at + needle.len()) =~= needle@);
    true
}

/// Whether `needle` occurs somewhere in `hay`.
pub fn contains_chars(hay: &Vec<char>, needle: &Vec<char>) -> (r: bool)
    ensures
        r == contains(hay@, needle@),
{
    if needle.len() > hay.len() {
        assert forall|at: int| !occurs_at(hay@, needle@, at) by {}
        return false;
    }
    let last: usize = hay.len() - needle.len();
    let mut at: usize = 0;
    while at < last
        invariant
            at <= last,
            last == hay.len() - needle.len(),
            forall|k: int| 0 <= k < at ==> !occurs_at(hay@, needle@, k),
        decreases last - at,
    {
        if matches_at(hay, needle, at) {
            return true;
        }
        at += 1;
    }
    let found = matches_at(hay, needle, last);
    assert(!found ==> forall|k: int| !occurs_at(hay@, needle@, k));
    found
}

/// The first place at or after `from` where `needle` stands in `hay`.
pub fn find_from(hay: &Vec<char>, needle: &Vec<char>, from: usize) -> (r: Option<usize>)
    ensures
        match r {
            Some(at) => from <= at && occurs_at(hay@, needle@, at as int) && forall|k: int|
                from <= k < at ==> !occurs_at(hay@, needle@, k),
            None => forall|k: int| from <= k ==> !occurs_at(hay@, needle@, k),
        },
{
    let mut at: usize = from;
    while at <= hay.len()
        invariant
            from <= at,
            forall|k: int| from <= k < at ==> !occurs_at(hay@, needle@, k),
        decreases hay.len() + 1 - at,
    {
        if matches_at(hay, needle, at) {
            return Some(at);
        }
        if at == hay.len() {
            return None;
        }
        at += 1;
    }
    None
}

/// Whether `needle` occurs somewhere in `hay`.
pub fn str_contains(hay: &str, needle: &str) -> (r: bool)
    ensures
        r == contains(hay@, needle@),
{
    let h = to_chars(hay);
    let n = to_chars(needle);
    contains_chars(&h, &n)
}

/// `s` with every occurrence of `pattern` replaced by `with`, the occurrences
/// taken from the left and without overlap. An empty pattern replaces nothing.
pub open spec fn replace_all(s: Seq<char>, pattern: Seq<char>, with: Seq<char>) -> Seq<char>
    decreases s.len(),
{
    if pattern.len() == 0 || s.len() < pattern.len() {
        s
    } else if s.subrange(0, pattern.len() as int) == pattern {
        with + replace_all(s.skip(pattern.len() as int), pattern, with)
    } else {
        seq![s[0]] + replace_all(s.skip(1), pattern, with)
    }
}

/// `text` with every occurrence of `pattern` replaced by `with`.
pub fn replace_in(text: &str, pattern: &str, with: &str) -> (r: String)
    ensures
        r@ == replace_all(text@, pattern@, with@),
{
    let s = to_chars(text);
    let p = to_chars(pattern);
    let n = s.len();
    let m = p.len();
    if m == 0 || n < m {
        return text.to_string();
    }
    let mut out = String::new();
    let mut start: usize = 0;
    let mut i: usize = 0;
    proof {
        assert(s@.subrange(0, 0) =~= Seq::<char>::empty());
        assert(s@.skip(0) =~= s@);
        assert(Seq::<char>::empty() + Seq::<char>::empty() + replace_all(s@, p@, with@)
            =~= replace_all(s@, p@, with@));
    }
    while i <= n - m
        invariant
            0 < m <= n,
            n == s.len(),
            m == p.len(),
            s@ == text@,
            p@ == pattern@,
            start <= i <= n,
            replace_all(s@, p@, with@) == out@ + s@.subrange(start as int, i as int) + replace_all(
                s@.skip(i as int),
                p@,
                with@,
            ),
        decreases n - i,
    {
        let ghost rest = s@.skip(i as int);
        proof {
            assert(rest.subrange(0, m as int) =~= s@.subrange(i as int, i + m));
        }
        if matches_at(&s, &p, i) {
            let ghost before = out@;
            let run = text.substring_char(start, i);
            out.append(run);
            out.append(with);
            proof {
                assert(rest.skip(m as int) =~= s@.skip(i + m));
                assert(s@.subrange(i + m, i + m) =~= Seq::<char>::empty());
                assert(before + s@.subrange(start as int, i as int) + (with@ + replace_all(
                    s@.skip(i + m),
                    p@,
                    with@,
                )) =~= out@ + Seq::<char>::empty() + replace_all(s@.skip(i + m), p@, with@)) by {
                    assert(out@ == before + s@.subrange(start as int, i as int) + with@);
                }
            }
            i += m;
            start = i;
        } else {
            proof {
                assert(rest.skip(1) =~= s@.skip(i + 1));
                assert(s@.subrange(start as int, i as int) + seq![rest[0]] =~= s@.subrange(
                    start as int,
                    i + 1,
                ));
                assert(out@ + s@.subrange(start as int, i as int) + (seq![rest[0]] + replace_all(
                    s@.skip(i + 1),
                    p@,
                    with@,
                )) =~= out@ + s@.subrange(start as int, i + 1) + replace_all(
                    s@.skip(i + 1),
                    p@,
                    with@,
                ));
            }
            i += 1;
        }
    }
    let tail = text.substring_char(start, n);
    proof {
        assert(s@.subrange(start as int, i as int) + s@.skip(i as int) =~= s@.subrange(
            start as int,
            n as int,
        ));
        assert(out@ + s@.subrange(start as int, i as int) + s@.skip(i as int) =~= out@
            + s@.subrange(start as int, n as int));
    }
    out.append(tail);
    out
}

/// White space, as Unicode's `White_Space` property has it.
pub open spec fn is_space(c: char) -> bool {
    let u = c as u32;
    ||| 0x09 <= u <= 0x0D
    ||| u == 0x20
    ||| u == 0x85
    ||| u == 0xA0
    ||| u == 0x1680
    ||| 0x2000 <= u <= 0x200A
    ||| u == 0x2028
    ||| u == 0x2029
    ||| u == 0x202F
    ||| u == 0x205F
    ||| u == 0x3000
}

/// Whether `c` is white space.
pub fn is_space_char(c: char) -> (b: bool)
    ensures
        b == is_space(c),
{
    let u: u32 = c as u32;
    (0x09 <= u && u <= 0x0D) || u == 0x20 || u == 0x85 || u == 0xA0 || u == 0x1680 || (0x2000 <= u
        && u <= 0x200A) || u == 0x2028 || u == 0x2029 || u == 0x202F || u == 0x205F || u == 0x3000
}

/// `s` without the white space at its start.
pub open spec fn trim_start(s: Seq<char>) -> Seq<char>
    decreases s.len(),
{
    if s.len() > 0 && is_space(s[0]) {
        trim_start(s.drop_first())
    } else {
        s
    }
}

/// `s` without the white space at its end.
pub open spec fn trim_end(s: Seq<char>) -> Seq<char>
    decreases s.len(),
{
    if s.len() > 0 && is_space(s.last()) {
        trim_end(s.drop_last())
    } else {
        s
    }
}

/// `s` without the white space at its start and at its end.
pub open spec fn trim(s: Seq<char>) -> Seq<char> {
    trim_end(trim_start(s))
}

/// `s` without the run of `c` at its start.
pub open spec fn strip_leading(s: Seq<char>, c: char) -> Seq<char>
    decreases s.len(),
{
    if s.len() > 0 && s[0] == c {
        strip_leading(s.drop_first(), c)
    } else {
        s
    }
}

/// `text` without the white space at its start and at its end.
pub fn trimmed(text: &str) -> (r: &str)
    ensures
        r@ == trim(text@),
{
    let s = to_chars(text);
    let n = s.len();
    let mut a: usize = 0;
    assert(s@.skip(0) =~= s@);
    while a < n && is_space_char(s[a])
        invariant
            a <= n,
            n == s.len(),
            trim_start(s@) == trim_start(s@.skip(a as int)),
        decreases n - a,
    {
        assert(s@.skip(a as int).drop_first() =~= s@.skip(a as int + 1));
        a += 1;
    }
    let ghost front = s@.skip(a as int);
    assert(trim_start(s@) == front);
    let mut b: usize = n;
    assert(front.take(front.len() as int) =~= front);
    while b > a && is_space_char(s[b - 1])
        invariant
            a <= b <= n,
            n == s.len(),
            front == s@.skip(a as int),
            trim_end(front) == trim_end(front.take(b - a)),
        decreases b,
    {
        assert(front.take(b - a).last() == s@[b - 1]);
        assert(front.take(b - a).drop_last() =~= front.take(b - a - 1));
        b -= 1;
    }
    proof {
        let kept = front.take(b - a);
        if b > a {
            assert(kept.last() == s@[b - 1]);
        }
        assert(trim_end(kept) == kept);
        assert(kept =~= s@.subrange(a as int, b as int));
    }
    text.substring_char(a, b)
}

/// `text` without the run of `c` at its start.
pub fn strip_leading_char(text: &str, c: char) -> (r: &str)
    ensures
        r@ == strip_leading(text@, c),
{
    let s = to_chars(text);
    let n = s.len();
    let mut a: usize = 0;
    assert(s@.skip(0) =~= s@);
    while a < n && s[a] == c
        invariant
            a <= n,
            n == s.len(),
            strip_leading(s@, c) == strip_leading(s@.skip(a as int), c),
        decreases n - a,
    {
        assert(s@.skip(a as int).drop_first() =~= s@.skip(a as int + 1));
        a += 1;
    }
    assert(s@.skip(a as int) =~= s@.subrange(a as int, n as int));
    text.substring_char(a, n)
}

} // verus!
