//! Character-level helpers on strings.
//!
//! Every function here is stated over the string's view, its sequence of
//! characters.

use vstd::prelude::*;
use vstd::std_specs::iter::IteratorSpec;

verus! {

/// Appends one character to a string (`String::push`).
pub assume_specification[ std::string::String::push ](s: &mut std::string::String, ch: char)
    ensures
        final(s)@ == old(s)@.push(ch),
;

/// The text without its leading and trailing whitespace, as `str::trim`
/// returns it.
pub uninterp spec fn trimmed(text: Seq<char>) -> Seq<char>;

/// Removes leading and trailing whitespace with `str::trim`.
#[verifier::external_body]
pub(crate) fn trim(text: &str) -> (out: &str)
    ensures
        out@ == trimmed(text@),
{
    text.trim()
}

/// The characters of an optional string.
pub open spec fn optional_text(s: Option<String>) -> Option<Seq<char>> {
    match s {
        Some(text) => Some(text@),
        None => None,
    }
}

/// `prefix` stands at the start of `s`.
pub open spec fn is_prefix(prefix: Seq<char>, s: Seq<char>) -> bool {
    prefix.len() <= s.len() && s.subrange(0, prefix.len() as int) == prefix
}

/// `needle` stands in `s` at position `at`.
pub open spec fn occurs_at(needle: Seq<char>, s: Seq<char>, at: int) -> bool {
    0 <= at && at + needle.len() <= s.len() && s.subrange(at, at + needle.len()) == needle
}

/// `needle` stands somewhere in `s`.
pub open spec fn occurs_in(needle: Seq<char>, s: Seq<char>) -> bool {
    exists|at: int| occurs_at(needle, s, at)
}

/// The code of `c` with the ASCII capital letters folded onto the small ones.
pub open spec fn ascii_fold(c: char) -> u32 {
    if 'A' <= c && c <= 'Z' {
        (c as u32 + 32) as u32
    } else {
        c as u32
    }
}

/// The two sequences are equal up to the case of ASCII letters.
pub open spec fn same_ignoring_ascii_case(a: Seq<char>, b: Seq<char>) -> bool {
    a.len() == b.len() && forall|i: int| 0 <= i < a.len() ==> ascii_fold(#[trigger] a[i]) == ascii_fold(b[i])
}

/// `s` without every leading repetition of `prefix`.
pub open spec fn without_leading(prefix: Seq<char>, s: Seq<char>) -> Seq<char>
    decreases s.len(),
{
    if prefix.len() > 0 && is_prefix(prefix, s) {
        without_leading(prefix, s.subrange(prefix.len() as int, s.len() as int))
    } else {
        s
    }
}

/// The character of one decimal digit.
pub open spec fn digit_char(d: nat) -> char {
    if d == 0 {
        '0'
    } else if d == 1 {
        '1'
    } else if d == 2 {
        '2'
    } else if d == 3 {
        '3'
    } else if d == 4 {
        '4'
    } else if d == 5 {
        '5'
    } else if d == 6 {
        '6'
    } else if d == 7 {
        '7'
    } else if d == 8 {
        '8'
    } else {
        '9'
    }
}

/// The decimal numeral of `n`, without leading zeros.
pub open spec fn decimal(n: nat) -> Seq<char>
    decreases n,
{
    if n < 10 {
        seq![digit_char(n)]
    } else {
        decimal(n / 10).push(digit_char(n % 10))
    }
}

/// The characters of `s`, in order.
pub fn chars_of(s: &str) -> (out: Vec<char>)
    ensures
        out@ == s@,
{
    let mut out: Vec<char> = Vec::new();
    let mut it = s.chars();
    let ghost mut taken: int = 0;
    loop
        invariant
            it.obeys_prophetic_iter_laws(),
            0 <= taken <= s@.len(),
            out@ == s@.subrange(0, taken),
            it.remaining() == s@.subrange(taken, s@.len() as int),
        decreases s@.len() - taken,
    {
        let next = it.next();
        match next {
            Some(c) => {
                out.push(c);
                proof {
                    taken = taken + 1;
                }
            },
            None => {
                return out;
            },
        }
    }
}

/// The string made of `chars[from..to]`.
pub fn string_of(chars: &Vec<char>, from: usize, to: usize) -> (out: String)
    requires
        from <= to <= chars.len(),
    ensures
        out@ == chars@.subrange(from as int, to as int),
{
    let mut out = String::new();
    let mut i: usize = from;
    while i < to
        invariant
            from <= i <= to <= chars.len(),
            out@ == chars@.subrange(from as int, i as int),
        decreases to - i,
    {
        out.push(chars[i]);
        i += 1;
    }
    out
}

/// `a` followed by `b`.
pub fn joined(a: &str, b: &str) -> (out: String)
    ensures
        out@ == a@ + b@,
{
    let mut out = a.to_owned();
    out.append(b);
    out
}

fn matches_at(needle: &Vec<char>, s: &Vec<char>, at: usize) -> (r: bool)
    requires
        at + needle.len() <= s.len(),
    ensures
        r == occurs_at(needle@, s@, at as int),
{
    let mut i: usize = 0;
    while i < needle.len()
        invariant
            i <= needle.len(),
            at + needle.len() <= s.len(),
            forall|j: int| 0 <= j < i ==> s@[at + j] == needle@[j],
        decreases needle.len() - i,
    {
        if s[at + i] != needle[i] {
            proof {
                let window = s@.subrange(at as int, at + needle@.len());
                assert(window[i as int] == s@[at + i]);
            }
            return false;
        }
        i += 1;
    }
    assert(s@.subrange(at as int, at + needle@.len()) =~= needle@);
    true
}

/// Whether `a` and `b` hold the same characters.
pub fn same_text(a: &str, b: &str) -> (r: bool)
    ensures
        r == (a@ == b@),
{
    let left = chars_of(a);
    let right = chars_of(b);
    if left.len() != right.len() {
        return false;
    }
    let r = matches_at(&left, &right, 0);
    assert(right@.subrange(0, right@.len() as int) =~= right@);
    r
}

/// Whether `s` begins with `prefix`.
pub fn starts_with(s: &str, prefix: &str) -> (r: bool)
    ensures
        r == is_prefix(prefix@, s@),
{
    let text = chars_of(s);
    let head = chars_of(prefix);
    if head.len() > text.len() {
        return false;
    }
    matches_at(&head, &text, 0)
}

/// Whether `needle` stands somewhere in `s`.
pub fn contains(s: &str, needle: &str) -> (r: bool)
    ensures
        r == occurs_in(needle@, s@),
{
    let text = chars_of(s);
    let pattern = chars_of(needle);
    if pattern.len() > text.len() {
        return false;
    }
    if pattern.len() == 0 {
        assert(s@.subrange(0, 0) =~= needle@);
        assert(occurs_at(needle@, s@, 0));
        return true;
    }
    let last: usize = text.len() - pattern.len();
    let mut at: usize = 0;
    while at <= last
        invariant
            at <= last + 1,
            last < text.len(),
            last == text.len() - pattern.len(),
            pattern.len() <= text.len(),
            text@ == s@,
            pattern@ == needle@,
            forall|j: int| 0 <= j < at ==> !occurs_at(needle@, s@, j),
        decreases last + 1 - at,
    {
        if matches_at(&pattern, &text, at) {
            return true;
        }
        at += 1;
    }
    false
}

fn fold_code(c: char) -> (r: u32)
    ensures
        r == ascii_fold(c),
{
    if 'A' <= c && c <= 'Z' {
        c as u32 + 32
    } else {
        c as u32
    }
}

/// Whether `a` and `b` are equal up to the case of ASCII letters.
pub fn eq_ignore_ascii_case(a: &str, b: &str) -> (r: bool)
    ensures
        r == same_ignoring_ascii_case(a@, b@),
{
    let left = chars_of(a);
    let right = chars_of(b);
    if left.len() != right.len() {
        return false;
    }
    let mut i: usize = 0;
    while i < left.len()
        invariant
            i <= left.len(),
            left.len() == right.len(),
            left@ == a@,
            right@ == b@,
            forall|j: int| 0 <= j < i ==> ascii_fold(#[trigger] a@[j]) == ascii_fold(b@[j]),
        decreases left.len() - i,
    {
        if fold_code(left[i]) != fold_code(right[i]) {
            return false;
        }
        i += 1;
    }
    true
}

/// `s` without every leading repetition of `prefix`.
pub fn strip_leading(s: &str, prefix: &str) -> (out: String)
    ensures
        out@ == without_leading(prefix@, s@),
{
    let text = chars_of(s);
    let head = chars_of(prefix);
    let mut start: usize = 0;
    assert(s@.subrange(0, s@.len() as int) =~= s@);
    if head.len() > 0 {
        while head.len() <= text.len() - start && matches_at(&head, &text, start)
            invariant
                start <= text.len(),
                head.len() > 0,
                head@ == prefix@,
                text@ == s@,
                without_leading(prefix@, s@) == without_leading(
                    prefix@,
                    s@.subrange(start as int, s@.len() as int),
                ),
            decreases text.len() - start,
        {
            proof {
                let rest = s@.subrange(start as int, s@.len() as int);
                assert(rest.subrange(0, head@.len() as int) =~= s@.subrange(
                    start as int,
                    start + head@.len(),
                ));
                assert(rest.subrange(head@.len() as int, rest.len() as int) =~= s@.subrange(
                    start + head@.len(),
                    s@.len() as int,
                ));
            }
            start += head.len();
        }
        proof {
            let rest = s@.subrange(start as int, s@.len() as int);
            if head@.len() <= rest.len() {
                assert(rest.subrange(0, head@.len() as int) =~= s@.subrange(
                    start as int,
                    start + head@.len(),
                ));
            }
        }
    }
    string_of(&text, start, text.len())
}

fn digit_of(d: u32) -> (c: char)
    requires
        d < 10,
    ensures
        c == digit_char(d as nat),
{
    if d == 0 {
        '0'
    } else if d == 1 {
        '1'
    } else if d == 2 {
        '2'
    } else if d == 3 {
        '3'
    } else if d == 4 {
        '4'
    } else if d == 5 {
        '5'
    } else if d == 6 {
        '6'
    } else if d == 7 {
        '7'
    } else if d == 8 {
        '8'
    } else {
        '9'
    }
}

/// Appends the decimal numeral of `n` to `out`.
pub fn push_decimal(out: &mut String, n: u32)
    ensures
        final(out)@ == old(out)@ + decimal(n as nat),
    decreases n,
{
    if n < 10 {
        out.push(digit_of(n));
        assert(old(out)@.push(digit_char(n as nat)) =~= old(out)@ + decimal(n as nat));
    } else {
        push_decimal(out, n / 10);
        out.push(digit_of(n % 10));
        assert((old(out)@ + decimal((n / 10) as nat)).push(digit_char((n % 10) as nat)) =~= old(
            out,
        )@ + decimal(n as nat));
    }
}

} // verus!
