//! Plain-text helpers for the display strings the core hands to the
//! front end: appending single characters to a `String`, rendering a
//! number in decimal, and trimming blank edges off the input buffer.
use vstd::prelude::*;

verus! {

/// Relies on String::push: appends the character to the end of the string.
pub assume_specification[ String::push ](s: &mut String, ch: char)
    ensures
        final(s)@ == old(s)@.push(ch),
;

/// Relies on String::pop: removes the last character and returns it,
/// or returns None when the string is empty.
pub assume_specification[ String::pop ](s: &mut String) -> (r: Option<char>)
    ensures
        old(s)@.len() == 0 ==> r is None && final(s)@ == old(s)@,
        old(s)@.len() > 0 ==> r == Some(old(s)@.last()) && final(s)@ == old(s)@.drop_last(),
;

/// Relies on String::clear: empties the string.
pub assume_specification[ String::clear ](s: &mut String)
    ensures
        final(s)@ == Seq::<char>::empty(),
;

/// The decimal digit characters.
pub open spec fn spec_digit_char(d: nat) -> char {
    if d == 0 {
        '0'
    } else if d == 1 {
        '1'
    } else if d == 2 {
        '2'
    } else if d == 3 {
        '3'
    } else if d == 4 {
        '4'
    } else if d == 5 {
        '5'
    } else if d == 6 {
        '6'
    } else if d == 7 {
        '7'
    } else if d == 8 {
        '8'
    } else {
        '9'
    }
}

/// The decimal rendering of a number, most significant digit first,
/// with no leading zeroes except on zero itself.
pub open spec fn spec_dec(n: nat) -> Seq<char>
    decreases n,
{
    if n < 10 {
        seq![spec_digit_char(n)]
    } else {
        spec_dec(n / 10).push(spec_digit_char(n % 10))
    }
}

fn digit_char(d: u64) -> (c: char)
    requires
        d < 10,
    ensures
        c == spec_digit_char(d as nat),
{
    if d == 0 {
        '0'
    } else if d == 1 {
        '1'
    } else if d == 2 {
        '2'
    } else if d == 3 {
        '3'
    } else if d == 4 {
        '4'
    } else if d == 5 {
        '5'
    } else if d == 6 {
        '6'
    } else if d == 7 {
        '7'
    } else if d == 8 {
        '8'
    } else {
        '9'
    }
}

/// Append the decimal rendering of `n`.
pub fn push_dec_u64(s: &mut String, n: u64)
    ensures
        final(s)@ == old(s)@ + spec_dec(n as nat),
    decreases n,
{
    if n < 10 {
        let c = digit_char(n);
        s.push(c);
        proof {
            assert(s@ =~= old(s)@ + spec_dec(n as nat));
        }
    } else {
        push_dec_u64(s, n / 10);
        let c = digit_char(n % 10);
        s.push(c);
        proof {
            assert(s@ =~= old(s)@ + spec_dec(n as nat));
        }
    }
}

/// The characters `trim` strips: blank space at a line's edge.
pub open spec fn is_blank_char(c: char) -> bool {
    c == ' ' || c == '\t' || c == '\n' || c == '\r'
}

fn blank_char(c: char) -> (b: bool)
    ensures
        b == is_blank_char(c),
{
    c == ' ' || c == '\t' || c == '\n' || c == '\r'
}

/// What is left after stripping blank characters off the front.
pub open spec fn spec_trim_front(s: Seq<char>) -> Seq<char>
    decreases s.len(),
{
    if s.len() == 0 {
        s
    } else if is_blank_char(s[0]) {
        spec_trim_front(s.drop_first())
    } else {
        s
    }
}

/// What is left after stripping blank characters off the back.
pub open spec fn spec_trim_back(s: Seq<char>) -> Seq<char>
    decreases s.len(),
{
    if s.len() == 0 {
        s
    } else if is_blank_char(s.last()) {
        spec_trim_back(s.drop_last())
    } else {
        s
    }
}

/// The string with blank space stripped off both edges.
pub open spec fn spec_trimmed(s: Seq<char>) -> Seq<char> {
    spec_trim_back(spec_trim_front(s))
}

proof fn lemma_trim_front_is_subrange(s: Seq<char>, i: int)
    requires
        0 <= i <= s.len(),
        forall|j: int| 0 <= j < i ==> is_blank_char(s[j]),
        i < s.len() ==> !is_blank_char(s[i]),
    ensures
        spec_trim_front(s) == s.subrange(i, s.len() as int),
    decreases i,
{
    if i == 0 {
        assert(s.subrange(0, s.len() as int) =~= s);
    } else {
        let t = s.drop_first();
        assert(forall|j: int| 0 <= j < i - 1 ==> is_blank_char(t[j]));
        lemma_trim_front_is_subrange(t, i - 1);
        assert(t.subrange(i - 1, t.len() as int) =~= s.subrange(i, s.len() as int));
    }
}

proof fn lemma_trim_back_is_subrange(s: Seq<char>, e: int)
    requires
        0 <= e <= s.len(),
        forall|j: int| e <= j < s.len() ==> is_blank_char(s[j]),
        e > 0 ==> !is_blank_char(s[e - 1]),
    ensures
        spec_trim_back(s) == s.subrange(0, e),
    decreases s.len() - e,
{
    if e == s.len() {
        if s.len() == 0 {
            assert(s.subrange(0, 0) =~= s);
        } else if is_blank_char(s.last()) {
            let t = s.drop_last();
            lemma_trim_back_is_subrange(t, e - 1);
            assert(t.subrange(0, e - 1) =~= s.subrange(0, e - 1));
            assert(e - 1 == t.len());
            assert(t.subrange(0, t.len() as int) =~= t);
            assert(spec_trim_back(s) == spec_trim_back(t));
        } else {
            assert(s.subrange(0, s.len() as int) =~= s);
        }
    } else {
        let t = s.drop_last();
        lemma_trim_back_is_subrange(t, e);
        assert(t.subrange(0, e) =~= s.subrange(0, e));
    }
}

/// A fresh string holding `s` with blank space stripped off both ends.
pub fn trimmed(s: &str) -> (r: String)
    ensures
        r@ == spec_trimmed(s@),
{
    let len = s.unicode_len();
    let mut start: usize = 0;
    while start < len && blank_char(s.get_char(start))
        invariant
            start <= len,
            len == s@.len(),
            forall|j: int| 0 <= j < start ==> is_blank_char(s@[j]),
        decreases len - start,
    {
        start = start + 1;
    }
    let mut end: usize = len;
    while end > start && blank_char(s.get_char(end - 1))
        invariant
            start <= end <= len,
            len == s@.len(),
            forall|j: int| 0 <= j < start ==> is_blank_char(s@[j]),
            forall|j: int| end <= j < len ==> is_blank_char(s@[j]),
        decreases end,
    {
        end = end - 1;
    }
    proof {
        lemma_trim_front_is_subrange(s@, start as int);
        let t = s@.subrange(start as int, len as int);
        if end == start {
            assert(forall|j: int| 0 <= j < t.len() ==> is_blank_char(t[j]));
            lemma_trim_back_is_subrange(t, 0);
        } else {
            assert(forall|j: int| end - start <= j < t.len() ==> is_blank_char(t[j]));
            assert(!is_blank_char(t[end - start - 1]));
            lemma_trim_back_is_subrange(t, end - start);
        }
        assert(t.subrange(0, end - start) =~= s@.subrange(start as int, end as int));
    }
    let piece = s.substring_char(start, end);
    String::from_str(piece)
}

} // verus!
