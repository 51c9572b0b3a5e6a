//! Character-level text helpers shared by the error messages.
//!
//! Every message that the runtime hands back to a caller is assembled here
//! from literal fragments and decimal numbers, so the exact wording of an
//! error is part of the contracts of the functions that build it.

use vstd::prelude::*;
use vstd::string::*;

verus! {

/// `needle` stands in `hay` starting at character `at`.
pub open spec fn occurs_at(hay: Seq<char>, needle: Seq<char>, at: int) -> bool {
    &&& 0 <= at
    &&& at + needle.len() <= hay.len()
    &&& forall|j: int| 0 <= j < needle.len() ==> #[trigger] hay[at + j] == needle[j]
}

/// `needle` is a contiguous piece of `hay`.
pub open spec fn has_text(hay: Seq<char>, needle: Seq<char>) -> bool {
    exists|at: int| #[trigger] occurs_at(hay, needle, at)
}

/// The decimal digit character of `d`.
pub open spec fn digit(d: nat) -> char {
    if d == 0 {
        '0'
    } else if d == 1 {
        '1'
    } else if d == 2 {
        '2'
    } else if d == 3 {
        '3'
    } else if d == 4 {
        '4'
    } else if d == 5 {
        '5'
    } else if d == 6 {
        '6'
    } else if d == 7 {
        '7'
    } else if d == 8 {
        '8'
    } else {
        '9'
    }
}

/// Decimal rendering of a natural number, without leading zeros.
pub open spec fn decimal(n: nat) -> Seq<char>
    decreases n,
{
    if n < 10 {
        seq![digit(n)]
    } else {
        decimal(n / 10).push(digit(n % 10))
    }
}

/// Decimal rendering of an integer, with a leading minus sign where negative.
pub open spec fn signed_decimal(n: int) -> Seq<char> {
    if n < 0 {
        "-"@ + decimal((-n) as nat)
    } else {
        decimal(n as nat)
    }
}

/// The hexadecimal digit character of `d`.
pub open spec fn hex_digit(d: nat) -> char {
    if d < 10 {
        digit(d)
    } else if d == 10 {
        'a'
    } else if d == 11 {
        'b'
    } else if d == 12 {
        'c'
    } else if d == 13 {
        'd'
    } else if d == 14 {
        'e'
    } else {
        'f'
    }
}

/// Hexadecimal rendering of a natural number, without leading zeros.
pub open spec fn hexadecimal(n: nat) -> Seq<char>
    decreases n,
{
    if n < 16 {
        seq![hex_digit(n)]
    } else {
        hexadecimal(n / 16).push(hex_digit(n % 16))
    }
}

/// The characters of `s`, one per element.
pub fn chars_of(s: &str) -> (v: Vec<char>)
    ensures
        v@ == s@,
{
    let n: usize = s.unicode_len();
    let mut v: Vec<char> = Vec::new();
    let mut i: usize = 0;
    while i < n
        invariant
            i <= n,
            n == s@.len(),
            v@ == s@.take(i as int),
        decreases n - i,
    {
        v.push(s.get_char(i));
        i = i + 1;
        assert(v@ =~= s@.take(i as int));
    }
    v
}

/// Whether `needle` is a contiguous piece of `hay`.
pub fn contains_text(hay: &str, needle: &str) -> (found: bool)
    ensures
        found == has_text(hay@, needle@),
{
    let h: Vec<char> = chars_of(hay);
    let p: Vec<char> = chars_of(needle);
    if p.len() > h.len() {
        return false;
    }
    let last: usize = h.len() - p.len();
    let mut at: usize = 0;
    loop
        invariant
            h@ == hay@,
            p@ == needle@,
            p.len() <= h.len(),
            last == h.len() - p.len(),
            at <= last,
            forall|k: int| 0 <= k < at ==> !#[trigger] occurs_at(hay@, needle@, k),
        decreases last - at,
    {
        let mut j: usize = 0;
        while j < p.len() && h[at + j] == p[j]
            invariant
                h@ == hay@,
                p@ == needle@,
                at + p.len() <= h.len(),
                j <= p.len(),
                forall|m: int| 0 <= m < j ==> #[trigger] hay@[at + m] == needle@[m],
            decreases p.len() - j,
        {
            j = j + 1;
        }
        if j == p.len() {
            assert(occurs_at(hay@, needle@, at as int));
            return true;
        }
        assert(hay@[at + j as int] != needle@[j as int]);
        assert(!occurs_at(hay@, needle@, at as int));
        if at == last {
            assert forall|k: int| !#[trigger] occurs_at(hay@, needle@, k) by {
                if k > last {
                    assert(k + needle@.len() > hay@.len());
                }
            }
            return false;
        }
        at = at + 1;
    }
}

fn digit_text(d: u64) -> (s: &'static str)
    requires
        d < 10,
    ensures
        s@ == seq![digit(d as nat)],
{
    proof {
        reveal_strlit("0");
        reveal_strlit("1");
        reveal_strlit("2");
        reveal_strlit("3");
        reveal_strlit("4");
        reveal_strlit("5");
        reveal_strlit("6");
        reveal_strlit("7");
        reveal_strlit("8");
        reveal_strlit("9");
    }
    let s: &'static str = match d {
        0 => "0",
        1 => "1",
        2 => "2",
        3 => "3",
        4 => "4",
        5 => "5",
        6 => "6",
        7 => "7",
        8 => "8",
        _ => "9",
    };
    assert(s@ =~= seq![digit(d as nat)]);
    s
}

/// Decimal rendering of an unsigned number.
pub fn unsigned_text(n: u64) -> (s: String)
    ensures
        s@ == decimal(n as nat),
    decreases n,
{
    if n < 10 {
        String::from_str(digit_text(n))
    } else {
        let mut s = unsigned_text(n / 10);
        let d = digit_text(n % 10);
        s.append(d);
        assert(s@ =~= decimal((n / 10) as nat).push(digit((n % 10) as nat)));
        s
    }
}

/// Decimal rendering of a signed number.
pub fn signed_text(n: i64) -> (s: String)
    ensures
        s@ == signed_decimal(n as int),
{
    if n < 0 {
        let mut s = String::from_str("-");
        let magnitude: u64 = (-(n as i128)) as u64;
        let digits = unsigned_text(magnitude);
        s.append(digits.as_str());
        s
    } else {
        unsigned_text(n as u64)
    }
}

fn hex_digit_text(d: u64) -> (s: &'static str)
    requires
        d < 16,
    ensures
        s@ == seq![hex_digit(d as nat)],
{
    if d < 10 {
        return digit_text(d);
    }
    proof {
        reveal_strlit("a");
        reveal_strlit("b");
        reveal_strlit("c");
        reveal_strlit("d");
        reveal_strlit("e");
        reveal_strlit("f");
    }
    let s: &'static str = match d {
        10 => "a",
        11 => "b",
        12 => "c",
        13 => "d",
        14 => "e",
        _ => "f",
    };
    assert(s@ =~= seq![hex_digit(d as nat)]);
    s
}

/// Hexadecimal rendering of an unsigned number.
pub fn hex_text(n: u64) -> (s: String)
    ensures
        s@ == hexadecimal(n as nat),
    decreases n,
{
    if n < 16 {
        String::from_str(hex_digit_text(n))
    } else {
        let mut s = hex_text(n / 16);
        let d = hex_digit_text(n % 16);
        s.append(d);
        assert(s@ =~= hexadecimal((n / 16) as nat).push(hex_digit((n % 16) as nat)));
        s
    }
}

/// `a` followed by `b`.
pub fn join2(a: &str, b: &str) -> (s: String)
    ensures
        s@ == a@ + b@,
{
    let mut s = String::from_str(a);
    s.append(b);
    s
}

/// `a`, `b` and `c`, one after the other.
pub fn join3(a: &str, b: &str, c: &str) -> (s: String)
    ensures
        s@ == a@ + b@ + c@,
{
    let mut s = join2(a, b);
    s.append(c);
    s
}

/// A piece of a text is a piece of the text extended on the right.
pub proof fn lemma_has_text_left(a: Seq<char>, b: Seq<char>, needle: Seq<char>)
    requires
        has_text(a, needle),
    ensures
        has_text(a + b, needle),
{
    let at = choose|at: int| occurs_at(a, needle, at);
    assert forall|j: int| 0 <= j < needle.len() implies #[trigger] (a + b)[at + j] == needle[j] by {
        assert(a[at + j] == needle[j]);
    }
    assert(occurs_at(a + b, needle, at));
}

/// A piece of a text is a piece of the text extended on the left.
pub proof fn lemma_has_text_right(a: Seq<char>, b: Seq<char>, needle: Seq<char>)
    requires
        has_text(b, needle),
    ensures
        has_text(a + b, needle),
{
    let at = choose|at: int| occurs_at(b, needle, at);
    let k = a.len() + at;
    assert forall|j: int| 0 <= j < needle.len() implies #[trigger] (a + b)[k + j] == needle[j] by {
        assert(b[at + j] == needle[j]);
    }
    assert(occurs_at(a + b, needle, k));
}

/// An occurrence cannot run across a character that the needle does not hold:
/// it lies on one side of it.
pub proof fn lemma_has_text_split(a: Seq<char>, mark: char, b: Seq<char>, needle: Seq<char>)
    requires
        forall|j: int| 0 <= j < needle.len() ==> needle[j] != mark,
        needle.len() > 0,
        has_text(a.push(mark) + b, needle),
    ensures
        has_text(a, needle) || has_text(b, needle),
{
    let whole = a.push(mark) + b;
    let at = choose|at: int| occurs_at(whole, needle, at);
    let cut = a.len() as int;
    if at <= cut < at + needle.len() {
        assert(whole[at + (cut - at)] == needle[cut - at]);
        assert(whole[cut] == mark);
        assert(false);
    }
    if at + needle.len() <= cut {
        assert forall|j: int| 0 <= j < needle.len() implies #[trigger] a[at + j] == needle[j] by {
            assert(whole[at + j] == needle[j]);
        }
        assert(occurs_at(a, needle, at));
    } else {
        let k = at - cut - 1;
        assert forall|j: int| 0 <= j < needle.len() implies #[trigger] b[k + j] == needle[j] by {
            assert(whole[at + j] == needle[j]);
        }
        assert(occurs_at(b, needle, k));
    }
}

/// The number that a digit stands for.
pub open spec fn digit_value(c: char) -> nat {
    if '0' <= c && c <= '9' {
        (c as nat - '0' as nat) as nat
    } else if 'a' <= c && c <= 'f' {
        (c as nat - 'a' as nat + 10) as nat
    } else {
        0
    }
}

/// The number that a sequence of digits stands for, in some base.
pub open spec fn value(digits: Seq<char>, base: nat) -> nat
    decreases digits.len(),
{
    if digits.len() == 0 {
        0
    } else {
        value(digits.drop_last(), base) * base + digit_value(digits.last())
    }
}

/// A number in decimal is read back as the number, so no two numbers look alike.
/// There are no leading zeros.
pub proof fn law_decimal_reads_back(n: nat)
    ensures
        value(decimal(n), 10) == n,
        decimal(n).len() >= 1,
        n > 0 ==> decimal(n)[0] != '0',
        forall|i: int| 0 <= i < decimal(n).len() ==> '0' <= #[trigger] decimal(n)[i] <= '9',
    decreases n,
{
    if n < 10 {
        let s = seq![digit(n)];
        assert(s.drop_last() =~= Seq::<char>::empty());
        assert(value(s.drop_last(), 10) == 0);
        assert(value(s, 10) == digit_value(digit(n)));
    } else {
        law_decimal_reads_back(n / 10);
        let s = decimal(n);
        assert(s.drop_last() =~= decimal(n / 10));
        assert(s.last() == digit(n % 10));
        assert(digit_value(digit(n % 10)) == n % 10);
        assert(s[0] == decimal(n / 10)[0]);
        assert forall|i: int| 0 <= i < s.len() implies '0' <= #[trigger] s[i] <= '9' by {
            if i < s.len() - 1 {
                assert(s[i] == decimal(n / 10)[i]);
            }
        }
    }
}

/// A number in hexadecimal is read back as the number.
pub proof fn law_hexadecimal_reads_back(n: nat)
    ensures
        value(hexadecimal(n), 16) == n,
        hexadecimal(n).len() >= 1,
        n > 0 ==> hexadecimal(n)[0] != '0',
    decreases n,
{
    if n < 16 {
        let s = seq![hex_digit(n)];
        assert(s.drop_last() =~= Seq::<char>::empty());
        assert(value(s.drop_last(), 16) == 0);
        assert(value(s, 16) == digit_value(hex_digit(n)));
    } else {
        law_hexadecimal_reads_back(n / 16);
        let s = hexadecimal(n);
        assert(s.drop_last() =~= hexadecimal(n / 16));
        assert(s.last() == hex_digit(n % 16));
        assert(digit_value(hex_digit(n % 16)) == n % 16);
        assert(s[0] == hexadecimal(n / 16)[0]);
    }
}

/// A negative number has a minus sign before its digits, and no other has one.
pub proof fn law_signed_decimal(n: int)
    ensures
        n < 0 ==> signed_decimal(n).len() >= 2 && signed_decimal(n)[0] == '-' && value(
            signed_decimal(n).drop_first(),
            10,
        ) == -n,
        n >= 0 ==> signed_decimal(n)[0] != '-' && value(signed_decimal(n), 10) == n,
{
    reveal_strlit("-");
    if n < 0 {
        law_decimal_reads_back((-n) as nat);
        assert(signed_decimal(n).drop_first() =~= decimal((-n) as nat));
    } else {
        law_decimal_reads_back(n as nat);
        assert('0' <= decimal(n as nat)[0]);
    }
}

} // verus!
