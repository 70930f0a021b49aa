//! Character-level text operations shared by the validators and the screens.
//!
//! Text is modelled as its sequence of Unicode scalar values (`Seq<char>`),
//! which is the view that `&str` and `String` have.

use vstd::prelude::*;

verus! {

/// Unicode `White_Space`, the set that `char::is_whitespace` and `str::trim` use.
pub open spec fn is_ws(c: char) -> bool {
    let u = c as u32;
    ||| 0x09 <= u <= 0x0D
    ||| u == 0x20
    ||| u == 0x85
    ||| u == 0xA0
    ||| u == 0x1680
    ||| 0x2000 <= u <= 0x200A
    ||| u == 0x2028
    ||| u == 0x2029
    ||| u == 0x202F
    ||| u == 0x205F
    ||| u == 0x3000
}

/// `s` without its leading whitespace.
pub open spec fn trim_start(s: Seq<char>) -> Seq<char>
    decreases s.len(),
{
    if s.len() > 0 && is_ws(s[0]) {
        trim_start(s.drop_first())
    } else {
        s
    }
}

/// `s` without its trailing whitespace.
pub open spec fn trim_end(s: Seq<char>) -> Seq<char>
    decreases s.len(),
{
    if s.len() > 0 && is_ws(s.last()) {
        trim_end(s.drop_last())
    } else {
        s
    }
}

/// `s` without leading and trailing whitespace, as `str::trim` gives it.
pub open spec fn trim(s: Seq<char>) -> Seq<char> {
    trim_end(trim_start(s))
}

/// Whether `c` is whitespace in the sense of `char::is_whitespace`.
pub fn is_whitespace(c: char) -> (r: bool)
    ensures
        r == is_ws(c),
{
    let u = c as u32;
    (0x09 <= u && u <= 0x0D) || u == 0x20 || u == 0x85 || u == 0xA0 || u == 0x1680 || (0x2000
        <= u && u <= 0x200A) || u == 0x2028 || u == 0x2029 || u == 0x202F || u == 0x205F || u
        == 0x3000
}

/// The characters of `s`, in order.
pub fn to_chars(s: &str) -> (r: Vec<char>)
    ensures
        r@ == s@,
{
    let n = s.unicode_len();
    let mut v: Vec<char> = Vec::new();
    let mut i: usize = 0;
    while i < n
        invariant
            n == s@.len(),
            i <= n,
            v@ == s@.subrange(0, i as int),
        decreases n - i,
    {
        let c = s.get_char(i);
        v.push(c);
        i = i + 1;
        assert(v@ =~= s@.subrange(0, i as int));
    }
    assert(v@ =~= s@);
    v
}

/// Appends one character to a string (`String::push`).
#[verifier::external_body]
pub(crate) fn push_char(s: &mut String, c: char)
    ensures
        final(s)@ == old(s)@.push(c),
{
    s.push(c);
}

/// Removes the last character of a string, if any (`String::pop`).
#[verifier::external_body]
pub(crate) fn pop_char(s: &mut String) -> (r: Option<char>)
    ensures
        old(s)@.len() == 0 ==> r is None && final(s)@ == old(s)@,
        old(s)@.len() > 0 ==> r == Some(old(s)@.last()) && final(s)@ == old(s)@.drop_last(),
{
    s.pop()
}

/// A string made of the characters `cs[from..to]`.
pub fn string_of(cs: &Vec<char>, from: usize, to: usize) -> (r: String)
    requires
        from <= to <= cs@.len(),
    ensures
        r@ == cs@.subrange(from as int, to as int),
{
    let mut r = String::new();
    let mut i = from;
    while i < to
        invariant
            from <= i <= to <= cs@.len(),
            r@ == cs@.subrange(from as int, i as int),
        decreases to - i,
    {
        push_char(&mut r, cs[i]);
        i = i + 1;
        assert(r@ =~= cs@.subrange(from as int, i as int));
    }
    r
}

/// Lemma: dropping leading whitespace from `s[i..]` when `s[i]` is whitespace.
proof fn lemma_trim_start_step(s: Seq<char>, i: int)
    requires
        0 <= i < s.len(),
        is_ws(s[i]),
    ensures
        trim_start(s.subrange(i, s.len() as int)) == trim_start(s.subrange(i + 1, s.len() as int)),
{
    assert(s.subrange(i, s.len() as int).drop_first() =~= s.subrange(i + 1, s.len() as int));
}

proof fn lemma_trim_end_step(s: Seq<char>, j: int)
    requires
        0 < j <= s.len(),
        is_ws(s[j - 1]),
    ensures
        trim_end(s.subrange(0, j)) == trim_end(s.subrange(0, j - 1)),
{
    assert(s.subrange(0, j).drop_last() =~= s.subrange(0, j - 1));
}

/// The bounds `(lo, hi)` such that `cs[lo..hi]` is `trim(cs)`.
pub fn trim_bounds(cs: &Vec<char>) -> (r: (usize, usize))
    ensures
        r.0 <= r.1 <= cs@.len(),
        cs@.subrange(r.0 as int, r.1 as int) == trim(cs@),
{
    let n = cs.len();
    let mut lo: usize = 0;
    assert(cs@.subrange(0, n as int) =~= cs@);
    while lo < n && is_whitespace(cs[lo])
        invariant
            n == cs@.len(),
            lo <= n,
            trim_start(cs@) == trim_start(cs@.subrange(lo as int, n as int)),
        decreases n - lo,
    {
        proof {
            lemma_trim_start_step(cs@, lo as int);
        }
        lo = lo + 1;
    }
    let ghost rest = cs@.subrange(lo as int, n as int);
    assert(trim_start(cs@) == rest);
    let mut hi: usize = n;
    assert(rest.subrange(0, (n - lo) as int) =~= rest);
    while hi > lo && is_whitespace(cs[hi - 1])
        invariant
            n == cs@.len(),
            lo <= hi <= n,
            rest == cs@.subrange(lo as int, n as int),
            trim_end(rest) == trim_end(rest.subrange(0, (hi - lo) as int)),
        decreases hi - lo,
    {
        proof {
            lemma_trim_end_step(rest, (hi - lo) as int);
        }
        hi = hi - 1;
    }
    assert(rest.subrange(0, (hi - lo) as int) =~= cs@.subrange(lo as int, hi as int));
    (lo, hi)
}

/// Whether `c` is an ASCII decimal digit.
pub open spec fn is_digit(c: char) -> bool {
    '0' <= c && c <= '9'
}

/// Every character of `s` is an ASCII decimal digit.
pub open spec fn all_digits(s: Seq<char>) -> bool {
    forall|i: int| 0 <= i < s.len() ==> is_digit(#[trigger] s[i])
}

/// The number that the ASCII digit `c` stands for.
pub open spec fn digit_value(c: char) -> int {
    (c as u32) - ('0' as u32)
}

/// The number written by the decimal digits `s` (0 for no digits).
pub open spec fn digits_value(s: Seq<char>) -> int
    decreases s.len(),
{
    if s.len() == 0 {
        0
    } else {
        digits_value(s.drop_last()) * 10 + digit_value(s.last())
    }
}

/// The position of the last occurrence of `c` in `s`.
pub open spec fn last_index_of(s: Seq<char>, c: char) -> Option<int>
    decreases s.len(),
{
    if s.len() == 0 {
        None
    } else if s.last() == c {
        Some(s.len() - 1)
    } else {
        last_index_of(s.drop_last(), c)
    }
}

/// The ASCII digits of `s`, in order; every other character is dropped.
pub open spec fn keep_digits(s: Seq<char>) -> Seq<char>
    decreases s.len(),
{
    if s.len() == 0 {
        s
    } else if is_digit(s.last()) {
        keep_digits(s.drop_last()).push(s.last())
    } else {
        keep_digits(s.drop_last())
    }
}

/// `s` with every occurrence of `c` removed.
pub open spec fn without_char(s: Seq<char>, c: char) -> Seq<char>
    decreases s.len(),
{
    if s.len() == 0 {
        s
    } else if s.last() == c {
        without_char(s.drop_last(), c)
    } else {
        without_char(s.drop_last(), c).push(s.last())
    }
}

/// What `i64::from_str` gives for the text `s`: an optional `+` or `-`
/// followed by at least one ASCII digit, in range.
pub open spec fn parse_i64_spec(s: Seq<char>) -> Option<i64> {
    if s.len() == 0 {
        None
    } else {
        let neg = s[0] == '-';
        let d = if s[0] == '+' || s[0] == '-' {
            s.drop_first()
        } else {
            s
        };
        let v = if neg {
            -digits_value(d)
        } else {
            digits_value(d)
        };
        if d.len() == 0 || !all_digits(d) || v < i64::MIN || v > i64::MAX {
            None
        } else {
            Some(v as i64)
        }
    }
}

/// `v[from..to]` as a vector of its own.
pub fn copy_range(v: &Vec<char>, from: usize, to: usize) -> (r: Vec<char>)
    requires
        from <= to <= v@.len(),
    ensures
        r@ == v@.subrange(from as int, to as int),
{
    let mut r: Vec<char> = Vec::new();
    let mut i = from;
    while i < to
        invariant
            from <= i <= to <= v@.len(),
            r@ == v@.subrange(from as int, i as int),
        decreases to - i,
    {
        r.push(v[i]);
        i = i + 1;
        assert(r@ =~= v@.subrange(from as int, i as int));
    }
    r
}

/// The position of the last `c` in `v`.
pub fn last_index(v: &Vec<char>, c: char) -> (r: Option<usize>)
    ensures
        r is Some <==> last_index_of(v@, c) is Some,
        r is Some ==> last_index_of(v@, c) == Some(r->0 as int),
        r is Some ==> r->0 < v@.len(),
{
    let mut i = v.len();
    assert(v@.subrange(0, i as int) =~= v@);
    while i > 0
        invariant
            i <= v@.len(),
            last_index_of(v@, c) == last_index_of(v@.subrange(0, i as int), c),
        decreases i,
    {
        assert(v@.subrange(0, i as int).drop_last() =~= v@.subrange(0, i - 1));
        if v[i - 1] == c {
            return Some(i - 1);
        }
        i = i - 1;
    }
    None
}

/// Whether every character of `v[from..to]` is an ASCII digit.
pub fn all_digits_in(v: &Vec<char>, from: usize, to: usize) -> (r: bool)
    requires
        from <= to <= v@.len(),
    ensures
        r == all_digits(v@.subrange(from as int, to as int)),
{
    let mut i = from;
    while i < to
        invariant
            from <= i <= to <= v@.len(),
            all_digits(v@.subrange(from as int, i as int)),
        decreases to - i,
    {
        if !('0' <= v[i] && v[i] <= '9') {
            assert(v@.subrange(from as int, to as int)[i - from] == v@[i as int]);
            return false;
        }
        i = i + 1;
        assert forall|k: int| 0 <= k < i - from implies is_digit(
            #[trigger] v@.subrange(from as int, i as int)[k],
        ) by {
            if k < i - 1 - from {
                assert(v@.subrange(from as int, i - 1)[k] == v@.subrange(from as int, i as int)[k]);
            }
        }
    }
    true
}

/// The ASCII digits of `v[from..to]`.
pub fn digits_in(v: &Vec<char>, from: usize, to: usize) -> (r: Vec<char>)
    requires
        from <= to <= v@.len(),
    ensures
        r@ == keep_digits(v@.subrange(from as int, to as int)),
{
    let mut r: Vec<char> = Vec::new();
    let mut i = from;
    assert(v@.subrange(from as int, from as int) =~= Seq::<char>::empty());
    while i < to
        invariant
            from <= i <= to <= v@.len(),
            r@ == keep_digits(v@.subrange(from as int, i as int)),
        decreases to - i,
    {
        assert(v@.subrange(from as int, i + 1).drop_last() =~= v@.subrange(from as int, i as int));
        if '0' <= v[i] && v[i] <= '9' {
            r.push(v[i]);
        }
        i = i + 1;
    }
    r
}

/// `v[from..to]` with every `c` removed.
pub fn without_in(v: &Vec<char>, from: usize, to: usize, c: char) -> (r: Vec<char>)
    requires
        from <= to <= v@.len(),
    ensures
        r@ == without_char(v@.subrange(from as int, to as int), c),
{
    let mut r: Vec<char> = Vec::new();
    let mut i = from;
    assert(v@.subrange(from as int, from as int) =~= Seq::<char>::empty());
    while i < to
        invariant
            from <= i <= to <= v@.len(),
            r@ == without_char(v@.subrange(from as int, i as int), c),
        decreases to - i,
    {
        assert(v@.subrange(from as int, i + 1).drop_last() =~= v@.subrange(from as int, i as int));
        if v[i] != c {
            r.push(v[i]);
        }
        i = i + 1;
    }
    r
}

/// Lemma: a longer run of digits never stands for a smaller number.
pub proof fn lemma_digits_value_nonneg(s: Seq<char>)
    requires
        all_digits(s),
    ensures
        digits_value(s) >= 0,
    decreases s.len(),
{
    if s.len() > 0 {
        assert(all_digits(s.drop_last())) by {
            assert forall|i: int| 0 <= i < s.drop_last().len() implies is_digit(
                #[trigger] s.drop_last()[i],
            ) by {
                assert(s.drop_last()[i] == s[i]);
            }
        }
        lemma_digits_value_nonneg(s.drop_last());
        assert(is_digit(s[s.len() - 1]));
    }
}

/// Lemma: the digits of a prefix stand for a number no larger than the whole.
pub proof fn lemma_digits_value_prefix(s: Seq<char>, i: int)
    requires
        all_digits(s),
        0 <= i <= s.len(),
    ensures
        digits_value(s.take(i)) <= digits_value(s),
    decreases s.len() - i,
{
    if i < s.len() {
        lemma_digits_value_prefix(s, i + 1);
        assert(s.take(i + 1).drop_last() =~= s.take(i));
        assert(all_digits(s.take(i))) by {
            assert forall|k: int| 0 <= k < s.take(i).len() implies is_digit(
                #[trigger] s.take(i)[k],
            ) by {
                assert(s.take(i)[k] == s[k]);
            }
        }
        lemma_digits_value_nonneg(s.take(i));
        assert(is_digit(s[i]));
    } else {
        assert(s.take(i) =~= s);
    }
}

/// `i64::from_str` over a sequence of characters.
pub fn parse_i64(v: &Vec<char>) -> (r: Option<i64>)
    ensures
        r == parse_i64_spec(v@),
{
    let n = v.len();
    if n == 0 {
        return None;
    }
    let neg = v[0] == '-';
    let start: usize = if v[0] == '+' || v[0] == '-' { 1 } else { 0 };
    let ghost d = if v@[0] == '+' || v@[0] == '-' { v@.drop_first() } else { v@ };
    assert(d =~= v@.subrange(start as int, n as int));
    if start == n {
        return None;
    }
    let bound: u128 = if neg { 0x8000_0000_0000_0000u128 } else { 0x7FFF_FFFF_FFFF_FFFFu128 };
    let mut acc: u128 = 0;
    let mut i = start;
    assert(d.take(0) =~= Seq::<char>::empty());
    while i < n
        invariant
            1 <= n == v@.len(),
            start <= i <= n,
            d == v@.subrange(start as int, n as int),
            d == (if v@[0] == '+' || v@[0] == '-' { v@.drop_first() } else { v@ }),
            neg == (v@[0] == '-'),
            bound == (if neg { 0x8000_0000_0000_0000u128 } else { 0x7FFF_FFFF_FFFF_FFFFu128 }),
            acc <= bound,
            bound <= 0x8000_0000_0000_0000u128,
            all_digits(d.take(i - start)),
            acc == digits_value(d.take(i - start)),
        decreases n - i,
    {
        let c = v[i];
        assert(d[i - start] == c);
        if !('0' <= c && c <= '9') {
            return None;
        }
        assert(d.take(i + 1 - start).drop_last() =~= d.take(i - start));
        acc = acc * 10 + ((c as u32) - ('0' as u32)) as u128;
        i = i + 1;
        assert(all_digits(d.take(i - start))) by {
            assert forall|k: int| 0 <= k < d.take(i - start).len() implies is_digit(
                #[trigger] d.take(i - start)[k],
            ) by {
                assert(d.take(i - start)[k] == d[k]);
                if k < i - 1 - start {
                    assert(d.take(i - 1 - start)[k] == d[k]);
                }
            }
        }
        if acc > bound {
            proof {
                if all_digits(d) {
                    lemma_digits_value_prefix(d, i - start);
                }
            }
            return None;
        }
    }
    assert(d.take(n - start) =~= d);
    if neg {
        Some((0i128 - acc as i128) as i64)
    } else {
        Some(acc as i64)
    }
}

/// The character of the decimal digit `d` (0 through 9).
pub open spec fn digit_char(d: nat) -> char {
    ((d + ('0' as u32)) as u32) as char
}

/// The decimal numeral of `n`, without leading zeros.
pub open spec fn decimal(n: nat) -> Seq<char>
    decreases n,
{
    if n < 10 {
        seq![digit_char(n)]
    } else {
        decimal(n / 10).push(digit_char(n % 10))
    }
}

/// The decimal numeral of a signed number: a `-` before negative ones.
pub open spec fn signed_decimal(n: int) -> Seq<char> {
    if n < 0 {
        seq!['-'] + decimal((-n) as nat)
    } else {
        decimal(n as nat)
    }
}

/// Lemma: the character of a digit is a digit that stands for it.
pub proof fn lemma_digit_char(d: nat)
    requires
        d < 10,
    ensures
        is_digit(digit_char(d)),
        digit_value(digit_char(d)) == d,
{
}

/// Lemma: the decimal numeral of `n` is a nonempty run of digits standing for `n`.
pub proof fn lemma_decimal_digits(n: nat)
    ensures
        decimal(n).len() > 0,
        all_digits(decimal(n)),
        digits_value(decimal(n)) == n,
    decreases n,
{
    let s = decimal(n);
    if n < 10 {
        lemma_digit_char(n);
        assert(s =~= seq![digit_char(n)]);
        assert(s.drop_last() =~= Seq::<char>::empty());
        assert(digits_value(Seq::<char>::empty()) == 0);
        assert(s.last() == digit_char(n));
    } else {
        lemma_decimal_digits(n / 10);
        lemma_digit_char(n % 10);
        assert(s.drop_last() =~= decimal(n / 10));
        assert(s.last() == digit_char(n % 10));
        vstd::arithmetic::div_mod::lemma_fundamental_div_mod(n as int, 10);
        assert forall|i: int| 0 <= i < s.len() implies is_digit(#[trigger] s[i]) by {
            if i < s.len() - 1 {
                assert(s[i] == decimal(n / 10)[i]);
            }
        }
    }
}

/// Lemma: a number below 100 written with two digits is a run of two digits
/// standing for it.
pub proof fn lemma_two_digits(c: nat)
    requires
        c < 100,
    ensures
        zero_padded(c, 2).len() == 2,
        all_digits(zero_padded(c, 2)),
        digits_value(zero_padded(c, 2)) == c,
{
    let z = zero_padded(c, 2);
    lemma_decimal_digits(c);
    if c < 10 {
        lemma_digit_char(c);
        lemma_digit_char(0);
        assert(decimal(c) =~= seq![digit_char(c)]);
        assert(z =~= seq!['0', digit_char(c)]);
        assert(z.drop_last() =~= seq!['0']);
        assert(seq!['0'].drop_last() =~= Seq::<char>::empty());
        assert(digits_value(Seq::<char>::empty()) == 0);
        assert(digit_value('0') == 0);
        assert(digits_value(seq!['0']) == 0);
        assert(z.last() == digit_char(c));
    } else {
        lemma_decimal_digits(c / 10);
        assert(c / 10 < 10);
        assert(decimal(c).len() == decimal(c / 10).len() + 1);
        assert(decimal(c / 10) =~= seq![digit_char(c / 10)]);
    }
}

proof fn lemma_zeros_value(k: nat)
    ensures
        digits_value(Seq::new(k, |i: int| '0')) == 0,
    decreases k,
{
    if k > 0 {
        let z = Seq::new(k, |i: int| '0');
        assert(z.drop_last() =~= Seq::new((k - 1) as nat, |i: int| '0'));
        lemma_zeros_value((k - 1) as nat);
        assert(digit_value('0') == 0);
    }
}

proof fn lemma_leading_zeros(k: nat, d: Seq<char>)
    ensures
        digits_value(Seq::new(k, |i: int| '0') + d) == digits_value(d),
    decreases d.len(),
{
    let z = Seq::new(k, |i: int| '0');
    if d.len() == 0 {
        assert(z + d =~= z);
        lemma_zeros_value(k);
    } else {
        assert((z + d).drop_last() =~= z + d.drop_last());
        assert((z + d).last() == d.last());
        lemma_leading_zeros(k, d.drop_last());
    }
}

/// Lemma: a number written with zeros in front is a nonempty run of digits
/// standing for it.
pub proof fn lemma_zero_padded(n: nat, width: nat)
    ensures
        zero_padded(n, width).len() > 0,
        all_digits(zero_padded(n, width)),
        digits_value(zero_padded(n, width)) == n,
{
    lemma_decimal_digits(n);
    let d = decimal(n);
    if d.len() < width {
        let z = Seq::new((width - d.len()) as nat, |i: int| '0');
        lemma_leading_zeros((width - d.len()) as nat, d);
        assert forall|i: int| 0 <= i < (z + d).len() implies is_digit(#[trigger] (z + d)[i]) by {
            if i >= z.len() {
                assert((z + d)[i] == d[i - z.len()]);
            }
        }
    }
}

/// Appends the decimal numeral of `n` to `s`.
pub fn push_decimal(s: &mut String, n: u64)
    ensures
        final(s)@ == old(s)@ + decimal(n as nat),
    decreases n,
{
    if n >= 10 {
        push_decimal(s, n / 10);
    }
    let d = (n % 10) as u32;
    let c = char_from_digit(d);
    push_char(s, c);
    proof {
        if n < 10 {
            assert(decimal(n as nat) == seq![digit_char(n as nat)]);
        }
    }
    assert(final(s)@ =~= old(s)@ + decimal(n as nat));
}

/// The character of the decimal digit `d`.
pub fn char_from_digit(d: u32) -> (c: char)
    requires
        d < 10,
    ensures
        c == digit_char(d as nat),
{
    match d {
        0 => '0',
        1 => '1',
        2 => '2',
        3 => '3',
        4 => '4',
        5 => '5',
        6 => '6',
        7 => '7',
        8 => '8',
        _ => '9',
    }
}

/// Appends the decimal numeral of the signed number `n` to `s`.
pub fn push_signed_decimal(s: &mut String, n: i64)
    ensures
        final(s)@ == old(s)@ + signed_decimal(n as int),
{
    if n < 0 {
        push_char(s, '-');
        let m: u64 = if n == i64::MIN { 0x8000_0000_0000_0000u64 } else { (-n) as u64 };
        push_decimal(s, m);
        assert(final(s)@ =~= old(s)@ + signed_decimal(n as int));
    } else {
        push_decimal(s, n as u64);
    }
}

/// No character of `s` is whitespace.
pub open spec fn no_ws(s: Seq<char>) -> bool {
    forall|i: int| 0 <= i < s.len() ==> !is_ws(#[trigger] s[i])
}

/// `c` does not occur in `s`.
pub open spec fn lacks(s: Seq<char>, c: char) -> bool {
    forall|i: int| 0 <= i < s.len() ==> #[trigger] s[i] != c
}

/// Lemma: text without whitespace is its own trim.
pub proof fn lemma_trim_no_ws(s: Seq<char>)
    requires
        no_ws(s),
    ensures
        trim(s) == s,
{
    if s.len() > 0 {
        assert(!is_ws(s[0]));
        assert(!is_ws(s[s.len() - 1]));
    }
    assert(trim_start(s) == s);
}

/// Lemma: trailing whitespace is stripped past a non-blank first character.
pub proof fn lemma_trim_end_prepend(c: char, x: Seq<char>)
    requires
        !is_ws(c),
    ensures
        trim_end(seq![c] + x) == seq![c] + trim_end(x),
    decreases x.len(),
{
    let s = seq![c] + x;
    if x.len() == 0 {
        assert(s =~= seq![c]);
        assert(s.last() == c);
    } else {
        assert(s.last() == x.last());
        if is_ws(x.last()) {
            assert(s.drop_last() =~= seq![c] + x.drop_last());
            lemma_trim_end_prepend(c, x.drop_last());
        }
    }
}

/// Lemma: leading whitespace is stripped the same way before one more character.
proof fn lemma_trim_start_push(x: Seq<char>, c: char)
    ensures
        trim_start(x.push(c)) == (if trim_start(x).len() == 0 && is_ws(c) {
            Seq::<char>::empty()
        } else {
            trim_start(x).push(c)
        }),
    decreases x.len(),
{
    let s = x.push(c);
    if x.len() == 0 {
        assert(s =~= seq![c]);
        assert(trim_start(x) == x);
        if is_ws(c) {
            assert(s.drop_first() =~= Seq::<char>::empty());
            assert(trim_start(s.drop_first()) == s.drop_first());
        } else {
            assert(x.push(c) =~= s);
        }
    } else {
        assert(s[0] == x[0]);
        if is_ws(x[0]) {
            assert(s.drop_first() =~= x.drop_first().push(c));
            lemma_trim_start_push(x.drop_first(), c);
        }
    }
}

/// Lemma: stripping trailing whitespace twice is stripping it once.
pub proof fn lemma_trim_end_idempotent(s: Seq<char>)
    ensures
        trim_end(trim_end(s)) == trim_end(s),
    decreases s.len(),
{
    if s.len() > 0 && is_ws(s.last()) {
        lemma_trim_end_idempotent(s.drop_last());
    }
}

/// Lemma: stripping the two ends of a text can be done in either order.
pub proof fn lemma_trim_ends_commute(s: Seq<char>)
    ensures
        trim_start(trim_end(s)) == trim_end(trim_start(s)),
    decreases s.len(),
{
    if s.len() > 0 {
        let x = s.drop_last();
        let c = s.last();
        assert(x.push(c) =~= s);
        lemma_trim_start_push(x, c);
        if is_ws(c) {
            lemma_trim_ends_commute(x);
            if trim_start(x).len() > 0 {
                let y = trim_start(x).push(c);
                assert(y.drop_last() =~= trim_start(x));
            }
        } else {
            let y = trim_start(x).push(c);
            assert(y.last() == c);
        }
    }
}

/// Lemma: removing trailing whitespace keeps a non-blank first character.
proof fn lemma_trim_end_keeps_first(x: Seq<char>)
    requires
        x.len() > 0,
        !is_ws(x[0]),
    ensures
        trim_end(x).len() > 0,
        trim_end(x)[0] == x[0],
        !is_ws(trim_end(x).last()),
    decreases x.len(),
{
    if is_ws(x.last()) {
        assert(x.len() > 1);
        assert(x.drop_last()[0] == x[0]);
        lemma_trim_end_keeps_first(x.drop_last());
    }
}

/// Lemma: the trim of any text is empty or starts and ends with a non-blank.
pub proof fn lemma_trim_shape(s: Seq<char>)
    ensures
        trim(s).len() > 0 ==> !is_ws(trim(s)[0]) && !is_ws(trim(s).last()),
    decreases s.len(),
{
    lemma_trim_start_shape(s);
    let a = trim_start(s);
    if a.len() > 0 {
        lemma_trim_end_keeps_first(a);
    } else {
        assert(trim_end(a) == a);
    }
}

proof fn lemma_trim_start_shape(s: Seq<char>)
    ensures
        trim_start(s).len() > 0 ==> !is_ws(trim_start(s)[0]),
    decreases s.len(),
{
    if s.len() > 0 && is_ws(s[0]) {
        lemma_trim_start_shape(s.drop_first());
    }
}

/// Law: trimming twice is trimming once.
pub proof fn lemma_trim_idempotent(s: Seq<char>)
    ensures
        trim(trim(s)) == trim(s),
{
    lemma_trim_shape(s);
    let b = trim(s);
    if b.len() > 0 {
        assert(trim_start(b) == b);
        assert(trim_end(b) == b);
    } else {
        assert(trim_start(b) == b);
        assert(trim_end(b) == b);
    }
}

/// Lemma: digits are not whitespace.
pub proof fn lemma_digits_no_ws(s: Seq<char>)
    requires
        all_digits(s),
    ensures
        no_ws(s),
{
    assert forall|i: int| 0 <= i < s.len() implies !is_ws(#[trigger] s[i]) by {
        assert(is_digit(s[i]));
    }
}

/// Lemma: a character absent from `s` has no last position in it.
pub proof fn lemma_last_index_absent(s: Seq<char>, c: char)
    requires
        lacks(s, c),
    ensures
        last_index_of(s, c) is None,
    decreases s.len(),
{
    if s.len() > 0 {
        assert(s[s.len() - 1] != c);
        assert(lacks(s.drop_last(), c)) by {
            assert forall|i: int| 0 <= i < s.drop_last().len() implies #[trigger] s.drop_last()[i]
                != c by {
                assert(s.drop_last()[i] == s[i]);
            }
        }
        lemma_last_index_absent(s.drop_last(), c);
    }
}

/// Lemma: the last `c` of `x + [c] + y` is the one after `x` when `y` has none.
pub proof fn lemma_last_index_marker(x: Seq<char>, c: char, y: Seq<char>)
    requires
        lacks(y, c),
    ensures
        last_index_of(x + seq![c] + y, c) == Some(x.len() as int),
    decreases y.len(),
{
    let s = x + seq![c] + y;
    if y.len() == 0 {
        assert(s =~= x.push(c));
        assert(s.last() == c);
    } else {
        assert(s.last() == y.last());
        assert(y[y.len() - 1] != c);
        assert(s.drop_last() =~= x + seq![c] + y.drop_last());
        assert(lacks(y.drop_last(), c)) by {
            assert forall|i: int| 0 <= i < y.drop_last().len() implies #[trigger] y.drop_last()[i]
                != c by {
                assert(y.drop_last()[i] == y[i]);
            }
        }
        lemma_last_index_marker(x, c, y.drop_last());
    }
}

/// Lemma: the digits of a run of digits are the run itself.
pub proof fn lemma_keep_digits_all(s: Seq<char>)
    requires
        all_digits(s),
    ensures
        keep_digits(s) == s,
    decreases s.len(),
{
    if s.len() > 0 {
        assert(is_digit(s[s.len() - 1]));
        assert(all_digits(s.drop_last())) by {
            assert forall|i: int| 0 <= i < s.drop_last().len() implies is_digit(
                #[trigger] s.drop_last()[i],
            ) by {
                assert(s.drop_last()[i] == s[i]);
            }
        }
        lemma_keep_digits_all(s.drop_last());
        assert(s.drop_last().push(s.last()) =~= s);
    }
}

/// Lemma: removing `c` from text that lacks it changes nothing.
pub proof fn lemma_without_absent(s: Seq<char>, c: char)
    requires
        lacks(s, c),
    ensures
        without_char(s, c) == s,
    decreases s.len(),
{
    if s.len() > 0 {
        assert(s[s.len() - 1] != c);
        assert(lacks(s.drop_last(), c)) by {
            assert forall|i: int| 0 <= i < s.drop_last().len() implies #[trigger] s.drop_last()[i]
                != c by {
                assert(s.drop_last()[i] == s[i]);
            }
        }
        lemma_without_absent(s.drop_last(), c);
        assert(s.drop_last().push(s.last()) =~= s);
    }
}

/// Lemma: removing `c` distributes over concatenation.
pub proof fn lemma_without_concat(x: Seq<char>, y: Seq<char>, c: char)
    ensures
        without_char(x + y, c) == without_char(x, c) + without_char(y, c),
    decreases y.len(),
{
    if y.len() == 0 {
        assert(x + y =~= x);
        assert(without_char(y, c) =~= Seq::<char>::empty());
        assert(without_char(x, c) + without_char(y, c) =~= without_char(x, c));
    } else {
        assert((x + y).drop_last() =~= x + y.drop_last());
        assert((x + y).last() == y.last());
        lemma_without_concat(x, y.drop_last(), c);
        if y.last() == c {
        } else {
            assert(without_char(x, c) + without_char(y.drop_last(), c).push(y.last())
                =~= (without_char(x, c) + without_char(y.drop_last(), c)).push(y.last()));
        }
    }
}

/// Lemma: `i64::from_str` reads a short run of digits as its number.
pub proof fn lemma_parse_digits(s: Seq<char>)
    requires
        s.len() > 0,
        all_digits(s),
        digits_value(s) <= i64::MAX,
    ensures
        parse_i64_spec(s) == Some(digits_value(s) as i64),
{
    assert(is_digit(s[0]));
    lemma_digits_value_nonneg(s);
}

/// The texts of a list of strings.
pub open spec fn string_views(v: Seq<String>) -> Seq<Seq<char>> {
    Seq::new(v.len(), |i: int| v[i]@)
}

/// The parts joined with `sep` between each two, as `[String]::join` does.
pub open spec fn join(parts: Seq<Seq<char>>, sep: Seq<char>) -> Seq<char>
    decreases parts.len(),
{
    if parts.len() == 0 {
        Seq::empty()
    } else if parts.len() == 1 {
        parts[0]
    } else {
        join(parts.drop_last(), sep) + sep + parts.last()
    }
}

/// `parts` joined with `sep` between each two.
pub fn join_strings(parts: &Vec<String>, sep: &str) -> (r: String)
    ensures
        r@ == join(string_views(parts@), sep@),
{
    let mut r = String::new();
    let mut i: usize = 0;
    while i < parts.len()
        invariant
            i <= parts@.len(),
            r@ == join(string_views(parts@).take(i as int), sep@),
        decreases parts.len() - i,
    {
        let ghost before = string_views(parts@).take(i as int);
        if i > 0 {
            r.append(sep);
        }
        r.append(parts[i].as_str());
        i = i + 1;
        proof {
            let now = string_views(parts@).take(i as int);
            assert(now.drop_last() =~= before);
            assert(now.last() == parts@[i - 1]@);
            if i == 1 {
                assert(before.len() == 0);
                assert(now.len() == 1);
            }
        }
    }
    assert(string_views(parts@).take(parts@.len() as int) =~= string_views(parts@));
    r
}

/// A string with the text of `s`.
pub fn string_from(s: &str) -> (r: String)
    ensures
        r@ == s@,
{
    let mut r = String::new();
    r.append(s);
    r
}

/// `n` written with at least `width` digits, zeros in front.
pub open spec fn zero_padded(n: nat, width: nat) -> Seq<char> {
    let d = decimal(n);
    if d.len() >= width {
        d
    } else {
        Seq::new((width - d.len()) as nat, |i: int| '0') + d
    }
}

/// Whether two texts are the same.
pub fn same_text(a: &str, b: &str) -> (r: bool)
    ensures
        r == (a@ == b@),
{
    let x = to_chars(a);
    let y = to_chars(b);
    if x.len() != y.len() {
        return false;
    }
    let mut i: usize = 0;
    while i < x.len()
        invariant
            x@ == a@,
            y@ == b@,
            x@.len() == y@.len(),
            i <= x@.len(),
            forall|k: int| 0 <= k < i ==> x@[k] == y@[k],
        decreases x.len() - i,
    {
        if x[i] != y[i] {
            return false;
        }
        i = i + 1;
    }
    assert(x@ =~= y@);
    true
}

/// `needle` occurs in `hay`.
pub open spec fn has_substring(hay: Seq<char>, needle: Seq<char>) -> bool {
    exists|i: int| 0 <= i <= hay.len() - needle.len() && #[trigger] hay.subrange(i, i + needle.len()) == needle
}

/// Whether `needle` occurs in `hay` at position `i`.
fn occurs_at(hay: &Vec<char>, needle: &Vec<char>, i: usize) -> (r: bool)
    requires
        i + needle@.len() <= hay@.len(),
    ensures
        r == (hay@.subrange(i as int, i + needle@.len()) == needle@),
{
    let mut k: usize = 0;
    let hl = hay.len();
    while k < needle.len()
        invariant
            hl == hay@.len(),
            i + needle@.len() <= hay@.len(),
            k <= needle@.len(),
            forall|j: int| 0 <= j < k ==> hay@[i + j] == needle@[j],
        decreases needle.len() - k,
    {
        if hay[i + k] != needle[k] {
            assert(hay@.subrange(i as int, i + needle@.len())[k as int] != needle@[k as int]);
            return false;
        }
        k = k + 1;
    }
    assert(hay@.subrange(i as int, i + needle@.len()) =~= needle@);
    true
}

/// Whether `needle` occurs in `hay`, as `str::contains` answers.
pub fn contains_text(hay: &Vec<char>, needle: &str) -> (r: bool)
    ensures
        r == has_substring(hay@, needle@),
{
    let n = to_chars(needle);
    if n.len() > hay.len() {
        assert(!has_substring(hay@, needle@));
        return false;
    }
    let last = hay.len() - n.len();
    let mut i: usize = 0;
    while i <= last
        invariant
            n@ == needle@,
            last == hay@.len() - n@.len(),
            i <= last + 1,
            forall|j: int| 0 <= j < i ==> #[trigger] hay@.subrange(j, j + n@.len()) != n@,
        decreases last + 1 - i,
    {
        if occurs_at(hay, &n, i) {
            assert(hay@.subrange(i as int, i + needle@.len()) == needle@);
            return true;
        }
        if i == last {
            assert forall|j: int| 0 <= j <= hay@.len() - needle@.len() implies #[trigger] hay@.subrange(
                j,
                j + needle@.len(),
            ) != needle@ by {
                if j < i {
                }
            }
            return false;
        }
        i = i + 1;
    }
    false
}

/// `n` spaces.
pub open spec fn spaces(n: nat) -> Seq<char> {
    Seq::new(n, |i: int| ' ')
}

/// `s` followed by spaces up to `width` characters, as `{:<width}` writes it.
pub open spec fn pad_right(s: Seq<char>, width: nat) -> Seq<char> {
    if s.len() >= width {
        s
    } else {
        s + spaces((width - s.len()) as nat)
    }
}

/// `s` after spaces up to `width` characters, as `{:>width}` writes it.
pub open spec fn pad_left(s: Seq<char>, width: nat) -> Seq<char> {
    if s.len() >= width {
        s
    } else {
        spaces((width - s.len()) as nat) + s
    }
}

/// Appends `n` spaces to `s`.
pub fn push_spaces(s: &mut String, n: usize)
    ensures
        final(s)@ == old(s)@ + spaces(n as nat),
{
    let ghost start = s@;
    let mut i: usize = 0;
    while i < n
        invariant
            i <= n,
            s@ == start + spaces(i as nat),
        decreases n - i,
    {
        push_char(s, ' ');
        i = i + 1;
        assert(s@ =~= start + spaces(i as nat));
    }
}

/// `text` padded with spaces on the right to `width` characters.
pub fn padded_right(text: &str, width: usize) -> (r: String)
    ensures
        r@ == pad_right(text@, width as nat),
{
    let len = text.unicode_len();
    let mut r = string_from(text);
    if len < width {
        push_spaces(&mut r, width - len);
    }
    r
}

/// `text` padded with spaces on the left to `width` characters.
pub fn padded_left(text: &str, width: usize) -> (r: String)
    ensures
        r@ == pad_left(text@, width as nat),
{
    let len = text.unicode_len();
    let mut r = String::new();
    if len < width {
        push_spaces(&mut r, width - len);
    }
    r.append(text);
    assert(len >= width ==> r@ =~= text@);
    r
}

} // verus!
