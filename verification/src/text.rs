//! Decimal and hexadecimal rendering of integers.
use vstd::prelude::*;

verus! {

/// The character of a single hexadecimal digit, upper case.
pub open spec fn digit_char(d: int) -> char {
    if d < 10 {
        (d + 48) as char
    } else {
        (d + 55) as char
    }
}

/// The decimal digits of `n`, most significant first, without leading zeros.
pub open spec fn digits(n: nat) -> Seq<char>
    decreases n,
{
    if n < 10 {
        seq![digit_char(n as int)]
    } else {
        digits(n / 10).push(digit_char((n % 10) as int))
    }
}

/// `n` zeros.
pub open spec fn zeros(n: int) -> Seq<char> {
    Seq::new(if n < 0 { 0 } else { n as nat }, |i: int| '0')
}

/// `v` in decimal, filled up with zeros behind the sign until it is `width`
/// characters long.
pub open spec fn decimal(v: int, width: int) -> Seq<char> {
    if v < 0 {
        let body = digits((-v) as nat);
        seq!['-'] + (zeros(width - 1 - body.len()) + body)
    } else {
        let body = digits(v as nat);
        zeros(width - body.len()) + body
    }
}

/// `v` as exactly `n` upper case hexadecimal digits; higher digits are cut.
pub open spec fn hex_digits(v: nat, n: nat) -> Seq<char>
    decreases n,
{
    if n == 0 {
        Seq::empty()
    } else {
        hex_digits(v / 16, (n - 1) as nat).push(digit_char((v % 16) as int))
    }
}

/// `v` as exactly eight upper case hexadecimal digits.
pub open spec fn hex8(v: u32) -> Seq<char> {
    hex_digits(v as nat, 8)
}

/// The pattern occurs somewhere in the text.
pub open spec fn occurs(pattern: Seq<char>, text: Seq<char>) -> bool {
    exists|i: int| #[trigger] occurs_at(pattern, text, i)
}

/// The pattern occurs at a place of the text.
pub open spec fn occurs_at(pattern: Seq<char>, text: Seq<char>, i: int) -> bool {
    0 <= i <= text.len() - pattern.len() && text.subrange(i, i + pattern.len()) == pattern
}

/// The pattern occurs at the place of the text.
fn found_at(text: &str, pattern: &str, at: usize) -> (found: bool)
    requires
        at + pattern@.len() <= text@.len() <= usize::MAX,
    ensures
        found == occurs_at(pattern@, text@, at as int),
{
    let n: usize = pattern.unicode_len();
    let mut k: usize = 0;
    while k < n
        invariant
            k <= n == pattern@.len(),
            at + n <= text@.len() <= usize::MAX,
            forall|j: int| 0 <= j < k ==> text@[at + j] == pattern@[j],
        decreases n - k,
    {
        if text.get_char(at + k) != pattern.get_char(k) {
            assert(text@.subrange(at as int, at + pattern@.len())[k as int] != pattern@[k as int]);
            return false;
        }
        k = k + 1;
    }
    assert(text@.subrange(at as int, at + pattern@.len()) =~= pattern@);
    true
}

/// The pattern occurs somewhere in the text.
pub fn contains(text: &str, pattern: &str) -> (found: bool)
    ensures
        found == occurs(pattern@, text@),
{
    let len: usize = text.unicode_len();
    let n: usize = pattern.unicode_len();
    if n > len {
        return false;
    }
    let last: usize = len - n;
    let mut i: usize = 0;
    while i <= last
        invariant
            i <= last + 1,
            last + n == len == text@.len(),
            n == pattern@.len(),
            forall|j: int| 0 <= j < i ==> !#[trigger] occurs_at(pattern@, text@, j),
        decreases last + 1 - i,
    {
        if found_at(text, pattern, i) {
            return true;
        }
        if i == last {
            return false;
        }
        i = i + 1;
    }
    false
}

/// The text of one hexadecimal digit.
fn digit_text(d: u8) -> (s: &'static str)
    requires
        d < 16,
    ensures
        s@ == seq![digit_char(d as int)],
{
    proof {
        reveal_strlit("0");
        reveal_strlit("1");
        reveal_strlit("2");
        reveal_strlit("3");
        reveal_strlit("4");
        reveal_strlit("5");
        reveal_strlit("6");
        reveal_strlit("7");
        reveal_strlit("8");
        reveal_strlit("9");
        reveal_strlit("A");
        reveal_strlit("B");
        reveal_strlit("C");
        reveal_strlit("D");
        reveal_strlit("E");
        reveal_strlit("F");
    }
    match d {
        0 => "0",
        1 => "1",
        2 => "2",
        3 => "3",
        4 => "4",
        5 => "5",
        6 => "6",
        7 => "7",
        8 => "8",
        9 => "9",
        10 => "A",
        11 => "B",
        12 => "C",
        13 => "D",
        14 => "E",
        _ => "F",
    }
}

/// Appends `n` zeros.
fn push_zeros(out: &mut String, n: usize)
    ensures
        final(out)@ == old(out)@ + zeros(n as int),
{
    let mut i: usize = 0;
    while i < n
        invariant
            i <= n,
            out@ == old(out)@ + zeros(i as int),
        decreases n - i,
    {
        out.append(digit_text(0));
        i = i + 1;
    }
}

/// Appends the decimal digits of `v`, zero-filled to `width` characters.
fn push_digits(out: &mut String, v: u64, width: usize)
    ensures
        final(out)@ == old(out)@ + (zeros(width - digits(v as nat).len()) + digits(v as nat)),
    decreases v,
{
    let rest_width: usize = if width > 0 {
        width - 1
    } else {
        0
    };
    if v < 10 {
        push_zeros(out, rest_width);
    } else {
        push_digits(out, v / 10, rest_width);
    }
    out.append(digit_text((v % 10) as u8));
}

/// Appends `v` in decimal.
pub fn push_unsigned(out: &mut String, v: u64)
    ensures
        final(out)@ == old(out)@ + digits(v as nat),
{
    push_digits(out, v, 0);
    assert(zeros(0 - digits(v as nat).len()) + digits(v as nat) =~= digits(v as nat));
}

/// Appends `v` in decimal, zero-filled behind the sign to `width` characters.
pub fn push_decimal(out: &mut String, v: i64, width: usize)
    ensures
        final(out)@ == old(out)@ + decimal(v as int, width as int),
{
    if v < 0 {
        proof {
            reveal_strlit("-");
        }
        out.append("-");
        push_digits(
            out,
            (-(v as i128)) as u64,
            if width > 0 {
                width - 1
            } else {
                0
            },
        );
    } else {
        push_digits(out, v as u64, width);
    }
}

/// Appends the `n` lowest hexadecimal digits of `v`, upper case.
fn push_hex(out: &mut String, v: u32, n: u8)
    ensures
        final(out)@ == old(out)@ + hex_digits(v as nat, n as nat),
    decreases n,
{
    if n > 0 {
        push_hex(out, v / 16, (n - 1) as u8);
        out.append(digit_text((v % 16) as u8));
    }
}

/// Appends `v` as eight upper case hexadecimal digits.
pub fn push_hex8(out: &mut String, v: u32)
    ensures
        final(out)@ == old(out)@ + hex8(v),
{
    push_hex(out, v, 8);
}

/// The value of a digit; negative for any other character.
pub open spec fn digit_value(c: char) -> int {
    if '0' <= c <= '9' {
        c as int - '0' as int
    } else if 'A' <= c <= 'F' {
        c as int - 'A' as int + 10
    } else {
        -1
    }
}

/// All characters are digits to the base.
pub open spec fn is_number(s: Seq<char>, base: int) -> bool {
    forall|i: int| 0 <= i < s.len() ==> 0 <= digit_value(#[trigger] s[i]) < base
}

/// The number that digits stand for, the most significant first.
pub open spec fn number(s: Seq<char>, base: int) -> int
    decreases s.len(),
{
    if s.len() == 0 {
        0
    } else {
        number(s.drop_last(), base) * base + digit_value(s.last())
    }
}

proof fn lemma_number_push(s: Seq<char>, d: int, base: int)
    requires
        is_number(s, base),
        0 <= d < base <= 16,
    ensures
        is_number(s.push(digit_char(d)), base),
        number(s.push(digit_char(d)), base) == number(s, base) * base + d,
{
    let t = s.push(digit_char(d));
    assert(t.drop_last() =~= s);
    assert(digit_value(digit_char(d)) == d);
    assert forall|i: int| 0 <= i < t.len() implies 0 <= digit_value(#[trigger] t[i]) < base by {
        if i < s.len() {
            assert(t[i] == s[i]);
        }
    }
}

proof fn lemma_number_of_zeros(n: int, s: Seq<char>, base: int)
    requires
        is_number(s, base),
        base > 0,
    ensures
        is_number(zeros(n) + s, base),
        number(zeros(n) + s, base) == number(s, base),
    decreases s.len(), n,
{
    let t = zeros(n) + s;
    assert forall|i: int| 0 <= i < t.len() implies 0 <= digit_value(#[trigger] t[i]) < base by {
        if i >= zeros(n).len() {
            assert(t[i] == s[i - zeros(n).len()]);
        }
    }
    if s.len() > 0 {
        let shorter = s.drop_last();
        assert forall|i: int| 0 <= i < shorter.len() implies 0 <= digit_value(
            #[trigger] shorter[i],
        ) < base by {
            assert(shorter[i] == s[i]);
        }
        lemma_number_of_zeros(n, shorter, base);
        assert(t.drop_last() =~= zeros(n) + shorter);
    } else if n > 0 {
        lemma_number_of_zeros(n - 1, s, base);
        assert(t.drop_last() =~= zeros(n - 1) + s);
        assert(0 * base == 0);
    } else {
        assert(t =~= s);
    }
}

/// Decimal digits stand for the number they were made of, without leading
/// zeros.
pub proof fn digits_stand_for_their_number(n: nat)
    ensures
        is_number(digits(n), 10),
        number(digits(n), 10) == n,
        digits(n).len() >= 1,
        n > 0 ==> digits(n)[0] != '0',
        n == 0 ==> digits(n) == seq!['0'],
    decreases n,
{
    if n < 10 {
        lemma_number_push(Seq::empty(), n as int, 10);
        assert(Seq::<char>::empty().push(digit_char(n as int)) =~= digits(n));
    } else {
        digits_stand_for_their_number(n / 10);
        lemma_number_push(digits(n / 10), (n % 10) as int, 10);
        assert(digits(n)[0] == digits(n / 10)[0]);
    }
}

/// A number that is appended in decimal is read back from the digits behind
/// what was there before.
pub proof fn appended_numbers_read_back(out: &mut String, v: u64)
    requires
        call_ensures(push_unsigned, (out, v), ()),
    ensures
        old(out)@.is_prefix_of(final(out)@),
        ({
            let s = final(out)@.skip(old(out)@.len() as int);
            is_number(s, 10) && number(s, 10) == v && (s.len() > 1 ==> s[0] != '0')
        }),
{
    digits_stand_for_their_number(v as nat);
    assert(final(out)@.skip(old(out)@.len() as int) =~= digits(v as nat));
}

/// A number that is appended with a width is read back from what was
/// appended, behind the sign of a negative one, and fills the width; it is
/// longer only if its digits are.
pub proof fn filled_numbers_read_back(out: &mut String, v: i64, width: usize)
    requires
        call_ensures(push_decimal, (out, v, width), ()),
    ensures
        old(out)@.is_prefix_of(final(out)@),
        ({
            let s = final(out)@.skip(old(out)@.len() as int);
            let body = if v < 0 {
                s.skip(1)
            } else {
                s
            };
            &&& v < 0 ==> s[0] == '-'
            &&& is_number(body, 10)
            &&& number(body, 10) == if v < 0 {
                -v
            } else {
                v as int
            }
            &&& s.len() >= width
            &&& s.len() > width && body.len() > 1 ==> body[0] != '0'
        }),
{
    let s = final(out)@.skip(old(out)@.len() as int);
    assert(s =~= decimal(v as int, width as int));
    let n: nat = if v < 0 {
        (-v) as nat
    } else {
        v as nat
    };
    digits_stand_for_their_number(n);
    let fill = if v < 0 {
        width - 1 - digits(n).len()
    } else {
        width - digits(n).len()
    };
    lemma_number_of_zeros(fill, digits(n), 10);
    if v < 0 {
        assert(s.skip(1) =~= zeros(fill) + digits(n));
    }
}

proof fn lemma_hex_digits(v: nat, n: nat)
    ensures
        hex_digits(v, n).len() == n,
        is_number(hex_digits(v, n), 16),
        number(hex_digits(v, n), 16) == v as int % power_of_16(n),
        power_of_16(n) > 0,
    decreases n,
{
    if n > 0 {
        let m = (n - 1) as nat;
        lemma_hex_digits(v / 16, m);
        lemma_number_push(hex_digits(v / 16, m), (v % 16) as int, 16);
        let p = power_of_16(m);
        let q = v as int / 16;
        assert(q % p * 16 + v as int % 16 == v as int % (16 * p)) by {
            vstd::arithmetic::div_mod::lemma_mod_breakdown(v as int, 16, p);
        }
    } else {
        assert(v as int % 1 == 0);
    }
}

/// Sixteen times itself as often as given.
pub open spec fn power_of_16(n: nat) -> int
    decreases n,
{
    if n == 0 {
        1
    } else {
        16 * power_of_16((n - 1) as nat)
    }
}

/// A number that is appended in hexadecimal is read back from the eight
/// digits behind what was there before.
pub proof fn appended_hexadecimal_reads_back(out: &mut String, v: u32)
    requires
        call_ensures(push_hex8, (out, v), ()),
    ensures
        old(out)@.is_prefix_of(final(out)@),
        ({
            let s = final(out)@.skip(old(out)@.len() as int);
            s.len() == 8 && is_number(s, 16) && number(s, 16) == v
        }),
{
    hex8_stands_for_its_number(v);
    assert(final(out)@.skip(old(out)@.len() as int) =~= hex8(v));
}

/// Eight hexadecimal digits stand for the number they were made of.
pub proof fn hex8_stands_for_its_number(v: u32)
    ensures
        hex8(v).len() == 8,
        is_number(hex8(v), 16),
        number(hex8(v), 16) == v,
{
    lemma_hex_digits(v as nat, 8);
    reveal_with_fuel(power_of_16, 9);
    assert(power_of_16(8) == 0x1_0000_0000);
}

/// A text contains a pattern exactly if it is made of something, the pattern
/// and something else.
pub proof fn patterns_are_found_where_they_stand(
    text: &str,
    pattern: &str,
    found: bool,
    before: Seq<char>,
    after: Seq<char>,
)
    requires
        call_ensures(contains, (text, pattern), found),
    ensures
        text@ == before + pattern@ + after ==> found,
        found ==> exists|a: Seq<char>, b: Seq<char>| text@ == #[trigger] ((a + pattern@) + b),
{
    if text@ == before + pattern@ + after {
        let i = before.len() as int;
        assert(text@.subrange(i, i + pattern@.len()) =~= pattern@);
        assert(occurs_at(pattern@, text@, i));
    }
    if found {
        let i = choose|i: int| #[trigger] occurs_at(pattern@, text@, i);
        let a = text@.take(i);
        let b = text@.skip(i + pattern@.len());
        assert(text@ =~= (a + pattern@) + b);
    }
}

/// A number below ten to the power of `k` has at most `k` digits, so it fills
/// a width of `k` exactly.
pub proof fn small_numbers_fill_the_width(v: nat, k: nat)
    requires
        k >= 1,
        v < power_of_10(k),
    ensures
        decimal(v as int, k as int).len() == k,
        is_number(decimal(v as int, k as int), 10),
        number(decimal(v as int, k as int), 10) == v,
{
    lemma_few_digits(v, k);
    digits_stand_for_their_number(v);
    lemma_number_of_zeros(k - digits(v).len(), digits(v), 10);
}

/// Ten times itself as often as given.
pub open spec fn power_of_10(n: nat) -> int
    decreases n,
{
    if n == 0 {
        1
    } else {
        10 * power_of_10((n - 1) as nat)
    }
}

proof fn lemma_few_digits(v: nat, k: nat)
    requires
        k >= 1,
        v < power_of_10(k),
    ensures
        digits(v).len() <= k,
    decreases k,
{
    if v >= 10 {
        reveal_with_fuel(power_of_10, 2);
        assert(k >= 2);
        lemma_few_digits(v / 10, (k - 1) as nat);
    }
}

/// A number of four digits without a width takes four characters.
pub proof fn four_digit_numbers_have_four_digits(v: nat)
    requires
        1000 <= v <= 9999,
    ensures
        decimal(v as int, 0).len() == 4,
        is_number(decimal(v as int, 0), 10),
        number(decimal(v as int, 0), 10) == v,
{
    digits_stand_for_their_number(v);
    reveal_with_fuel(digits, 4);
    assert(decimal(v as int, 0) =~= digits(v));
}

} // verus!
