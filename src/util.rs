use vstd::prelude::*;

verus! {

/// `prefix` is a prefix of `s`.
pub open spec fn has_prefix(s: Seq<char>, prefix: Seq<char>) -> bool {
    prefix.len() <= s.len() && s.subrange(0, prefix.len() as int) == prefix
}

/// Whether `s` begins with `prefix`, character by character.
pub fn starts_with(s: &str, prefix: &str) -> (r: bool)
    ensures
        r == has_prefix(s@, prefix@),
{
    let n = s.unicode_len();
    let m = prefix.unicode_len();
    if m > n {
        return false;
    }
    let mut i: usize = 0;
    while i < m
        invariant
            m == prefix@.len(),
            n == s@.len(),
            m <= n,
            i <= m,
            forall|j: int| 0 <= j < i ==> s@[j] == prefix@[j],
        decreases m - i,
    {
        if s.get_char(i) != prefix.get_char(i) {
            assert(s@.subrange(0, m as int)[i as int] != prefix@[i as int]);
            return false;
        }
        i = i + 1;
    }
    assert(s@.subrange(0, m as int) =~= prefix@);
    true
}

/// Whether `a` and `b` hold the same characters.
pub fn same_text(a: &str, b: &str) -> (r: bool)
    ensures
        r == (a@ == b@),
{
    if a.unicode_len() != b.unicode_len() {
        return false;
    }
    let r = starts_with(a, b);
    assert(a@.subrange(0, b@.len() as int) =~= a@);
    r
}

/// Longest text, in characters, that `omitted_string` leaves whole.
pub const OMIT_AFTER: usize = 25;

/// `s` shortened for display: at most 25 characters, with `...` after a cut.
pub open spec fn omitted(s: Seq<char>) -> Seq<char> {
    if s.len() <= OMIT_AFTER {
        s
    } else {
        s.subrange(0, OMIT_AFTER as int) + seq!['.', '.', '.']
    }
}

/// Shortens `input` for a list line: text of up to 25 characters comes back
/// as it is; longer text is cut after its 25th character and `...` appended.
/// Characters are counted, not bytes.
pub fn omitted_string(input: &str) -> (r: String)
    ensures
        r@ == omitted(input@),
{
    let n = input.unicode_len();
    if n > OMIT_AFTER {
        let head = input.substring_char(0, OMIT_AFTER);
        let mut out = String::from_str(head);
        out.append("...");
        proof {
            reveal_strlit("...");
        }
        assert(out@ =~= omitted(input@));
        out
    } else {
        String::from_str(input)
    }
}

/// The decimal digit characters, by value.
pub open spec fn digit_char(d: nat) -> char {
    seq!['0', '1', '2', '3', '4', '5', '6', '7', '8', '9'][d as int]
}

/// Decimal digits of `n`, most significant first, without leading zeros.
pub open spec fn decimal(n: nat) -> Seq<char>
    decreases n,
{
    if n < 10 {
        seq![digit_char(n)]
    } else {
        decimal(n / 10).push(digit_char(n % 10))
    }
}

/// Exactly three digits of `k` (below 1000), zeros in front.
pub open spec fn three_digits(k: nat) -> Seq<char> {
    seq![digit_char(k / 100), digit_char((k / 10) % 10), digit_char(k % 10)]
}

/// Decimal digits of `n` in groups of three from the right, joined by commas.
pub open spec fn grouped(n: nat) -> Seq<char>
    decreases n,
{
    if n < 1000 {
        decimal(n)
    } else {
        grouped(n / 1000) + seq![','] + three_digits(n % 1000)
    }
}

/// `v` written with thousands separators, with a minus sign when negative.
pub open spec fn commafied(v: int) -> Seq<char> {
    if v < 0 {
        seq!['-'] + grouped((-v) as nat)
    } else {
        grouped(v as nat)
    }
}

/// The one-character string of digit `d`.
fn digit_str(d: u128) -> (r: &'static str)
    requires
        d < 10,
    ensures
        r@ == seq![digit_char(d as nat)],
{
    let digits = "0123456789";
    proof {
        reveal_strlit("0123456789");
    }
    let r = digits.substring_char(d as usize, d as usize + 1);
    assert(r@ =~= seq![digit_char(d as nat)]);
    r
}

/// Appends the decimal digits of `n`.
pub(crate) fn push_decimal(n: u128, out: &mut String)
    ensures
        final(out)@ == old(out)@ + decimal(n as nat),
    decreases n,
{
    if n < 10 {
        out.append(digit_str(n));
    } else {
        push_decimal(n / 10, out);
        out.append(digit_str(n % 10));
        assert(decimal(n as nat) == decimal((n / 10) as nat).push(digit_char((n % 10) as nat)));
    }
    assert(final(out)@ =~= old(out)@ + decimal(n as nat));
}

/// Appends the digits of `n` grouped by commas.
fn push_grouped(n: u128, out: &mut String)
    ensures
        final(out)@ == old(out)@ + grouped(n as nat),
    decreases n,
{
    if n < 1000 {
        push_decimal(n, out);
    } else {
        push_grouped(n / 1000, out);
        out.append(",");
        let k = n % 1000;
        out.append(digit_str(k / 100));
        out.append(digit_str((k / 10) % 10));
        out.append(digit_str(k % 10));
        proof {
            reveal_strlit(",");
        }
        assert(grouped(n as nat) == grouped((n / 1000) as nat) + seq![','] + three_digits(k as nat));
    }
    assert(final(out)@ =~= old(out)@ + grouped(n as nat));
}

/// `value` in decimal with a comma between each group of three digits,
/// counted from the right, and a leading `-` when it is negative
/// (`1234` gives `1,234`, `-1000` gives `-1,000`).
pub fn commafy(value: i128) -> (r: String)
    ensures
        r@ == commafied(value as int),
{
    let mut out = String::new();
    if value < 0 {
        out.append("-");
        proof {
            reveal_strlit("-");
        }
        let magnitude: u128 = (-(value + 1)) as u128 + 1;
        push_grouped(magnitude, &mut out);
    } else {
        push_grouped(value as u128, &mut out);
    }
    assert(out@ =~= commafied(value as int));
    out
}

} // verus!
