use vstd::prelude::*;
use vstd::string::*;

verus! {

/// The character of a decimal digit `d < 10`.
pub open spec fn digit_char(d: nat) -> char {
    if d == 0 { '0' }
    else if d == 1 { '1' }
    else if d == 2 { '2' }
    else if d == 3 { '3' }
    else if d == 4 { '4' }
    else if d == 5 { '5' }
    else if d == 6 { '6' }
    else if d == 7 { '7' }
    else if d == 8 { '8' }
    else { '9' }
}

/// Decimal text of `n`, most significant digit first, no leading zeros.
pub open spec fn decimal(n: nat) -> Seq<char>
    decreases n,
{
    if n < 10 {
        seq![digit_char(n)]
    } else {
        decimal(n / 10) + seq![digit_char(n % 10)]
    }
}

/// `s` padded on the left with `'0'` up to `width` characters.
pub open spec fn pad_zeros(s: Seq<char>, width: nat) -> Seq<char> {
    if s.len() >= width {
        s
    } else {
        Seq::new((width - s.len()) as nat, |i: int| '0') + s
    }
}

/// The canonical name of the one six-decimal currency.
pub open spec fn six_decimal_currency() -> Seq<char> {
    "usdc::USDC"@
}

/// Number of fractional digits used for `currency`.
pub open spec fn decimal_places(currency: Seq<char>) -> nat {
    if currency == six_decimal_currency() { 6 } else { 9 }
}

/// Raw units in one whole unit of `currency`.
pub open spec fn unit_scale(currency: Seq<char>) -> nat {
    if currency == six_decimal_currency() { 1_000_000 } else { 1_000_000_000 }
}

/// `"<integer part>.<fractional part>"`, the fraction zero-padded to the
/// currency's decimal places; integer division only, no rounding.
pub open spec fn format_volume(volume: nat, currency: Seq<char>) -> Seq<char> {
    decimal(volume / unit_scale(currency)) + seq!['.'] + pad_zeros(
        decimal(volume % unit_scale(currency)),
        decimal_places(currency),
    )
}

fn digit_text(d: u128) -> (r: &'static str)
    requires
        d < 10,
    ensures
        r@ == seq![digit_char(d as nat)],
{
    proof {
        reveal_strlit("0");
        reveal_strlit("1");
        reveal_strlit("2");
        reveal_strlit("3");
        reveal_strlit("4");
        reveal_strlit("5");
        reveal_strlit("6");
        reveal_strlit("7");
        reveal_strlit("8");
        reveal_strlit("9");
    }
    if d == 0 { "0" }
    else if d == 1 { "1" }
    else if d == 2 { "2" }
    else if d == 3 { "3" }
    else if d == 4 { "4" }
    else if d == 5 { "5" }
    else if d == 6 { "6" }
    else if d == 7 { "7" }
    else if d == 8 { "8" }
    else { "9" }
}

/// Appends the decimal text of `n` to `out`.
fn append_decimal(out: &mut String, n: u128)
    ensures
        final(out)@ == old(out)@ + decimal(n as nat),
    decreases n,
{
    if n >= 10 {
        append_decimal(out, n / 10);
    }
    out.append(digit_text(n % 10));
    proof {
        if n >= 10 {
            assert(old(out)@ + decimal(n as nat) =~= old(out)@ + decimal((n / 10) as nat)
                + seq![digit_char((n % 10) as nat)]);
        }
    }
}

/// Renders `volume` raw units of `currency` as fixed-point decimal text:
/// six fractional digits for the six-decimal currency, nine for all others.
pub fn sui_format_volume(volume: u128, currency: String) -> (r: String)
    ensures
        r@ == format_volume(volume as nat, currency@),
{
    let usdc = String::from_str("usdc::USDC");
    let (scale, places): (u128, usize) = if currency == usdc {
        (1_000_000, 6)
    } else {
        (1_000_000_000, 9)
    };
    assert(scale as nat == unit_scale(currency@) && places as nat == decimal_places(currency@));
    let mut out = String::new();
    append_decimal(&mut out, volume / scale);
    proof {
        reveal_strlit(".");
    }
    out.append(".");
    let mut frac = String::new();
    append_decimal(&mut frac, volume % scale);
    let len = frac.as_str().unicode_len();
    let ghost before = out@;
    let mut i: usize = len;
    while i < places
        invariant
            len == frac@.len(),
            len <= i,
            i <= places || i == len,
            places == 6 || places == 9,
            out@ == before + Seq::new((i - len) as nat, |k: int| '0'),
        decreases places - i,
    {
        proof {
            reveal_strlit("0");
        }
        out.append("0");
        i = i + 1;
        assert(out@ =~= before + Seq::new((i - len) as nat, |k: int| '0'));
    }
    out.append(frac.as_str());
    proof {
        let f = decimal((volume % scale) as nat);
        assert(frac@ == f);
        if len < places {
            assert(pad_zeros(f, places as nat) =~= Seq::new((places - len) as nat, |k: int| '0') + f);
        } else {
            assert(Seq::new((i - len) as nat, |k: int| '0') =~= Seq::<char>::empty());
        }
        assert(out@ =~= format_volume(volume as nat, currency@));
    }
    out
}

} // verus!
