use vstd::prelude::*;
use vstd::string::*;

use crate::error::HistoryError;

verus! {

/// Position `i` of `s` starts a `::` separator.
pub open spec fn is_sep_at(s: Seq<char>, i: int) -> bool {
    0 <= i && i + 1 < s.len() && s[i] == ':' && s[i + 1] == ':'
}

/// The first position at or after `i` that starts a `::` separator.
pub open spec fn first_sep_from(s: Seq<char>, i: nat) -> Option<nat>
    decreases s.len() - i,
{
    if i + 1 >= s.len() {
        None
    } else if is_sep_at(s, i as int) {
        Some(i)
    } else {
        first_sep_from(s, i + 1)
    }
}

/// The `::`-separated segments of `s` from position `i` on, scanned left to
/// right as `str::split("::")` does.
pub open spec fn segments_from(s: Seq<char>, i: nat) -> Seq<Seq<char>>
    decreases s.len() - i,
{
    if i > s.len() {
        Seq::empty()
    } else {
        match first_sep_from(s, i) {
            Some(p) => if i <= p && p + 2 <= s.len() {
                seq![s.subrange(i as int, p as int)] + segments_from(s, p + 2)
            } else {
                seq![s.subrange(i as int, s.len() as int)]
            },
            None => seq![s.subrange(i as int, s.len() as int)],
        }
    }
}

/// The `::`-separated segments of a coin type identifier.
pub open spec fn coin_segments(raw: Seq<char>) -> Seq<Seq<char>> {
    segments_from(raw, 0)
}

/// The native currency's canonical name.
pub open spec fn native_currency() -> Seq<char> {
    "sui::SUI"@
}

/// The fixed table of well-known coin type identifiers.
pub open spec fn known_name(raw: Seq<char>) -> Option<Seq<char>> {
    if raw == "0x0000000000000000000000000000000000000000000000000000000000000002::sui::SUI"@
        || raw == "0x2::sui::SUI"@ {
        Some(native_currency())
    } else if raw == "0xfa7ac3951fdca92c5200d468d31a365eb03b2be9936fde615e69f0c1274ad3a0::blub::BLUB"@ {
        Some("blub::BLUB"@)
    } else if raw == "0xdba34672e30cb065b1f93e3ab55318768fd6fef66c15942c9f7cb846e2f900e7::usdc::USDC"@ {
        Some("usdc::USDC"@)
    } else if raw == "0xdeeb7a4662eec9f2f3def03fb937a663dddaa2e215b8078a284d026b7946c270::deep::DEEP"@ {
        Some("deep::DEEP"@)
    } else if raw == "0x1fc50c2a9edf1497011c793cb5c88fd5f257fd7009e85a489392f388b1118f82::tusk::TUSK"@ {
        Some("tusk::TUSK"@)
    } else if raw == "0x5d4b302506645c37ff133b98c4b50a5ae14841659738d6d733d59d0d217a93bf::coin::COIN"@ {
        Some("wUSDC::wUSDC"@)
    } else if raw == "0xf325ce1300e8dac124071d3152c5c5ee6174914f8bc2161e88329cf579246efc::afsui::AFSUI"@ {
        Some("afsui::AFSUI"@)
    } else if raw == "0xb2040456be6b1b16835cc32b2fe2b1dc4b55c8a9b3cab6fb962f06b570f4645c::SuiReward::SUIREWARD"@ {
        Some("SuiReward::SUIREWARD"@)
    } else {
        None
    }
}

/// `"[<module>::<symbol>]"` from the second and third segments, when there are
/// at least three.
pub open spec fn fallback_name(raw: Seq<char>) -> Option<Seq<char>> {
    let g = coin_segments(raw);
    if g.len() < 3 {
        None
    } else {
        Some("["@ + g[1] + "::"@ + g[2] + "]"@)
    }
}

/// The canonical currency name of a coin type identifier; `None` when it is
/// malformed.
pub open spec fn currency_name(raw: Seq<char>) -> Option<Seq<char>> {
    match known_name(raw) {
        Some(n) => Some(n),
        None => fallback_name(raw),
    }
}

/// A coin type identifier that resolves to a canonical name.
pub open spec fn resolvable(raw: Seq<char>) -> bool {
    currency_name(raw) is Some
}

/// The canonical name of a resolvable identifier.
pub open spec fn canonical(raw: Seq<char>) -> Seq<char> {
    currency_name(raw).unwrap()
}

/// The first `::` at or after `from` in `s`, whose length in characters is `len`.
fn find_sep(s: &str, len: usize, from: usize) -> (r: Option<usize>)
    requires
        len == s@.len(),
        from <= len,
    ensures
        match r {
            Some(p) => first_sep_from(s@, from as nat) == Some(p as nat),
            None => first_sep_from(s@, from as nat) is None,
        },
{
    let mut i: usize = from;
    while len - i > 1
        invariant
            len == s@.len(),
            from <= i <= len,
            first_sep_from(s@, from as nat) == first_sep_from(s@, i as nat),
        decreases len - i,
    {
        if s.get_char(i) == ':' && s.get_char(i + 1) == ':' {
            return Some(i);
        }
        i = i + 1;
    }
    None
}

proof fn lemma_first_sep_bounds(s: Seq<char>, i: nat)
    ensures
        first_sep_from(s, i) matches Some(p) ==> i <= p && p + 2 <= s.len() && is_sep_at(s, p as int),
    decreases s.len() - i,
{
    if i + 1 < s.len() && !is_sep_at(s, i as int) {
        lemma_first_sep_bounds(s, i + 1);
    }
}

/// Looks `raw` up in the table of well-known coin types.
fn lookup_known(raw: &String) -> (r: Option<String>)
    ensures
        match r {
            Some(n) => known_name(raw@) == Some(n@),
            None => known_name(raw@) is None,
        },
{
    if *raw == String::from_str(
        "0x0000000000000000000000000000000000000000000000000000000000000002::sui::SUI",
    ) || *raw == String::from_str("0x2::sui::SUI") {
        Some(String::from_str("sui::SUI"))
    } else if *raw == String::from_str(
        "0xfa7ac3951fdca92c5200d468d31a365eb03b2be9936fde615e69f0c1274ad3a0::blub::BLUB",
    ) {
        Some(String::from_str("blub::BLUB"))
    } else if *raw == String::from_str(
        "0xdba34672e30cb065b1f93e3ab55318768fd6fef66c15942c9f7cb846e2f900e7::usdc::USDC",
    ) {
        Some(String::from_str("usdc::USDC"))
    } else if *raw == String::from_str(
        "0xdeeb7a4662eec9f2f3def03fb937a663dddaa2e215b8078a284d026b7946c270::deep::DEEP",
    ) {
        Some(String::from_str("deep::DEEP"))
    } else if *raw == String::from_str(
        "0x1fc50c2a9edf1497011c793cb5c88fd5f257fd7009e85a489392f388b1118f82::tusk::TUSK",
    ) {
        Some(String::from_str("tusk::TUSK"))
    } else if *raw == String::from_str(
        "0x5d4b302506645c37ff133b98c4b50a5ae14841659738d6d733d59d0d217a93bf::coin::COIN",
    ) {
        Some(String::from_str("wUSDC::wUSDC"))
    } else if *raw == String::from_str(
        "0xf325ce1300e8dac124071d3152c5c5ee6174914f8bc2161e88329cf579246efc::afsui::AFSUI",
    ) {
        Some(String::from_str("afsui::AFSUI"))
    } else if *raw == String::from_str(
        "0xb2040456be6b1b16835cc32b2fe2b1dc4b55c8a9b3cab6fb962f06b570f4645c::SuiReward::SUIREWARD",
    ) {
        Some(String::from_str("SuiReward::SUIREWARD"))
    } else {
        None
    }
}

/// Builds `"[<module>::<symbol>]"` from the second and third `::` segments.
fn fallback(raw: &String) -> (r: Option<String>)
    ensures
        match r {
            Some(n) => fallback_name(raw@) == Some(n@),
            None => fallback_name(raw@) is None,
        },
{
    let s = raw.as_str();
    let len = s.unicode_len();
    let ghost v = s@;
    let ghost n = v.len();
    match find_sep(s, len, 0) {
        None => {
            assert(coin_segments(v) =~= seq![v.subrange(0, n as int)]);
            None
        },
        Some(first) => {
            proof {
                lemma_first_sep_bounds(v, 0);
            }
            match find_sep(s, len, first + 2) {
                None => {
                    assert(segments_from(v, (first + 2) as nat) =~= seq![
                        v.subrange(first + 2, n as int),
                    ]);
                    assert(coin_segments(v).len() == 2);
                    None
                },
                Some(second) => {
                    proof {
                        lemma_first_sep_bounds(v, (first + 2) as nat);
                    }
                    let end = match find_sep(s, len, second + 2) {
                        Some(third) => {
                            proof {
                                lemma_first_sep_bounds(v, (second + 2) as nat);
                            }
                            third
                        },
                        None => len,
                    };
                    let ghost rest = segments_from(v, (second + 2) as nat);
                    assert(rest.len() >= 1 && rest[0] == v.subrange(second + 2, end as int));
                    let ghost g = coin_segments(v);
                    assert(g == seq![v.subrange(0, first as int)] + segments_from(v, (first + 2) as nat));
                    assert(segments_from(v, (first + 2) as nat) == seq![
                        v.subrange(first + 2, second as int),
                    ] + rest);
                    assert(g =~= seq![v.subrange(0, first as int)] + (seq![
                        v.subrange(first + 2, second as int),
                    ] + rest));
                    let mut out = String::from_str("[");
                    out.append(s.substring_char(first + 2, second));
                    out.append("::");
                    out.append(s.substring_char(second + 2, end));
                    out.append("]");
                    assert(out@ =~= "["@ + g[1] + "::"@ + g[2] + "]"@);
                    Some(out)
                },
            }
        },
    }
}

/// The short canonical name of a raw coin type identifier: the table's entry
/// when there is one, else `"[<module>::<symbol>]"`; an identifier outside the
/// table with fewer than three `::` segments is malformed.
pub fn sui_get_currency_name(raw_currency: String) -> (r: Result<String, HistoryError>)
    ensures
        match r {
            Ok(name) => currency_name(raw_currency@) == Some(name@),
            Err(e) => currency_name(raw_currency@) is None && e == HistoryError::MalformedCoinType,
        },
{
    match lookup_known(&raw_currency) {
        Some(name) => Ok(name),
        None => match fallback(&raw_currency) {
            Some(name) => Ok(name),
            None => Err(HistoryError::MalformedCoinType),
        },
    }
}

} // verus!
