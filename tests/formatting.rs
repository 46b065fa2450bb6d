use sui_wallet_history::{sui_format_volume, sui_get_currency_name, HistoryError};

#[test]
fn format_one_native_coin() {
    assert_eq!(sui_format_volume(1_000_000_000, "sui::SUI".to_string()), "1.000000000");
}

#[test]
fn format_one_stablecoin() {
    assert_eq!(sui_format_volume(1_000_000, "usdc::USDC".to_string()), "1.000000");
}

#[test]
fn format_zero_native() {
    assert_eq!(sui_format_volume(0, "sui::SUI".to_string()), "0.000000000");
}

#[test]
fn format_pads_fraction_and_keeps_integer_part() {
    assert_eq!(sui_format_volume(30, "sui::SUI".to_string()), "0.000000030");
    assert_eq!(sui_format_volume(12_345_678_901, "deep::DEEP".to_string()), "12.345678901");
    assert_eq!(sui_format_volume(7_000_001, "usdc::USDC".to_string()), "7.000001");
}

#[test]
fn format_largest_amount() {
    assert_eq!(
        sui_format_volume(u128::MAX, "sui::SUI".to_string()),
        "340282366920938463463374607431.768211455"
    );
}

#[test]
fn resolve_native_both_spellings() {
    let long = "0x0000000000000000000000000000000000000000000000000000000000000002::sui::SUI";
    assert_eq!(sui_get_currency_name(long.to_string()), Ok("sui::SUI".to_string()));
    assert_eq!(sui_get_currency_name("0x2::sui::SUI".to_string()), Ok("sui::SUI".to_string()));
}

#[test]
fn resolve_table_entries() {
    let usdc = "0xdba34672e30cb065b1f93e3ab55318768fd6fef66c15942c9f7cb846e2f900e7::usdc::USDC";
    assert_eq!(sui_get_currency_name(usdc.to_string()), Ok("usdc::USDC".to_string()));
    let wusdc = "0x5d4b302506645c37ff133b98c4b50a5ae14841659738d6d733d59d0d217a93bf::coin::COIN";
    assert_eq!(sui_get_currency_name(wusdc.to_string()), Ok("wUSDC::wUSDC".to_string()));
}

#[test]
fn resolve_unknown_uses_module_and_symbol() {
    assert_eq!(
        sui_get_currency_name("0xabc::hero::HERO".to_string()),
        Ok("[hero::HERO]".to_string())
    );
    assert_eq!(
        sui_get_currency_name("0xabc::pool::LP::extra".to_string()),
        Ok("[pool::LP]".to_string())
    );
}

#[test]
fn resolve_is_deterministic() {
    let raw = "0xabc::hero::HERO".to_string();
    assert_eq!(sui_get_currency_name(raw.clone()), sui_get_currency_name(raw));
}

#[test]
fn resolve_malformed_is_an_error() {
    assert_eq!(sui_get_currency_name("0xabc::hero".to_string()), Err(HistoryError::MalformedCoinType));
    assert_eq!(sui_get_currency_name("plain".to_string()), Err(HistoryError::MalformedCoinType));
    assert_eq!(sui_get_currency_name(String::new()), Err(HistoryError::MalformedCoinType));
}
