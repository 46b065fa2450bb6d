use sui_wallet_history::{
    organize_balance_list, AccountHistory, BalanceChange, CoinDetail, HistoryError,
    ReceiveTokenDetails, SentTokenDetails, StakeDetail, SwapDetails, TransactionContext,
};

const SUI: &str = "0x2::sui::SUI";
const BLUB: &str = "0xfa7ac3951fdca92c5200d468d31a365eb03b2be9936fde615e69f0c1274ad3a0::blub::BLUB";
const USDC: &str = "0xdba34672e30cb065b1f93e3ab55318768fd6fef66c15942c9f7cb846e2f900e7::usdc::USDC";

fn rec(owner: &str, coin: &str, amount: i128) -> BalanceChange {
    BalanceChange::new(owner.to_string(), coin.to_string(), amount)
}

fn tx(changes: Vec<BalanceChange>) -> TransactionContext {
    TransactionContext {
        digest: "D1".to_string(),
        timestamp_ms: Some(1_700),
        checkpoint: Some(42),
        balance_changes: Some(changes),
    }
}

fn one(changes: Vec<BalanceChange>, me: &str) -> AccountHistory {
    let v = organize_balance_list(tx(changes), me.to_string()).unwrap();
    assert_eq!(v.len(), 1);
    v.into_iter().next().unwrap()
}

#[test]
fn sent_coin_scenario() {
    let e = one(vec![rec("A", SUI, 30), rec("B", SUI, -30)], "B");
    assert_eq!(
        e,
        AccountHistory::SentCoin(CoinDetail {
            digest: "D1".to_string(),
            time: 1_700,
            block_no: 42,
            sender: "B".to_string(),
            receiver: "A".to_string(),
            currency: "sui::SUI".to_string(),
            volume: 30,
            formated_volume: "0.000000030".to_string(),
        })
    );
}

#[test]
fn sent_coin_volume_is_largest_magnitude() {
    let e = one(vec![rec("B", SUI, -35), rec("A", SUI, 30)], "B");
    match e {
        AccountHistory::SentCoin(d) => {
            assert_eq!(d.volume, 35);
            assert_eq!(d.receiver, "A");
        }
        other => panic!("unexpected {:?}", other),
    }
}

#[test]
fn received_coin_scenario() {
    let e = one(vec![rec("me", SUI, 50), rec("other", SUI, -50)], "me");
    assert_eq!(
        e,
        AccountHistory::ReceiveCoin(CoinDetail {
            digest: "D1".to_string(),
            time: 1_700,
            block_no: 42,
            sender: "other".to_string(),
            receiver: "me".to_string(),
            currency: "sui::SUI".to_string(),
            volume: 50,
            formated_volume: "0.000000050".to_string(),
        })
    );
}

#[test]
fn received_token() {
    let e = one(vec![rec("other", BLUB, -7), rec("me", BLUB, 7)], "me");
    assert_eq!(
        e,
        AccountHistory::ReceiveToken(ReceiveTokenDetails {
            digest: "D1".to_string(),
            time: 1_700,
            block_no: 42,
            sender: "other".to_string(),
            receiver: "me".to_string(),
            currency: "blub::BLUB".to_string(),
            volume: 7,
            formated_volume: "0.000000007".to_string(),
        })
    );
}

#[test]
fn received_token_with_debit_first_is_an_error() {
    let changes = vec![rec("me", SUI, 0), rec("me", BLUB, 7), rec("other", BLUB, -7)];
    assert_eq!(
        organize_balance_list(tx(changes), "me".to_string()),
        Err(HistoryError::ReceiverNotCredited)
    );
}

#[test]
fn untouched_transaction_yields_nothing() {
    let changes = vec![rec("A", SUI, 30), rec("B", SUI, -30)];
    assert_eq!(organize_balance_list(tx(changes), "C".to_string()), Ok(vec![]));
}

#[test]
fn absent_changes_yield_nothing() {
    let t = TransactionContext {
        digest: "D".to_string(),
        timestamp_ms: None,
        checkpoint: None,
        balance_changes: None,
    };
    assert_eq!(organize_balance_list(t, "me".to_string()), Ok(vec![]));
}

#[test]
fn empty_changes_yield_nothing() {
    assert_eq!(organize_balance_list(tx(vec![]), "me".to_string()), Ok(vec![]));
}

#[test]
fn malformed_coin_type_is_an_error() {
    let changes = vec![rec("me", "0x2::bad", -5), rec("A", SUI, 5)];
    assert_eq!(
        organize_balance_list(tx(changes), "me".to_string()),
        Err(HistoryError::MalformedCoinType)
    );
}

#[test]
fn untouched_malformed_is_not_an_error() {
    let changes = vec![rec("A", "bad", -5)];
    assert_eq!(organize_balance_list(tx(changes), "me".to_string()), Ok(vec![]));
}

#[test]
fn staked_uses_first_record_of_another_currency() {
    let e = one(vec![rec("me", SUI, -1_000_000_000)], "me");
    // one currency only: the selected currency is native and no record differs
    match e {
        AccountHistory::ComplexTransaction(d) => assert_eq!(d.digest, "D1"),
        other => panic!("unexpected {:?}", other),
    }
    let e = one(vec![rec("me", SUI, -2_000), rec("me", BLUB, -5_000)], "me");
    assert_eq!(
        e,
        AccountHistory::Stake(StakeDetail {
            digest: "D1".to_string(),
            time: 1_700,
            block_no: 42,
            currency: "sui::SUI".to_string(),
            volume: 2_000,
            formated_volume: "0.000002000".to_string(),
        })
    );
}

#[test]
fn swap_with_commission() {
    let changes = vec![
        rec("me", SUI, -100),
        rec("me", BLUB, 900),
        rec("me", USDC, -2_000_000),
        rec("fee", SUI, 10),
    ];
    let e = one(changes, "me");
    assert_eq!(
        e,
        AccountHistory::Swap(SwapDetails {
            digest: "D1".to_string(),
            time: 1_700,
            block_no: 42,
            input_currency: "blub::BLUB".to_string(),
            output_currency: "usdc::USDC".to_string(),
            input_volume: 900,
            output_volume: 2_000_000,
            input_formated_volume: "0.000000900".to_string(),
            output_formated_volume: "2.000000".to_string(),
            gas: 0,
            formated_gas: "0.000000000".to_string(),
            commision_status: true,
            commision_account: "fee".to_string(),
            commision_volume: 10,
            formatted_commision: "0.000000010".to_string(),
        })
    );
}

#[test]
fn token_swap_without_intermediary() {
    let changes = vec![rec("me", SUI, -100), rec("me", BLUB, 900), rec("me", USDC, -2_000_000)];
    match one(changes, "me") {
        AccountHistory::Swap(d) => {
            assert_eq!(d.input_currency, "blub::BLUB");
            assert_eq!(d.output_currency, "usdc::USDC");
            assert_eq!(d.input_volume, 900);
            assert_eq!(d.output_volume, 2_000_000);
            assert!(!d.commision_status);
            assert_eq!(d.commision_account, "");
            assert_eq!(d.formatted_commision, "");
        }
        other => panic!("unexpected {:?}", other),
    }
}

#[test]
fn swap_shape_without_match_falls_through() {
    // token swap shape, but nothing non-native is credited
    let changes = vec![rec("me", SUI, 10), rec("me", BLUB, -5), rec("me", USDC, -3)];
    match one(changes, "me") {
        AccountHistory::ComplexTransaction(d) => {
            assert_eq!(d.get_in_currency, vec!["sui::SUI".to_string()]);
            assert_eq!(d.go_out_currency, vec!["blub::BLUB".to_string(), "usdc::USDC".to_string()]);
            assert_eq!(d.address_list, vec!["me".to_string()]);
            assert_eq!(d.balance_list.len(), 3);
        }
        other => panic!("unexpected {:?}", other),
    }
}

#[test]
fn coin_swap() {
    let changes = vec![rec("me", SUI, -3_000_000_000), rec("me", USDC, 5_000_000)];
    assert_eq!(
        one(changes, "me"),
        AccountHistory::Swap(SwapDetails {
            digest: "D1".to_string(),
            time: 1_700,
            block_no: 42,
            input_currency: "usdc::USDC".to_string(),
            output_currency: "sui::SUI".to_string(),
            input_volume: 5_000_000,
            output_volume: 3_000_000_000,
            input_formated_volume: "5.000000".to_string(),
            output_formated_volume: "3.000000000".to_string(),
            gas: 0,
            formated_gas: String::new(),
            commision_status: false,
            commision_account: String::new(),
            commision_volume: 0,
            formatted_commision: String::new(),
        })
    );
}

#[test]
fn sent_token() {
    let changes = vec![rec("me", SUI, -400), rec("me", BLUB, -9_000), rec("friend", BLUB, 9_000)];
    assert_eq!(
        one(changes, "me"),
        AccountHistory::SentToken(SentTokenDetails {
            digest: "D1".to_string(),
            time: 1_700,
            block_no: 42,
            sender: "me".to_string(),
            receiver: "friend".to_string(),
            currency: "blub::BLUB".to_string(),
            volume: 9_000,
            formated_volume: "0.000009000".to_string(),
            gas: 400,
            formated_gas: "0.000000400".to_string(),
        })
    );
}

#[test]
fn extreme_negative_amount_has_exact_magnitude() {
    match one(vec![rec("A", SUI, 1), rec("B", SUI, i128::MIN)], "B") {
        AccountHistory::SentCoin(d) => assert_eq!(d.volume, 1u128 << 127),
        other => panic!("unexpected {:?}", other),
    }
}

#[test]
fn relevant_transaction_always_gives_one_event() {
    let shapes = vec![
        vec![rec("me", SUI, 1), rec("a", SUI, -1), rec("b", SUI, 0)],
        vec![rec("me", BLUB, 1), rec("me", USDC, 1)],
        vec![rec("me", SUI, 0)],
    ];
    for s in shapes {
        let v = organize_balance_list(tx(s), "me".to_string()).unwrap();
        assert_eq!(v.len(), 1);
    }
}
