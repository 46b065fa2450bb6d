use sui_wallet_history::{
    AccountHistory, AccountHistoryExtension, AccountPrintOption, BalanceChange, HistoryError,
    MoveCall, ObjectSummary, SuiTransactionFuncExtension, SuiWalletFuncExtension,
    TransactionBlock, TransactionContext, WalletHistoryWalk, PAGE_LIMIT,
};

const SUI: &str = "0x2::sui::SUI";
const BLUB: &str = "0xfa7ac3951fdca92c5200d468d31a365eb03b2be9936fde615e69f0c1274ad3a0::blub::BLUB";

fn rec(owner: &str, coin: &str, amount: i128) -> BalanceChange {
    BalanceChange::new(owner.to_string(), coin.to_string(), amount)
}

fn obj(id: &str) -> ObjectSummary {
    ObjectSummary { object_id: id.to_string(), version: 1 }
}

/// A ledger that serves fixed pages, then fails or runs dry.
struct FakeLedger {
    pages: Vec<Vec<ObjectSummary>>,
    fail_at: Option<usize>,
}

impl FakeLedger {
    fn page(&self, n: usize) -> Result<Vec<ObjectSummary>, ()> {
        if self.fail_at == Some(n) {
            return Err(());
        }
        Ok(self.pages.get(n).cloned().unwrap_or_default())
    }

    fn transaction(&self, object_id: &str) -> TransactionContext {
        TransactionContext {
            digest: format!("tx-{}", object_id),
            timestamp_ms: Some(5),
            checkpoint: Some(6),
            balance_changes: Some(vec![rec("me", SUI, 10), rec("other", SUI, -10)]),
        }
    }
}

fn run(ledger: &FakeLedger) -> (Vec<AccountHistory>, Vec<Option<String>>) {
    let mut walk = WalletHistoryWalk::new("me".to_string());
    let mut cursors = Vec::new();
    let mut n = 0;
    while !walk.is_finished() {
        cursors.push(walk.next_cursor());
        match ledger.page(n) {
            Ok(page) => {
                assert!(page.len() <= PAGE_LIMIT);
                walk.page_arrived(&page);
                for o in page.iter() {
                    walk.transaction_arrived(ledger.transaction(&o.object_id), Some(true)).unwrap();
                }
            }
            Err(()) => walk.page_failed(),
        }
        n += 1;
    }
    (walk.into_history(), cursors)
}

#[test]
fn walk_empty_first_page_gives_nothing() {
    let (h, cursors) = run(&FakeLedger { pages: vec![], fail_at: None });
    assert!(h.is_empty());
    assert_eq!(cursors, vec![None]);
}

#[test]
fn walk_failing_second_page_keeps_first_page_events() {
    let ledger = FakeLedger { pages: vec![vec![obj("o1"), obj("o2")], vec![obj("o3")]], fail_at: Some(1) };
    let (h, cursors) = run(&ledger);
    assert_eq!(h.len(), 2);
    assert_eq!(cursors, vec![None, Some("o2".to_string())]);
    match &h[1] {
        AccountHistory::ReceiveCoin(d) => assert_eq!(d.digest, "tx-o2"),
        other => panic!("unexpected {:?}", other),
    }
}

#[test]
fn walk_runs_until_empty_page_in_discovery_order() {
    let ledger = FakeLedger { pages: vec![vec![obj("o1")], vec![obj("o2"), obj("o3")]], fail_at: None };
    let (h, cursors) = run(&ledger);
    let digests: Vec<String> = h
        .iter()
        .map(|e| match e {
            AccountHistory::ReceiveCoin(d) => d.digest.clone(),
            other => panic!("unexpected {:?}", other),
        })
        .collect();
    assert_eq!(digests, vec!["tx-o1", "tx-o2", "tx-o3"]);
    assert_eq!(cursors, vec![None, Some("o1".to_string()), Some("o3".to_string())]);
}

#[test]
fn walk_skips_failed_and_reports_errors() {
    let mut walk = WalletHistoryWalk::new("me".to_string());
    let t = TransactionContext {
        digest: "x".to_string(),
        timestamp_ms: None,
        checkpoint: None,
        balance_changes: Some(vec![rec("me", SUI, 3), rec("o", SUI, -3)]),
    };
    assert_eq!(walk.transaction_arrived(t.clone_for_test(), Some(false)), Ok(0));
    assert_eq!(walk.transaction_arrived(t.clone_for_test(), None), Ok(0));
    assert!(walk.history().is_empty());
    let bad = TransactionContext {
        digest: "y".to_string(),
        timestamp_ms: None,
        checkpoint: None,
        balance_changes: Some(vec![rec("me", "bad", 3)]),
    };
    assert_eq!(walk.transaction_arrived(bad, Some(true)), Err(HistoryError::MalformedCoinType));
    assert_eq!(walk.transaction_arrived(t, Some(true)), Ok(1));
    assert_eq!(walk.history().len(), 1);
}

trait CloneForTest {
    fn clone_for_test(&self) -> Self;
}

impl CloneForTest for TransactionContext {
    fn clone_for_test(&self) -> Self {
        TransactionContext {
            digest: self.digest.clone(),
            timestamp_ms: self.timestamp_ms,
            checkpoint: self.checkpoint,
            balance_changes: self.balance_changes.clone(),
        }
    }
}

fn sample_history() -> Vec<AccountHistory> {
    let mut v = Vec::new();
    let txs = vec![
        vec![rec("me", SUI, 1_500_000_000), rec("a", SUI, -1_500_000_000)],
        vec![rec("b", SUI, 2), rec("me", SUI, -2)],
        vec![rec("me", SUI, -2_000), rec("me", BLUB, -5_000)],
        vec![rec("me", SUI, 1), rec("a", SUI, -1), rec("c", SUI, 0)],
    ];
    for (i, changes) in txs.into_iter().enumerate() {
        let t = TransactionContext {
            digest: format!("d{}", i),
            timestamp_ms: None,
            checkpoint: None,
            balance_changes: Some(changes),
        };
        v.extend(sui_wallet_history::organize_balance_list(t, "me".to_string()).unwrap());
    }
    v
}

#[test]
fn render_all_lines() {
    let lines = sample_history().print_lines(AccountPrintOption::All);
    assert_eq!(
        lines,
        vec![
            "Received 1.500000000 sui::SUI => me".to_string(),
            "Sent To 0.000000002 sui::SUI => b".to_string(),
            "Staked 0.000002000 sui::SUI".to_string(),
            "Complex Tx Digest : d3".to_string(),
        ]
    );
}

#[test]
fn render_filters_by_direction() {
    let h = sample_history();
    assert_eq!(h.print_lines(AccountPrintOption::Receive), vec!["Received 1.500000000 sui::SUI => me".to_string()]);
    assert_eq!(h.print_lines(AccountPrintOption::Send), vec!["Sent To 0.000000002 sui::SUI => b".to_string()]);
}

#[test]
fn render_swap_line() {
    let changes = vec![
        rec("me", SUI, -3_000_000_000),
        rec("me", "0xdba34672e30cb065b1f93e3ab55318768fd6fef66c15942c9f7cb846e2f900e7::usdc::USDC", 5_000_000),
    ];
    let t = TransactionContext {
        digest: "s".to_string(),
        timestamp_ms: None,
        checkpoint: None,
        balance_changes: Some(changes),
    };
    let h = sui_wallet_history::organize_balance_list(t, "me".to_string()).unwrap();
    assert_eq!(h.print_lines(AccountPrintOption::All), vec!["Swap : 3.000000000 sui::SUI >> 5.000000 usdc::USDC".to_string()]);
    assert!(h.print_lines(AccountPrintOption::Receive).is_empty());
}

#[test]
fn change_set_queries() {
    let c = vec![rec("me", SUI, -5), rec("a", BLUB, 3), rec("me", BLUB, 2), rec("me", BLUB, 4), rec("me", SUI, -1)];
    assert_eq!(c.get_address_list(), vec!["me".to_string(), "a".to_string()]);
    assert_eq!(c.get_currency_list(), vec!["sui::SUI".to_string(), "blub::BLUB".to_string()]);
    assert_eq!(c.which_currency_get_in_my_account("me".to_string()), vec!["blub::BLUB".to_string()]);
    assert_eq!(c.which_currency_go_out_my_account("me".to_string()), vec!["sui::SUI".to_string()]);
    assert!(c.my_balanced_changed("a".to_string()));
    assert!(!c.my_balanced_changed("z".to_string()));
    let mine = c.remove_dont_belong_to_me("me".to_string());
    assert_eq!(mine.len(), 4);
    assert!(mine.iter().all(|r| r.owner == "me"));
    assert_eq!(c.len(), 5);
}

#[test]
fn transaction_block_queries() {
    let call = |m: &str, f: &str| MoveCall { module: m.to_string(), function: f.to_string() };
    let t = TransactionBlock {
        gas_owner: Some("payer".to_string()),
        move_calls: vec![call("pool", "swap"), call("", "skip"), call("pool", "add"), call("router", "swap")],
    };
    assert_eq!(t.who_paid_gas(), "payer");
    assert_eq!(t.get_module_list(), vec!["pool".to_string(), "router".to_string()]);
    assert_eq!(t.get_function_list(), vec!["swap".to_string(), "add".to_string()]);
    let none = TransactionBlock { gas_owner: None, move_calls: vec![] };
    assert_eq!(none.who_paid_gas(), "");
    assert!(none.get_module_list().is_empty());
}
