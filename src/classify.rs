use vstd::prelude::*;
use vstd::string::*;

use crate::changes::{
    BalanceChange, BalanceChangeView, SuiWalletFuncExtension, address_list, all_resolvable,
    change_views, currencies, currency_list, in_currencies, out_currencies, touches,
    views,
};
use crate::currency::{canonical, native_currency, resolvable, sui_get_currency_name};
use crate::error::HistoryError;
use crate::history::{
    AccountHistory, ComplexTransactionDetails, ComplexView, CoinDetail, HistoryView,
    ReceiveTokenDetails, SentTokenDetails, SentTokenView, StakeDetail, StakeView, SwapDetails,
    SwapView, TransferView, history_views,
};
use crate::volume::{format_volume, sui_format_volume};

verus! {

/// A test on one text field of a record.
pub enum TextSpec {
    Any,
    Is(Seq<char>),
    IsNot(Seq<char>),
}

/// A test on the sign of a record's amount.
#[derive(Clone, Copy, PartialEq, Eq, Structural)]
pub enum Sign {
    Any,
    Credit,
    Debit,
}

/// Which records a rule looks for: by owner, canonical currency and sign.
pub struct Query {
    pub owner: TextSpec,
    pub currency: TextSpec,
    pub sign: Sign,
}

pub open spec fn query(owner: TextSpec, currency: TextSpec, sign: Sign) -> Query {
    Query { owner, currency, sign }
}

pub open spec fn text_ok(t: TextSpec, s: Seq<char>) -> bool {
    match t {
        TextSpec::Any => true,
        TextSpec::Is(x) => s == x,
        TextSpec::IsNot(x) => s != x,
    }
}

pub open spec fn sign_ok(g: Sign, a: i128) -> bool {
    match g {
        Sign::Any => true,
        Sign::Credit => a > 0,
        Sign::Debit => a < 0,
    }
}

/// Record `r` answers query `q`.
pub open spec fn fits(r: BalanceChangeView, q: Query) -> bool {
    text_ok(q.owner, r.owner) && text_ok(q.currency, canonical(r.coin_type)) && sign_ok(q.sign, r.amount)
}

/// The first record at or after `i` that answers `q`.
pub open spec fn first_fit(c: Seq<BalanceChangeView>, q: Query, i: nat) -> Option<nat>
    decreases c.len() - i,
{
    if i >= c.len() {
        None
    } else if fits(c[i as int], q) {
        Some(i)
    } else {
        first_fit(c, q, i + 1)
    }
}

/// The last record that answers `q`.
pub open spec fn last_fit(c: Seq<BalanceChangeView>, q: Query) -> Option<nat>
    decreases c.len(),
{
    if c.len() == 0 {
        None
    } else if fits(c.last(), q) {
        Some((c.len() - 1) as nat)
    } else {
        last_fit(c.drop_last(), q)
    }
}

/// The last entry of `s` other than `x`.
pub open spec fn last_other(s: Seq<Seq<char>>, x: Seq<char>) -> Option<nat>
    decreases s.len(),
{
    if s.len() == 0 {
        None
    } else if s.last() != x {
        Some((s.len() - 1) as nat)
    } else {
        last_other(s.drop_last(), x)
    }
}

/// `|a|`, which always fits in `u128`.
pub open spec fn magnitude(a: i128) -> u128 {
    if a < 0 { (-(a as int)) as u128 } else { a as u128 }
}

/// The largest `|amount|` among the records; 0 for none.
pub open spec fn max_magnitude(c: Seq<BalanceChangeView>) -> u128
    decreases c.len(),
{
    if c.len() == 0 {
        0
    } else {
        let m = max_magnitude(c.drop_last());
        let a = magnitude(c.last().amount);
        if a > m { a } else { m }
    }
}

/// `|amount|` of the record at `k`; 0 when there is none.
pub open spec fn magnitude_at(c: Seq<BalanceChangeView>, k: Option<nat>) -> u128 {
    match k {
        Some(i) => magnitude(c[i as int].amount),
        None => 0,
    }
}

/// The owner of the record at `k`; empty when there is none.
pub open spec fn owner_at(c: Seq<BalanceChangeView>, k: Option<nat>) -> Seq<char> {
    match k {
        Some(i) => c[i as int].owner,
        None => Seq::empty(),
    }
}

/// The canonical currency of the record at `k`; empty when there is none.
pub open spec fn currency_at(c: Seq<BalanceChangeView>, k: Option<nat>) -> Seq<char> {
    match k {
        Some(i) => canonical(c[i as int].coin_type),
        None => Seq::empty(),
    }
}

/// Digest, time and checkpoint of the transaction being classified.
pub struct TxMeta {
    pub digest: Seq<char>,
    pub time: u128,
    pub block_no: u128,
}

/// Stake: when more than one currency appears, the last non-native one in
/// the currency list is selected, else the native one.
pub open spec fn staked_currency(c: Seq<BalanceChangeView>) -> Seq<char> {
    let cl = currency_list(c);
    if cl.len() > 1 {
        match last_other(cl, native_currency()) {
            Some(k) => cl[k as int],
            None => native_currency(),
        }
    } else {
        native_currency()
    }
}

/// Stake: the event is made from the first record whose currency differs
/// from the selected one.
pub open spec fn staked_rule(c: Seq<BalanceChangeView>, m: TxMeta) -> Option<HistoryView> {
    match first_fit(c, query(TextSpec::Any, TextSpec::IsNot(staked_currency(c)), Sign::Any), 0) {
        None => None,
        Some(k) => {
            let currency = canonical(c[k as int].coin_type);
            let volume = magnitude(c[k as int].amount);
            Some(
                HistoryView::Stake(
                    StakeView {
                        digest: m.digest,
                        time: m.time,
                        block_no: m.block_no,
                        currency,
                        volume,
                        formated_volume: format_volume(volume as nat, currency),
                    },
                ),
            )
        },
    }
}

/// Exec counterpart of `TextSpec`.
enum TextTest {
    Any,
    Is(String),
    IsNot(String),
}

impl View for TextTest {
    type V = TextSpec;

    closed spec fn view(&self) -> TextSpec {
        match self {
            TextTest::Any => TextSpec::Any,
            TextTest::Is(s) => TextSpec::Is(s@),
            TextTest::IsNot(s) => TextSpec::IsNot(s@),
        }
    }
}

/// Exec counterpart of `Query`.
struct Probe {
    owner: TextTest,
    currency: TextTest,
    sign: Sign,
}

impl View for Probe {
    type V = Query;

    closed spec fn view(&self) -> Query {
        Query { owner: self.owner@, currency: self.currency@, sign: self.sign }
    }
}

/// Digest, time and checkpoint, as values.
struct Stamp {
    digest: String,
    time: u128,
    block_no: u128,
}

impl View for Stamp {
    type V = TxMeta;

    closed spec fn view(&self) -> TxMeta {
        TxMeta { digest: self.digest@, time: self.time, block_no: self.block_no }
    }
}

/// `cur` holds the canonical currency of each record of `c`.
pub open spec fn aligned(c: Seq<BalanceChange>, cur: Seq<String>) -> bool {
    views(cur) == currencies(change_views(c))
}

fn text_holds(t: &TextTest, s: &String) -> (b: bool)
    ensures
        b == text_ok(t@, s@),
{
    match t {
        TextTest::Any => true,
        TextTest::Is(x) => *s == *x,
        TextTest::IsNot(x) => !(*s == *x),
    }
}

fn probe_fits(r: &BalanceChange, currency: &String, q: &Probe) -> (b: bool)
    requires
        currency@ == canonical(r.coin_type@),
    ensures
        b == fits(r@, q@),
{
    let sign_holds = match q.sign {
        Sign::Any => true,
        Sign::Credit => r.amount > 0,
        Sign::Debit => r.amount < 0,
    };
    text_holds(&q.owner, &r.owner) && text_holds(&q.currency, currency) && sign_holds
}

proof fn lemma_aligned_at(c: Seq<BalanceChange>, cur: Seq<String>, i: int)
    requires
        aligned(c, cur),
        0 <= i < c.len(),
    ensures
        cur.len() == c.len(),
        cur[i]@ == canonical(c[i]@.coin_type),
        change_views(c)[i] == c[i]@,
{
    assert(views(cur).len() == cur.len());
    assert(views(cur)[i] == cur[i]@);
    assert(currencies(change_views(c))[i] == canonical(change_views(c)[i].coin_type));
}

/// The first record of `c` that answers `q`.
fn find_first(c: &Vec<BalanceChange>, cur: &Vec<String>, q: &Probe) -> (r: Option<usize>)
    requires
        aligned(c@, cur@),
    ensures
        match r {
            Some(k) => first_fit(change_views(c@), q@, 0) == Some(k as nat) && k < c@.len(),
            None => first_fit(change_views(c@), q@, 0) is None,
        },
{
    let ghost cv = change_views(c@);
    let mut i: usize = 0;
    while i < c.len()
        invariant
            i <= c@.len(),
            aligned(c@, cur@),
            cv == change_views(c@),
            first_fit(cv, q@, 0) == first_fit(cv, q@, i as nat),
        decreases c@.len() - i,
    {
        proof {
            lemma_aligned_at(c@, cur@, i as int);
        }
        if probe_fits(&c[i], &cur[i], q) {
            return Some(i);
        }
        i = i + 1;
    }
    None
}

/// The last record of `c` that answers `q`.
fn find_last(c: &Vec<BalanceChange>, cur: &Vec<String>, q: &Probe) -> (r: Option<usize>)
    requires
        aligned(c@, cur@),
    ensures
        match r {
            Some(k) => last_fit(change_views(c@), q@) == Some(k as nat) && k < c@.len(),
            None => last_fit(change_views(c@), q@) is None,
        },
{
    let ghost cv = change_views(c@);
    let mut found: Option<usize> = None;
    let mut i: usize = 0;
    while i < c.len()
        invariant
            i <= c@.len(),
            aligned(c@, cur@),
            cv == change_views(c@),
            match found {
                Some(k) => last_fit(cv.take(i as int), q@) == Some(k as nat) && k < i,
                None => last_fit(cv.take(i as int), q@) is None,
            },
        decreases c@.len() - i,
    {
        proof {
            lemma_aligned_at(c@, cur@, i as int);
            assert(cv.take(i + 1).drop_last() =~= cv.take(i as int));
            assert(cv.take(i + 1).last() == cv[i as int]);
        }
        if probe_fits(&c[i], &cur[i], q) {
            found = Some(i);
        }
        i = i + 1;
    }
    assert(cv.take(c@.len() as int) =~= cv);
    found
}

/// The last entry of `list` other than `x`.
fn find_last_other(list: &Vec<String>, x: &String) -> (r: Option<usize>)
    ensures
        match r {
            Some(k) => last_other(views(list@), x@) == Some(k as nat) && k < list@.len(),
            None => last_other(views(list@), x@) is None,
        },
{
    let ghost lv = views(list@);
    let mut found: Option<usize> = None;
    let mut i: usize = 0;
    while i < list.len()
        invariant
            i <= list@.len(),
            lv == views(list@),
            match found {
                Some(k) => last_other(lv.take(i as int), x@) == Some(k as nat) && k < i,
                None => last_other(lv.take(i as int), x@) is None,
            },
        decreases list@.len() - i,
    {
        proof {
            assert(lv.take(i + 1).drop_last() =~= lv.take(i as int));
            assert(lv.take(i + 1).last() == list@[i as int]@);
        }
        if !(list[i] == *x) {
            found = Some(i);
        }
        i = i + 1;
    }
    assert(lv.take(list@.len() as int) =~= lv);
    found
}

/// `|a|` as `u128`.
fn magnitude_of(a: i128) -> (r: u128)
    ensures
        r == magnitude(a),
{
    if a < 0 {
        ((-(a + 1)) as u128) + 1
    } else {
        a as u128
    }
}

/// The canonical name of the native currency.
fn native_name() -> (r: String)
    ensures
        r@ == native_currency(),
{
    String::from_str("sui::SUI")
}

fn stake_rule(c: &Vec<BalanceChange>, cur: &Vec<String>, cl: &Vec<String>, st: &Stamp) -> (r: Option<AccountHistory>)
    requires
        aligned(c@, cur@),
        views(cl@) == currency_list(change_views(c@)),
    ensures
        match r {
            Some(e) => staked_rule(change_views(c@), st@) == Some(e@),
            None => staked_rule(change_views(c@), st@) is None,
        },
{
    let native = native_name();
    let mut selected = native_name();
    if cl.len() > 1 {
        if let Some(k) = find_last_other(cl, &native) {
            selected = cl[k].clone();
            assert(views(cl@)[k as int] == cl@[k as int]@);
        }
    }
    assert(selected@ == staked_currency(change_views(c@)));
    let q = Probe { owner: TextTest::Any, currency: TextTest::IsNot(selected), sign: Sign::Any };
    match find_first(c, cur, &q) {
        None => None,
        Some(k) => {
            proof {
                lemma_aligned_at(c@, cur@, k as int);
            }
            let volume = magnitude_of(c[k].amount);
            Some(
                AccountHistory::Stake(
                    StakeDetail {
                        digest: st.digest.clone(),
                        time: st.time,
                        block_no: st.block_no,
                        currency: cur[k].clone(),
                        volume,
                        formated_volume: sui_format_volume(volume, cur[k].clone()),
                    },
                ),
            )
        },
    }
}


/// A swap event; `commission` is the recipient and volume of a native-coin fee.
pub open spec fn swap_of(
    m: TxMeta,
    in_cur: Seq<char>,
    out_cur: Seq<char>,
    in_vol: u128,
    out_vol: u128,
    gas: u128,
    gas_text: Seq<char>,
    commission: Option<(Seq<char>, u128)>,
) -> HistoryView {
    HistoryView::Swap(
        SwapView {
            digest: m.digest,
            time: m.time,
            block_no: m.block_no,
            input_currency: in_cur,
            output_currency: out_cur,
            input_volume: in_vol,
            output_volume: out_vol,
            input_formated_volume: format_volume(in_vol as nat, in_cur),
            output_formated_volume: format_volume(out_vol as nat, out_cur),
            gas,
            formated_gas: gas_text,
            commision_status: commission is Some,
            commision_account: match commission {
                Some(x) => x.0,
                None => Seq::empty(),
            },
            commision_volume: match commission {
                Some(x) => x.1,
                None => 0,
            },
            formatted_commision: match commission {
                Some(x) => format_volume(x.1 as nat, native_currency()),
                None => Seq::empty(),
            },
        },
    )
}

/// Swap gas: `|amount|` of the last debit record whose owner text equals the
/// native currency's name; 0 when there is none.
pub open spec fn gas_of(c: Seq<BalanceChangeView>) -> u128 {
    magnitude_at(
        c,
        last_fit(c, query(TextSpec::Is(native_currency()), TextSpec::Any, Sign::Debit)),
    )
}

/// Swap: the last non-native credit, which gives what was gained.
pub open spec fn swap_in(c: Seq<BalanceChangeView>) -> Option<nat> {
    last_fit(c, query(TextSpec::Any, TextSpec::IsNot(native_currency()), Sign::Credit))
}

/// Swap: the last non-native debit, which gives what was given up.
pub open spec fn swap_out(c: Seq<BalanceChangeView>) -> Option<nat> {
    last_fit(c, query(TextSpec::Any, TextSpec::IsNot(native_currency()), Sign::Debit))
}

/// Swap with commission: a native credit of another owner is the commission;
/// it commits only when a non-native credit and a non-native debit exist.
pub open spec fn commission_swap_rule(
    c: Seq<BalanceChangeView>,
    me: Seq<char>,
    m: TxMeta,
) -> Option<HistoryView> {
    match (
        first_fit(c, query(TextSpec::IsNot(me), TextSpec::Is(native_currency()), Sign::Credit), 0),
        swap_in(c),
        swap_out(c),
    ) {
        (Some(k), Some(i), Some(o)) => Some(
            swap_of(
                m,
                canonical(c[i as int].coin_type),
                canonical(c[o as int].coin_type),
                magnitude(c[i as int].amount),
                magnitude(c[o as int].amount),
                gas_of(c),
                format_volume(gas_of(c) as nat, native_currency()),
                Some((c[k as int].owner, magnitude(c[k as int].amount))),
            ),
        ),
        _ => None,
    }
}

/// Token swap without intermediary; commits only when a non-native credit and
/// a non-native debit exist.
pub open spec fn token_swap_rule(c: Seq<BalanceChangeView>, m: TxMeta) -> Option<HistoryView> {
    match (swap_in(c), swap_out(c)) {
        (Some(i), Some(o)) => Some(
            swap_of(
                m,
                canonical(c[i as int].coin_type),
                canonical(c[o as int].coin_type),
                magnitude(c[i as int].amount),
                magnitude(c[o as int].amount),
                gas_of(c),
                format_volume(gas_of(c) as nat, native_currency()),
                None,
            ),
        ),
        _ => None,
    }
}

/// Coin swap: the one received and the one sent currency, with the volumes
/// of the first credit and the first debit; no gas.
pub open spec fn coin_swap_rule(c: Seq<BalanceChangeView>, me: Seq<char>, m: TxMeta) -> HistoryView {
    swap_of(
        m,
        in_currencies(c, me)[0],
        out_currencies(c, me)[0],
        magnitude_at(c, first_fit(c, query(TextSpec::Any, TextSpec::Any, Sign::Credit), 0)),
        magnitude_at(c, first_fit(c, query(TextSpec::Any, TextSpec::Any, Sign::Debit), 0)),
        0,
        Seq::empty(),
        None,
    )
}

/// Received coin or token.  Native: the first credit of `me`, with the owner
/// of the last debit as sender.  Otherwise: the first record of `me` must be
/// a credit, and the first record of another owner names the sender.
pub open spec fn received_rule(c: Seq<BalanceChangeView>, me: Seq<char>, m: TxMeta) -> Option<
    Result<HistoryView, HistoryError>,
> {
    if in_currencies(c, me)[0] == native_currency() {
        match first_fit(c, query(TextSpec::Is(me), TextSpec::Any, Sign::Credit), 0) {
            None => None,
            Some(k) => {
                let currency = canonical(c[k as int].coin_type);
                let volume = magnitude(c[k as int].amount);
                Some(
                    Ok(
                        HistoryView::ReceiveCoin(
                            TransferView {
                                digest: m.digest,
                                time: m.time,
                                block_no: m.block_no,
                                sender: owner_at(
                                    c,
                                    last_fit(c, query(TextSpec::Any, TextSpec::Any, Sign::Debit)),
                                ),
                                receiver: c[k as int].owner,
                                currency,
                                volume,
                                formated_volume: format_volume(volume as nat, currency),
                            },
                        ),
                    ),
                )
            },
        }
    } else {
        match first_fit(c, query(TextSpec::Is(me), TextSpec::Any, Sign::Any), 0) {
            None => None,
            Some(k) => if c[k as int].amount <= 0 {
                Some(Err(HistoryError::ReceiverNotCredited))
            } else {
                match first_fit(c, query(TextSpec::IsNot(me), TextSpec::Any, Sign::Any), 0) {
                    None => None,
                    Some(j) => {
                        let currency = canonical(c[k as int].coin_type);
                        let volume = magnitude(c[k as int].amount);
                        Some(
                            Ok(
                                HistoryView::ReceiveToken(
                                    TransferView {
                                        digest: m.digest,
                                        time: m.time,
                                        block_no: m.block_no,
                                        sender: c[j as int].owner,
                                        receiver: c[k as int].owner,
                                        currency,
                                        volume,
                                        formated_volume: format_volume(volume as nat, currency),
                                    },
                                ),
                            ),
                        )
                    },
                }
            },
        }
    }
}

/// Sent coin: the owner of the last credit receives; the volume is the
/// largest `|amount|` of all records.
pub open spec fn sent_coin_rule(c: Seq<BalanceChangeView>, me: Seq<char>, m: TxMeta) -> HistoryView {
    HistoryView::SentCoin(
        TransferView {
            digest: m.digest,
            time: m.time,
            block_no: m.block_no,
            sender: me,
            receiver: owner_at(c, last_fit(c, query(TextSpec::Any, TextSpec::Any, Sign::Credit))),
            currency: native_currency(),
            volume: max_magnitude(c),
            formated_volume: format_volume(max_magnitude(c) as nat, native_currency()),
        },
    )
}

/// Sent token: the last native record is gas, the last non-native debit the
/// volume, and the last non-native credit names receiver and token.
pub open spec fn sent_token_rule(c: Seq<BalanceChangeView>, me: Seq<char>, m: TxMeta) -> HistoryView {
    let gas = magnitude_at(c, last_fit(c, query(TextSpec::Any, TextSpec::Is(native_currency()), Sign::Any)));
    let volume = magnitude_at(c, swap_out(c));
    let token = currency_at(c, swap_in(c));
    HistoryView::SentToken(
        SentTokenView {
            digest: m.digest,
            time: m.time,
            block_no: m.block_no,
            sender: me,
            receiver: owner_at(c, swap_in(c)),
            currency: token,
            volume,
            formated_volume: format_volume(volume as nat, token),
            gas,
            formated_gas: format_volume(gas as nat, native_currency()),
        },
    )
}

/// The fallback: every derived list and the records themselves.
pub open spec fn complex_rule(c: Seq<BalanceChangeView>, me: Seq<char>, m: TxMeta) -> HistoryView {
    HistoryView::ComplexTransaction(
        ComplexView {
            digest: m.digest,
            time: m.time,
            block_no: m.block_no,
            get_in_currency: in_currencies(c, me),
            go_out_currency: out_currencies(c, me),
            address_list: address_list(c),
            currency_list: currency_list(c),
            balance_list: c,
        },
    )
}

/// The rules in order, each guarded by the shape (distinct owners, distinct
/// currencies received and sent by `me`); a rule whose search finds nothing
/// passes to the next one, and the fallback takes what is left.
pub open spec fn shape_outcome(c: Seq<BalanceChangeView>, me: Seq<char>, m: TxMeta) -> Result<
    HistoryView,
    HistoryError,
> {
    let a = address_list(c).len();
    let i = in_currencies(c, me).len();
    let o = out_currencies(c, me).len();
    if a == 1 && i == 0 && o >= 1 && staked_rule(c, m) is Some {
        Ok(staked_rule(c, m).unwrap())
    } else if a == 2 && i == 1 && o == 2 && commission_swap_rule(c, me, m) is Some {
        Ok(commission_swap_rule(c, me, m).unwrap())
    } else if a == 1 && i == 1 && o == 2 && token_swap_rule(c, m) is Some {
        Ok(token_swap_rule(c, m).unwrap())
    } else if a == 1 && i == 1 && o == 1 {
        Ok(coin_swap_rule(c, me, m))
    } else if a == 2 && i == 1 && o == 0 && received_rule(c, me, m) is Some {
        received_rule(c, me, m).unwrap()
    } else if a == 2 && i == 0 && o == 1 {
        Ok(sent_coin_rule(c, me, m))
    } else if a == 2 && i == 0 && o == 2 {
        Ok(sent_token_rule(c, me, m))
    } else {
        Ok(complex_rule(c, me, m))
    }
}

/// One transaction as the ledger reports it.
pub struct TransactionContext {
    pub digest: String,
    pub timestamp_ms: Option<u128>,
    pub checkpoint: Option<u128>,
    pub balance_changes: Option<Vec<BalanceChange>>,
}

/// A transaction as plain values; absent time and checkpoint read as 0.
pub struct TransactionContextView {
    pub digest: Seq<char>,
    pub time: u128,
    pub block_no: u128,
    pub changes: Option<Seq<BalanceChangeView>>,
}

impl View for TransactionContext {
    type V = TransactionContextView;

    open spec fn view(&self) -> TransactionContextView {
        TransactionContextView {
            digest: self.digest@,
            time: match self.timestamp_ms {
                Some(t) => t,
                None => 0,
            },
            block_no: match self.checkpoint {
                Some(b) => b,
                None => 0,
            },
            changes: match self.balance_changes {
                Some(c) => Some(change_views(c@)),
                None => None,
            },
        }
    }
}

/// The events of one transaction for wallet `me`: none when it has no
/// balance changes or none of them is `me`'s; an error when a coin type is
/// malformed or the received-token shape does not credit `me`; else exactly
/// the event of the first rule that commits.
pub open spec fn classify_transaction(tx: TransactionContextView, me: Seq<char>) -> Result<
    Seq<HistoryView>,
    HistoryError,
> {
    match tx.changes {
        None => Ok(Seq::empty()),
        Some(c) => if !touches(c, me) {
            Ok(Seq::empty())
        } else if !all_resolvable(c) {
            Err(HistoryError::MalformedCoinType)
        } else {
            match shape_outcome(c, me, TxMeta { digest: tx.digest, time: tx.time, block_no: tx.block_no }) {
                Ok(e) => Ok(seq![e]),
                Err(x) => Err(x),
            }
        },
    }
}

fn make_swap(
    st: &Stamp,
    in_cur: String,
    out_cur: String,
    in_vol: u128,
    out_vol: u128,
    gas: u128,
    gas_text: String,
    commission: Option<(String, u128)>,
) -> (r: AccountHistory)
    ensures
        r@ == swap_of(
            st@,
            in_cur@,
            out_cur@,
            in_vol,
            out_vol,
            gas,
            gas_text@,
            match commission {
                Some(x) => Some((x.0@, x.1)),
                None => None,
            },
        ),
{
    let input_formated_volume = sui_format_volume(in_vol, in_cur.clone());
    let output_formated_volume = sui_format_volume(out_vol, out_cur.clone());
    let (status, account, volume, text) = match commission {
        Some(x) => {
            let t = sui_format_volume(x.1, native_name());
            (true, x.0, x.1, t)
        },
        None => (false, String::new(), 0, String::new()),
    };
    AccountHistory::Swap(
        SwapDetails {
            digest: st.digest.clone(),
            time: st.time,
            block_no: st.block_no,
            input_currency: in_cur,
            output_currency: out_cur,
            input_volume: in_vol,
            output_volume: out_vol,
            input_formated_volume,
            output_formated_volume,
            gas,
            formated_gas: gas_text,
            commision_status: status,
            commision_account: account,
            commision_volume: volume,
            formatted_commision: text,
        },
    )
}

fn gas_exec(c: &Vec<BalanceChange>, cur: &Vec<String>) -> (r: u128)
    requires
        aligned(c@, cur@),
    ensures
        r == gas_of(change_views(c@)),
{
    let q = Probe { owner: TextTest::Is(native_name()), currency: TextTest::Any, sign: Sign::Debit };
    match find_last(c, cur, &q) {
        Some(k) => magnitude_of(c[k].amount),
        None => 0,
    }
}

fn non_native_probe(sign: Sign) -> (r: Probe)
    ensures
        r@ == query(TextSpec::Any, TextSpec::IsNot(native_currency()), sign),
{
    Probe { owner: TextTest::Any, currency: TextTest::IsNot(native_name()), sign }
}

fn swap_with_commission(c: &Vec<BalanceChange>, cur: &Vec<String>, me: &String, st: &Stamp) -> (r: Option<AccountHistory>)
    requires
        aligned(c@, cur@),
    ensures
        match r {
            Some(e) => commission_swap_rule(change_views(c@), me@, st@) == Some(e@),
            None => commission_swap_rule(change_views(c@), me@, st@) is None,
        },
{
    let qk = Probe { owner: TextTest::IsNot(me.clone()), currency: TextTest::Is(native_name()), sign: Sign::Credit };
    let k = find_first(c, cur, &qk);
    let i = find_last(c, cur, &non_native_probe(Sign::Credit));
    let o = find_last(c, cur, &non_native_probe(Sign::Debit));
    match (k, i, o) {
        (Some(k), Some(i), Some(o)) => {
            proof {
                lemma_aligned_at(c@, cur@, k as int);
                lemma_aligned_at(c@, cur@, i as int);
                lemma_aligned_at(c@, cur@, o as int);
            }
            let gas = gas_exec(c, cur);
            let gas_text = sui_format_volume(gas, native_name());
            Some(
                make_swap(
                    st,
                    cur[i].clone(),
                    cur[o].clone(),
                    magnitude_of(c[i].amount),
                    magnitude_of(c[o].amount),
                    gas,
                    gas_text,
                    Some((c[k].owner.clone(), magnitude_of(c[k].amount))),
                ),
            )
        },
        _ => None,
    }
}

fn token_swap(c: &Vec<BalanceChange>, cur: &Vec<String>, st: &Stamp) -> (r: Option<AccountHistory>)
    requires
        aligned(c@, cur@),
    ensures
        match r {
            Some(e) => token_swap_rule(change_views(c@), st@) == Some(e@),
            None => token_swap_rule(change_views(c@), st@) is None,
        },
{
    let i = find_last(c, cur, &non_native_probe(Sign::Credit));
    let o = find_last(c, cur, &non_native_probe(Sign::Debit));
    match (i, o) {
        (Some(i), Some(o)) => {
            proof {
                lemma_aligned_at(c@, cur@, i as int);
                lemma_aligned_at(c@, cur@, o as int);
            }
            let gas = gas_exec(c, cur);
            let gas_text = sui_format_volume(gas, native_name());
            Some(
                make_swap(
                    st,
                    cur[i].clone(),
                    cur[o].clone(),
                    magnitude_of(c[i].amount),
                    magnitude_of(c[o].amount),
                    gas,
                    gas_text,
                    None,
                ),
            )
        },
        _ => None,
    }
}

fn coin_swap(
    c: &Vec<BalanceChange>,
    cur: &Vec<String>,
    inl: &Vec<String>,
    outl: &Vec<String>,
    me: &String,
    st: &Stamp,
) -> (r: AccountHistory)
    requires
        aligned(c@, cur@),
        views(inl@) == in_currencies(change_views(c@), me@),
        views(outl@) == out_currencies(change_views(c@), me@),
        inl@.len() >= 1,
        outl@.len() >= 1,
    ensures
        r@ == coin_swap_rule(change_views(c@), me@, st@),
{
    let credit = Probe { owner: TextTest::Any, currency: TextTest::Any, sign: Sign::Credit };
    let debit = Probe { owner: TextTest::Any, currency: TextTest::Any, sign: Sign::Debit };
    let in_vol = match find_first(c, cur, &credit) {
        Some(k) => magnitude_of(c[k].amount),
        None => 0,
    };
    let out_vol = match find_first(c, cur, &debit) {
        Some(k) => magnitude_of(c[k].amount),
        None => 0,
    };
    assert(views(inl@)[0] == inl@[0]@ && views(outl@)[0] == outl@[0]@);
    make_swap(st, inl[0].clone(), outl[0].clone(), in_vol, out_vol, 0, String::new(), None)
}

fn received(
    c: &Vec<BalanceChange>,
    cur: &Vec<String>,
    inl: &Vec<String>,
    me: &String,
    st: &Stamp,
) -> (r: Option<Result<AccountHistory, HistoryError>>)
    requires
        aligned(c@, cur@),
        views(inl@) == in_currencies(change_views(c@), me@),
        inl@.len() >= 1,
    ensures
        match r {
            Some(Ok(e)) => received_rule(change_views(c@), me@, st@) == Some(
                Ok::<HistoryView, HistoryError>(e@),
            ),
            Some(Err(x)) => received_rule(change_views(c@), me@, st@) == Some(
                Err::<HistoryView, HistoryError>(x),
            ),
            None => received_rule(change_views(c@), me@, st@) is None,
        },
{
    assert(views(inl@)[0] == inl@[0]@);
    if inl[0] == native_name() {
        let q = Probe { owner: TextTest::Is(me.clone()), currency: TextTest::Any, sign: Sign::Credit };
        match find_first(c, cur, &q) {
            None => None,
            Some(k) => {
                proof {
                    lemma_aligned_at(c@, cur@, k as int);
                }
                let debit = Probe { owner: TextTest::Any, currency: TextTest::Any, sign: Sign::Debit };
                let sender = match find_last(c, cur, &debit) {
                    Some(j) => c[j].owner.clone(),
                    None => String::new(),
                };
                let volume = magnitude_of(c[k].amount);
                Some(
                    Ok(
                        AccountHistory::ReceiveCoin(
                            CoinDetail {
                                digest: st.digest.clone(),
                                time: st.time,
                                block_no: st.block_no,
                                sender,
                                receiver: c[k].owner.clone(),
                                currency: cur[k].clone(),
                                volume,
                                formated_volume: sui_format_volume(volume, cur[k].clone()),
                            },
                        ),
                    ),
                )
            },
        }
    } else {
        let q = Probe { owner: TextTest::Is(me.clone()), currency: TextTest::Any, sign: Sign::Any };
        match find_first(c, cur, &q) {
            None => None,
            Some(k) => {
                proof {
                    lemma_aligned_at(c@, cur@, k as int);
                }
                if c[k].amount <= 0 {
                    Some(Err(HistoryError::ReceiverNotCredited))
                } else {
                    let other = Probe { owner: TextTest::IsNot(me.clone()), currency: TextTest::Any, sign: Sign::Any };
                    match find_first(c, cur, &other) {
                        None => None,
                        Some(j) => {
                            let volume = magnitude_of(c[k].amount);
                            Some(
                                Ok(
                                    AccountHistory::ReceiveToken(
                                        ReceiveTokenDetails {
                                            digest: st.digest.clone(),
                                            time: st.time,
                                            block_no: st.block_no,
                                            sender: c[j].owner.clone(),
                                            receiver: c[k].owner.clone(),
                                            currency: cur[k].clone(),
                                            volume,
                                            formated_volume: sui_format_volume(volume, cur[k].clone()),
                                        },
                                    ),
                                ),
                            )
                        },
                    }
                }
            },
        }
    }
}

fn largest_magnitude(c: &Vec<BalanceChange>) -> (r: u128)
    ensures
        r == max_magnitude(change_views(c@)),
{
    let ghost cv = change_views(c@);
    let mut best: u128 = 0;
    let mut i: usize = 0;
    while i < c.len()
        invariant
            i <= c@.len(),
            cv == change_views(c@),
            best == max_magnitude(cv.take(i as int)),
        decreases c@.len() - i,
    {
        proof {
            assert(cv.take(i + 1).drop_last() =~= cv.take(i as int));
            assert(cv.take(i + 1).last() == c@[i as int]@);
        }
        let a = magnitude_of(c[i].amount);
        if a > best {
            best = a;
        }
        i = i + 1;
    }
    assert(cv.take(c@.len() as int) =~= cv);
    best
}

fn sent_coin(c: &Vec<BalanceChange>, cur: &Vec<String>, me: &String, st: &Stamp) -> (r: AccountHistory)
    requires
        aligned(c@, cur@),
    ensures
        r@ == sent_coin_rule(change_views(c@), me@, st@),
{
    let credit = Probe { owner: TextTest::Any, currency: TextTest::Any, sign: Sign::Credit };
    let receiver = match find_last(c, cur, &credit) {
        Some(k) => c[k].owner.clone(),
        None => String::new(),
    };
    let volume = largest_magnitude(c);
    AccountHistory::SentCoin(
        CoinDetail {
            digest: st.digest.clone(),
            time: st.time,
            block_no: st.block_no,
            sender: me.clone(),
            receiver,
            currency: native_name(),
            volume,
            formated_volume: sui_format_volume(volume, native_name()),
        },
    )
}

fn sent_token(c: &Vec<BalanceChange>, cur: &Vec<String>, me: &String, st: &Stamp) -> (r: AccountHistory)
    requires
        aligned(c@, cur@),
    ensures
        r@ == sent_token_rule(change_views(c@), me@, st@),
{
    let native = Probe { owner: TextTest::Any, currency: TextTest::Is(native_name()), sign: Sign::Any };
    let gas = match find_last(c, cur, &native) {
        Some(k) => magnitude_of(c[k].amount),
        None => 0,
    };
    let volume = match find_last(c, cur, &non_native_probe(Sign::Debit)) {
        Some(k) => magnitude_of(c[k].amount),
        None => 0,
    };
    let (token, receiver) = match find_last(c, cur, &non_native_probe(Sign::Credit)) {
        Some(k) => {
            proof {
                lemma_aligned_at(c@, cur@, k as int);
            }
            (cur[k].clone(), c[k].owner.clone())
        },
        None => (String::new(), String::new()),
    };
    let formated_volume = sui_format_volume(volume, token.clone());
    AccountHistory::SentToken(
        SentTokenDetails {
            digest: st.digest.clone(),
            time: st.time,
            block_no: st.block_no,
            sender: me.clone(),
            receiver,
            currency: token,
            volume,
            formated_volume,
            gas,
            formated_gas: sui_format_volume(gas, native_name()),
        },
    )
}

/// The canonical currency of every record, or the error of the first
/// malformed coin type.
fn resolve_all(c: &Vec<BalanceChange>) -> (r: Result<Vec<String>, HistoryError>)
    ensures
        match r {
            Ok(cur) => all_resolvable(change_views(c@)) && aligned(c@, cur@),
            Err(e) => !all_resolvable(change_views(c@)) && e == HistoryError::MalformedCoinType,
        },
{
    let ghost cv = change_views(c@);
    let mut cur: Vec<String> = Vec::new();
    let mut i: usize = 0;
    while i < c.len()
        invariant
            i <= c@.len(),
            cv == change_views(c@),
            all_resolvable(cv.take(i as int)),
            views(cur@) == currencies(cv.take(i as int)),
        decreases c@.len() - i,
    {
        assert(cv[i as int] == c@[i as int]@);
        match sui_get_currency_name(c[i].coin_type.clone()) {
            Ok(name) => {
                let ghost before = cur@;
                assert(name@ == canonical(cv[i as int].coin_type));
                cur.push(name);
                assert(currencies(cv.take(i + 1)) =~= currencies(cv.take(i as int)).push(
                    canonical(cv[i as int].coin_type),
                ));
                assert(views(cur@) =~= views(before).push(cur@[i as int]@));
                assert(views(cur@) =~= currencies(cv.take(i + 1)));
                assert(all_resolvable(cv.take(i + 1))) by {
                    assert forall|k: int| 0 <= k < i + 1 implies resolvable(
                        #[trigger] cv.take(i + 1)[k].coin_type,
                    ) by {
                        if k < i {
                            assert(cv.take(i + 1)[k] == cv.take(i as int)[k]);
                        }
                    }
                }
            },
            Err(e) => {
                assert(!resolvable(cv[i as int].coin_type));
                return Err(e);
            },
        }
        i = i + 1;
    }
    assert(cv.take(c@.len() as int) =~= cv);
    Ok(cur)
}

/// Classifies one transaction for wallet `my_wallet_address`: no event when
/// the transaction has no balance changes or none of them is the wallet's;
/// otherwise exactly one event, or the error that stops it.
pub fn organize_balance_list(tx_details: TransactionContext, my_wallet_address: String) -> (r: Result<
    Vec<AccountHistory>,
    HistoryError,
>)
    ensures
        match r {
            Ok(v) => classify_transaction(tx_details@, my_wallet_address@) == Ok::<
                Seq<HistoryView>,
                HistoryError,
            >(history_views(v@)),
            Err(e) => classify_transaction(tx_details@, my_wallet_address@) == Err::<
                Seq<HistoryView>,
                HistoryError,
            >(e),
        },
{
    let st = Stamp {
        digest: tx_details.digest,
        time: match tx_details.timestamp_ms {
            Some(t) => t,
            None => 0,
        },
        block_no: match tx_details.checkpoint {
            Some(b) => b,
            None => 0,
        },
    };
    let c = match tx_details.balance_changes {
        None => {
            let v: Vec<AccountHistory> = Vec::new();
            assert(history_views(v@) =~= Seq::<HistoryView>::empty());
            return Ok(v);
        },
        Some(c) => c,
    };
    let me = my_wallet_address;
    if !c.my_balanced_changed(me.clone()) {
        let v: Vec<AccountHistory> = Vec::new();
        assert(history_views(v@) =~= Seq::<HistoryView>::empty());
        return Ok(v);
    }
    let cur = match resolve_all(&c) {
        Ok(cur) => cur,
        Err(e) => return Err(e),
    };
    let inl = c.which_currency_get_in_my_account(me.clone());
    let outl = c.which_currency_go_out_my_account(me.clone());
    let al = c.get_address_list();
    let cl = c.get_currency_list();
    let a = al.len();
    let i = inl.len();
    let o = outl.len();
    assert(views(al@).len() == a && views(inl@).len() == i && views(outl@).len() == o);
    let mut found: Option<AccountHistory> = None;
    if a == 1 && i == 0 && o >= 1 {
        found = stake_rule(&c, &cur, &cl, &st);
    }
    if found.is_none() && a == 2 && i == 1 && o == 2 {
        found = swap_with_commission(&c, &cur, &me, &st);
    }
    if found.is_none() && a == 1 && i == 1 && o == 2 {
        found = token_swap(&c, &cur, &st);
    }
    if found.is_none() && a == 1 && i == 1 && o == 1 {
        found = Some(coin_swap(&c, &cur, &inl, &outl, &me, &st));
    }
    if found.is_none() && a == 2 && i == 1 && o == 0 {
        match received(&c, &cur, &inl, &me, &st) {
            Some(Ok(e)) => {
                found = Some(e);
            },
            Some(Err(x)) => {
                return Err(x);
            },
            None => {},
        }
    }
    if found.is_none() && a == 2 && i == 0 && o == 1 {
        found = Some(sent_coin(&c, &cur, &me, &st));
    }
    if found.is_none() && a == 2 && i == 0 && o == 2 {
        found = Some(sent_token(&c, &cur, &me, &st));
    }
    let event = match found {
        Some(e) => e,
        None => AccountHistory::ComplexTransaction(
            ComplexTransactionDetails {
                digest: st.digest,
                time: st.time,
                block_no: st.block_no,
                get_in_currency: inl,
                go_out_currency: outl,
                address_list: al,
                currency_list: cl,
                balance_list: c,
            },
        ),
    };
    let ghost ev = event@;
    let mut out: Vec<AccountHistory> = Vec::new();
    out.push(event);
    assert(history_views(out@) =~= seq![ev]);
    Ok(out)
}

} // verus!
