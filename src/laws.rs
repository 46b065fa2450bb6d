use vstd::prelude::*;

use crate::changes::{
    BalanceChangeView, address_list, all_resolvable, in_currencies, out_currencies, touches,
};
use crate::classify::{
    TransactionContextView, TxMeta, classify_transaction, commission_swap_rule, complex_rule,
    shape_outcome, staked_rule, token_swap_rule,
};
use crate::currency::{coin_segments, currency_name, native_currency};
use crate::error::HistoryError;
use crate::history::HistoryView;
use crate::walk::{ObjectSummaryView, WalkView, after_failure, after_page, walk_start};

verus! {

/// A transaction none of whose balance changes belongs to `me` yields no
/// event and no error.
pub proof fn lemma_untouched_yields_nothing(tx: TransactionContextView, me: Seq<char>)
    requires
        tx.changes matches Some(c) ==> !touches(c, me),
    ensures
        classify_transaction(tx, me) == Ok::<Seq<HistoryView>, HistoryError>(Seq::empty()),
{
}

/// Classification never yields more than one event.
pub proof fn lemma_at_most_one_event(tx: TransactionContextView, me: Seq<char>)
    ensures
        classify_transaction(tx, me) matches Ok(v) ==> v.len() <= 1,
{
}

/// A transaction whose balance changes touch `me` is never dropped: when no
/// shaped rule commits, the fallback still reports it, so the result is one
/// event or an error.
pub proof fn lemma_relevant_never_dropped(tx: TransactionContextView, me: Seq<char>)
    requires
        tx.changes matches Some(c) && touches(c, me),
    ensures
        classify_transaction(tx, me) matches Ok(v) ==> v.len() == 1,
        classify_transaction(tx, me) is Err ==> (!all_resolvable(tx.changes.unwrap())
            || classify_transaction(tx, me) == Err::<Seq<HistoryView>, HistoryError>(
                HistoryError::ReceiverNotCredited,
            )),
{
}

/// When the stake or a swap shape matches but its search finds nothing to
/// report, no later rule fits that shape either, and the transaction is
/// reported by the fallback.
pub proof fn lemma_unmatched_shape_falls_back(c: Seq<BalanceChangeView>, me: Seq<char>, m: TxMeta)
    requires
        ({
            let a = address_list(c).len();
            let i = in_currencies(c, me).len();
            let o = out_currencies(c, me).len();
            (a == 1 && i == 0 && o >= 1 && staked_rule(c, m) is None)
                || (a == 2 && i == 1 && o == 2 && commission_swap_rule(c, me, m) is None)
                || (a == 1 && i == 1 && o == 2 && token_swap_rule(c, m) is None)
        }),
    ensures
        shape_outcome(c, me, m) == Ok::<_, HistoryError>(complex_rule(c, me, m)),
{
}

/// Coin name resolution is total on identifiers with at least three `::`
/// segments, and depends on the identifier alone.
pub proof fn lemma_resolution_total(raw: Seq<char>, other: Seq<char>)
    requires
        coin_segments(raw).len() >= 3,
    ensures
        currency_name(raw) is Some,
        raw == other ==> currency_name(other) == currency_name(raw),
{
}

/// Both spellings of the native coin type resolve to the native name.
pub proof fn lemma_native_identifiers()
    ensures
        currency_name("0x2::sui::SUI"@) == Some(native_currency()),
        currency_name(
            "0x0000000000000000000000000000000000000000000000000000000000000002::sui::SUI"@,
        ) == Some(native_currency()),
{
}

/// A walk whose first page is empty ends at once with no events.
pub proof fn lemma_empty_first_page(me: Seq<char>)
    ensures
        after_page(walk_start(me), Seq::<ObjectSummaryView>::empty()).finished,
        after_page(walk_start(me), Seq::<ObjectSummaryView>::empty()).history == Seq::<
            HistoryView,
        >::empty(),
{
}

/// A page that cannot be fetched ends the walk with exactly the events found
/// on the pages before it.
pub proof fn lemma_failed_page_keeps_history(w: WalkView)
    ensures
        after_failure(w).finished,
        after_failure(w).history == w.history,
        after_failure(w).cursor == w.cursor,
{
}

/// Every walk starts at the beginning, whatever walk came before it.
pub proof fn lemma_fresh_start(me: Seq<char>)
    ensures
        walk_start(me).cursor is None,
        !walk_start(me).finished,
        walk_start(me).history.len() == 0,
{
}

} // verus!
