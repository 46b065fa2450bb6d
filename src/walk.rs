use vstd::prelude::*;

use crate::classify::{TransactionContext, TransactionContextView, classify_transaction, organize_balance_list};
use crate::error::HistoryError;
use crate::history::{AccountHistory, HistoryView, history_views};

verus! {

/// Objects asked for per page.
pub const PAGE_LIMIT: usize = 20;

/// An object owned by the wallet, as one page of the listing reports it.
#[derive(Debug, Clone, PartialEq, Eq)]
pub struct ObjectSummary {
    pub object_id: String,
    pub version: u64,
}

pub struct ObjectSummaryView {
    pub object_id: Seq<char>,
    pub version: u64,
}

impl View for ObjectSummary {
    type V = ObjectSummaryView;

    open spec fn view(&self) -> ObjectSummaryView {
        ObjectSummaryView { object_id: self.object_id@, version: self.version }
    }
}

/// The decisions of one walk over a wallet's objects.  The caller fetches a
/// page at `next_cursor`, hands it to `page_arrived` (or reports
/// `page_failed`), resolves each object's previous transaction and hands it
/// to `transaction_arrived`, until `is_finished`.
pub struct WalletHistoryWalk {
    my_address: String,
    cursor: Option<String>,
    finished: bool,
    history: Vec<AccountHistory>,
}

/// A walk as plain values.
pub struct WalkView {
    pub my_address: Seq<char>,
    pub cursor: Option<Seq<char>>,
    pub finished: bool,
    pub history: Seq<HistoryView>,
}

impl View for WalletHistoryWalk {
    type V = WalkView;

    closed spec fn view(&self) -> WalkView {
        WalkView {
            my_address: self.my_address@,
            cursor: match self.cursor {
                Some(c) => Some(c@),
                None => None,
            },
            finished: self.finished,
            history: history_views(self.history@),
        }
    }
}

/// A fresh walk: no cursor, nothing found.
pub open spec fn walk_start(my_address: Seq<char>) -> WalkView {
    WalkView { my_address, cursor: None, finished: false, history: Seq::empty() }
}

/// A page arrived: an empty page ends the walk; otherwise the cursor moves to
/// the page's last object.
pub open spec fn after_page(w: WalkView, page: Seq<ObjectSummaryView>) -> WalkView {
    if page.len() == 0 {
        WalkView { finished: true, ..w }
    } else {
        WalkView { cursor: Some(page.last().object_id), ..w }
    }
}

/// A page could not be fetched: the walk ends with what it has.
pub open spec fn after_failure(w: WalkView) -> WalkView {
    WalkView { finished: true, ..w }
}

/// A previous transaction arrived: one that executed successfully is
/// classified and its events appended; anything else leaves the walk as it is.
pub open spec fn after_transaction(w: WalkView, tx: TransactionContextView, executed: Option<bool>) -> WalkView {
    if executed == Some(true) {
        match classify_transaction(tx, w.my_address) {
            Ok(v) => WalkView { history: w.history + v, ..w },
            Err(_) => w,
        }
    } else {
        w
    }
}

impl WalletHistoryWalk {
    /// Starts a walk for `my_address` at the beginning of its objects.
    pub fn new(my_address: String) -> (r: WalletHistoryWalk)
        ensures
            r@ == walk_start(my_address@),
    {
        let r = WalletHistoryWalk { my_address, cursor: None, finished: false, history: Vec::new() };
        assert(r@.history =~= Seq::<HistoryView>::empty());
        r
    }

    /// Where the next page starts; `None` for the first page.
    pub fn next_cursor(&self) -> (r: Option<String>)
        ensures
            match r {
                Some(c) => self@.cursor == Some(c@),
                None => self@.cursor is None,
            },
    {
        match &self.cursor {
            Some(c) => Some(c.clone()),
            None => None,
        }
    }

    /// Whether the walk has ended.
    pub fn is_finished(&self) -> (r: bool)
        ensures
            r == self@.finished,
    {
        self.finished
    }

    /// The events found so far, in discovery order.
    pub fn history(&self) -> (r: &Vec<AccountHistory>)
        ensures
            history_views(r@) == self@.history,
    {
        &self.history
    }

    /// Ends the walk and hands over the events found, in discovery order.
    pub fn into_history(self) -> (r: Vec<AccountHistory>)
        ensures
            history_views(r@) == self@.history,
    {
        self.history
    }

    /// Takes in one page of the wallet's objects.
    pub fn page_arrived(&mut self, page: &Vec<ObjectSummary>)
        ensures
            final(self)@ == after_page(old(self)@, page@.map_values(|o: ObjectSummary| o@)),
    {
        let ghost pv = page@.map_values(|o: ObjectSummary| o@);
        if page.len() == 0 {
            self.finished = true;
        } else {
            let last = page.len() - 1;
            assert(pv.last() == page@[last as int]@);
            self.cursor = Some(page[last].object_id.clone());
        }
    }

    /// Records that a page could not be fetched: the walk ends, keeping the
    /// events found so far.
    pub fn page_failed(&mut self)
        ensures
            final(self)@ == after_failure(old(self)@),
    {
        self.finished = true;
    }

    /// Takes in an object's previous transaction and whether it executed
    /// successfully (`None` when the ledger did not say).  Returns how many
    /// events were appended, or the error that kept the transaction out.
    pub fn transaction_arrived(&mut self, tx: TransactionContext, executed: Option<bool>) -> (r: Result<
        usize,
        HistoryError,
    >)
        ensures
            final(self)@ == after_transaction(old(self)@, tx@, executed),
            r matches Ok(n) ==> final(self)@.history.len() == old(self)@.history.len() + n,
            r is Err <==> executed == Some(true) && classify_transaction(tx@, old(self)@.my_address) is Err,
    {
        let ok = match executed {
            Some(b) => b,
            None => false,
        };
        if !ok {
            return Ok(0);
        }
        match organize_balance_list(tx, self.my_address.clone()) {
            Ok(events) => {
                let n = events.len();
                let ghost ev = history_views(events@);
                let ghost before = self.history@;
                let mut events = events;
                self.history.append(&mut events);
                assert(history_views(self.history@) =~= history_views(before) + ev);
                Ok(n)
            },
            Err(e) => Err(e),
        }
    }
}

} // verus!
