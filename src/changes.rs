use vstd::prelude::*;
use vstd::string::*;

use crate::currency::{canonical, resolvable, sui_get_currency_name};

verus! {

/// One reported balance delta of a transaction: positive `amount` flows into
/// `owner`, negative flows out.
#[derive(Debug, Clone, PartialEq, Eq)]
pub struct BalanceChange {
    pub owner: String,
    pub coin_type: String,
    pub amount: i128,
}

/// A balance change as plain values.
pub struct BalanceChangeView {
    pub owner: Seq<char>,
    pub coin_type: Seq<char>,
    pub amount: i128,
}

impl View for BalanceChange {
    type V = BalanceChangeView;

    open spec fn view(&self) -> BalanceChangeView {
        BalanceChangeView { owner: self.owner@, coin_type: self.coin_type@, amount: self.amount }
    }
}

impl BalanceChange {
    /// A record of `amount` raw units of `coin_type` for `owner`.
    pub fn new(owner: String, coin_type: String, amount: i128) -> (r: BalanceChange)
        ensures
            r@ == (BalanceChangeView { owner: owner@, coin_type: coin_type@, amount }),
    {
        BalanceChange { owner, coin_type, amount }
    }

    /// A field-by-field copy.
    pub fn copied(&self) -> (r: BalanceChange)
        ensures
            r@ == self@,
    {
        BalanceChange { owner: self.owner.clone(), coin_type: self.coin_type.clone(), amount: self.amount }
    }
}

/// The text of each string.
pub open spec fn views(v: Seq<String>) -> Seq<Seq<char>> {
    v.map_values(|s: String| s@)
}

/// The plain values of each record.
pub open spec fn change_views(v: Seq<BalanceChange>) -> Seq<BalanceChangeView> {
    v.map_values(|b: BalanceChange| b@)
}

/// `s` without repeats, each kept where it first appears.
pub open spec fn dedup(s: Seq<Seq<char>>) -> Seq<Seq<char>>
    decreases s.len(),
{
    if s.len() == 0 {
        s
    } else {
        let d = dedup(s.drop_last());
        if d.contains(s.last()) {
            d
        } else {
            d.push(s.last())
        }
    }
}

/// Every coin type in the records resolves to a canonical name.
pub open spec fn all_resolvable(c: Seq<BalanceChangeView>) -> bool {
    forall|i: int| 0 <= i < c.len() ==> resolvable(#[trigger] c[i].coin_type)
}

/// Some record belongs to `me`.
pub open spec fn touches(c: Seq<BalanceChangeView>, me: Seq<char>) -> bool {
    exists|i: int| 0 <= i < c.len() && #[trigger] c[i].owner == me
}

/// The owners of the records, in order.
pub open spec fn owners(c: Seq<BalanceChangeView>) -> Seq<Seq<char>> {
    c.map_values(|r: BalanceChangeView| r.owner)
}

/// The canonical currency of each record, in order.
pub open spec fn currencies(c: Seq<BalanceChangeView>) -> Seq<Seq<char>> {
    c.map_values(|r: BalanceChangeView| canonical(r.coin_type))
}

/// The distinct owners.
pub open spec fn address_list(c: Seq<BalanceChangeView>) -> Seq<Seq<char>> {
    dedup(owners(c))
}

/// The distinct canonical currencies.
pub open spec fn currency_list(c: Seq<BalanceChangeView>) -> Seq<Seq<char>> {
    dedup(currencies(c))
}

/// The currency of each record of `me` whose amount is positive
/// (`credit`) or negative (`!credit`), in order.
pub open spec fn flows(c: Seq<BalanceChangeView>, me: Seq<char>, credit: bool) -> Seq<Seq<char>>
    decreases c.len(),
{
    if c.len() == 0 {
        Seq::empty()
    } else {
        let p = flows(c.drop_last(), me, credit);
        let r = c.last();
        if r.owner == me && (if credit { r.amount > 0 } else { r.amount < 0 }) {
            p.push(canonical(r.coin_type))
        } else {
            p
        }
    }
}

/// The distinct currencies that `me` received.
pub open spec fn in_currencies(c: Seq<BalanceChangeView>, me: Seq<char>) -> Seq<Seq<char>> {
    dedup(flows(c, me, true))
}

/// The distinct currencies that `me` sent.
pub open spec fn out_currencies(c: Seq<BalanceChangeView>, me: Seq<char>) -> Seq<Seq<char>> {
    dedup(flows(c, me, false))
}

/// The records of `me`, in order.
pub open spec fn mine(c: Seq<BalanceChangeView>, me: Seq<char>) -> Seq<BalanceChangeView> {
    c.filter(|r: BalanceChangeView| r.owner == me)
}

/// Appends `item` unless an equal string is already in `list`.
pub fn push_unique(list: &mut Vec<String>, item: String)
    ensures
        views(final(list)@) == (if views(old(list)@).contains(item@) {
            views(old(list)@)
        } else {
            views(old(list)@).push(item@)
        }),
{
    let mut i: usize = 0;
    while i < list.len()
        invariant
            i <= list@.len(),
            forall|k: int| 0 <= k < i ==> list@[k]@ != item@,
        decreases list@.len() - i,
    {
        if list[i] == item {
            assert(views(list@)[i as int] == item@);
            return;
        }
        i = i + 1;
    }
    assert(!views(list@).contains(item@)) by {
        if views(list@).contains(item@) {
            let k = choose|k: int| 0 <= k < views(list@).len() && views(list@)[k] == item@;
            assert(list@[k]@ == item@);
        }
    }
    let ghost before = list@;
    list.push(item);
    assert(views(list@) =~= views(before).push(item@));
}

/// The canonical name of a coin type known to resolve.
pub fn resolved_name(raw: &String) -> (r: String)
    requires
        resolvable(raw@),
    ensures
        r@ == canonical(raw@),
{
    match sui_get_currency_name(raw.clone()) {
        Ok(name) => name,
        Err(_) => {
            assert(false);
            String::new()
        },
    }
}

/// Queries over the balance changes of one transaction.
pub trait SuiWalletFuncExtension {
    /// The records as plain values.
    spec fn changes(&self) -> Seq<BalanceChangeView>;

    /// The distinct currencies that `my_wallet_addr` sent.
    fn which_currency_go_out_my_account(&self, my_wallet_addr: String) -> (r: Vec<String>)
        requires
            all_resolvable(self.changes()),
        ensures
            views(r@) == out_currencies(self.changes(), my_wallet_addr@),
    ;

    /// The distinct currencies that `my_wallet_addr` received.
    fn which_currency_get_in_my_account(&self, my_wallet_addr: String) -> (r: Vec<String>)
        requires
            all_resolvable(self.changes()),
        ensures
            views(r@) == in_currencies(self.changes(), my_wallet_addr@),
    ;

    /// The distinct canonical currencies of all records.
    fn get_currency_list(&self) -> (r: Vec<String>)
        requires
            all_resolvable(self.changes()),
        ensures
            views(r@) == currency_list(self.changes()),
    ;

    /// The distinct owners of all records.
    fn get_address_list(&self) -> (r: Vec<String>)
        ensures
            views(r@) == address_list(self.changes()),
    ;

    /// Whether some record belongs to `my_wallet_addr`.
    fn my_balanced_changed(&self, my_wallet_addr: String) -> (r: bool)
        ensures
            r == touches(self.changes(), my_wallet_addr@),
    ;

    /// A new list of the records of `my_wallet_addr`, in order; `self` is left as it is.
    fn remove_dont_belong_to_me(&self, my_wallet_addr: String) -> (r: Vec<BalanceChange>)
        ensures
            change_views(r@) == mine(self.changes(), my_wallet_addr@),
    ;
}

/// The currencies of `c` that `me` received (`credit`) or sent.
fn collect_flows(c: &Vec<BalanceChange>, me: &String, credit: bool) -> (r: Vec<String>)
    requires
        all_resolvable(change_views(c@)),
    ensures
        views(r@) == dedup(flows(change_views(c@), me@, credit)),
{
    let ghost cv = change_views(c@);
    let mut out: Vec<String> = Vec::new();
    let mut i: usize = 0;
    while i < c.len()
        invariant
            i <= c@.len(),
            cv == change_views(c@),
            all_resolvable(cv),
            views(out@) == dedup(flows(cv.take(i as int), me@, credit)),
        decreases c@.len() - i,
    {
        let r = &c[i];
        assert(cv.take(i + 1).drop_last() =~= cv.take(i as int));
        assert(cv[i as int] == r@);
        let hit = r.owner == *me && (if credit { r.amount > 0 } else { r.amount < 0 });
        let ghost p = flows(cv.take(i as int), me@, credit);
        assert(cv.take(i + 1).last() == cv[i as int]);
        if hit {
            assert(resolvable(cv[i as int].coin_type));
            let name = resolved_name(&r.coin_type);
            assert(flows(cv.take(i + 1), me@, credit) == p.push(name@));
            assert(p.push(name@).drop_last() =~= p);
            push_unique(&mut out, name);
        } else {
            assert(flows(cv.take(i + 1), me@, credit) == p);
        }
        i = i + 1;
    }
    assert(cv.take(c@.len() as int) =~= cv);
    out
}

impl SuiWalletFuncExtension for Vec<BalanceChange> {
    open spec fn changes(&self) -> Seq<BalanceChangeView> {
        change_views(self@)
    }

    fn which_currency_go_out_my_account(&self, my_wallet_addr: String) -> (r: Vec<String>) {
        collect_flows(self, &my_wallet_addr, false)
    }

    fn which_currency_get_in_my_account(&self, my_wallet_addr: String) -> (r: Vec<String>) {
        collect_flows(self, &my_wallet_addr, true)
    }

    fn get_currency_list(&self) -> (r: Vec<String>) {
        let ghost cv = change_views(self@);
        let mut out: Vec<String> = Vec::new();
        let mut i: usize = 0;
        while i < self.len()
            invariant
                i <= self@.len(),
                cv == change_views(self@),
                all_resolvable(cv),
                views(out@) == dedup(currencies(cv.take(i as int))),
            decreases self@.len() - i,
        {
            assert(currencies(cv.take(i + 1)).drop_last() =~= currencies(cv.take(i as int)));
            assert(cv[i as int] == self@[i as int]@);
            assert(resolvable(cv[i as int].coin_type));
            push_unique(&mut out, resolved_name(&self[i].coin_type));
            i = i + 1;
        }
        assert(cv.take(self@.len() as int) =~= cv);
        out
    }

    fn get_address_list(&self) -> (r: Vec<String>) {
        let ghost cv = change_views(self@);
        let mut out: Vec<String> = Vec::new();
        let mut i: usize = 0;
        while i < self.len()
            invariant
                i <= self@.len(),
                cv == change_views(self@),
                views(out@) == dedup(owners(cv.take(i as int))),
            decreases self@.len() - i,
        {
            assert(owners(cv.take(i + 1)).drop_last() =~= owners(cv.take(i as int)));
            assert(cv[i as int] == self@[i as int]@);
            push_unique(&mut out, self[i].owner.clone());
            i = i + 1;
        }
        assert(cv.take(self@.len() as int) =~= cv);
        out
    }

    fn my_balanced_changed(&self, my_wallet_addr: String) -> (r: bool) {
        let ghost cv = change_views(self@);
        let mut i: usize = 0;
        while i < self.len()
            invariant
                i <= self@.len(),
                cv == change_views(self@),
                forall|k: int| 0 <= k < i ==> cv[k].owner != my_wallet_addr@,
            decreases self@.len() - i,
        {
            if self[i].owner == my_wallet_addr {
                assert(cv[i as int].owner == my_wallet_addr@);
                return true;
            }
            i = i + 1;
        }
        false
    }

    fn remove_dont_belong_to_me(&self, my_wallet_addr: String) -> (r: Vec<BalanceChange>) {
        let ghost cv = change_views(self@);
        let ghost keep = |r: BalanceChangeView| r.owner == my_wallet_addr@;
        let mut out: Vec<BalanceChange> = Vec::new();
        let mut i: usize = 0;
        while i < self.len()
            invariant
                i <= self@.len(),
                cv == change_views(self@),
                keep == (|r: BalanceChangeView| r.owner == my_wallet_addr@),
                change_views(out@) == cv.take(i as int).filter(keep),
            decreases self@.len() - i,
        {
            proof {
                reveal(Seq::filter);
                assert(cv.take(i + 1).drop_last() =~= cv.take(i as int));
            }
            assert(cv[i as int] == self@[i as int]@);
            if self[i].owner == my_wallet_addr {
                let ghost before = out@;
                out.push(self[i].copied());
                assert(change_views(out@) =~= change_views(before).push(cv[i as int]));
            }
            i = i + 1;
        }
        assert(cv.take(self@.len() as int) =~= cv);
        out
    }
}

} // verus!
