use vstd::prelude::*;

use crate::changes::{dedup, push_unique, views};

verus! {

/// One Move call of a transaction.
#[derive(Debug, Clone, PartialEq, Eq)]
pub struct MoveCall {
    pub module: String,
    pub function: String,
}

/// What the gas and call queries read of a transaction: the gas payer (absent
/// when the ledger returned no transaction data) and the Move calls.
#[derive(Debug, Clone, PartialEq, Eq)]
pub struct TransactionBlock {
    pub gas_owner: Option<String>,
    pub move_calls: Vec<MoveCall>,
}

/// `(module, function)` of each call, in order.
pub open spec fn call_views(v: Seq<MoveCall>) -> Seq<(Seq<char>, Seq<char>)> {
    v.map_values(|m: MoveCall| (m.module@, m.function@))
}

/// The module (`modules`) or the function of each call whose module name is
/// not empty, in order.
pub open spec fn named_calls(calls: Seq<(Seq<char>, Seq<char>)>, modules: bool) -> Seq<Seq<char>>
    decreases calls.len(),
{
    if calls.len() == 0 {
        Seq::empty()
    } else {
        let p = named_calls(calls.drop_last(), modules);
        let c = calls.last();
        if c.0.len() == 0 {
            p
        } else {
            p.push(if modules { c.0 } else { c.1 })
        }
    }
}

/// Queries over the Move calls and gas data of a transaction.
pub trait SuiTransactionFuncExtension {
    /// The gas payer's address, when known.
    spec fn payer(&self) -> Option<Seq<char>>;

    /// The Move calls as `(module, function)`.
    spec fn calls(&self) -> Seq<(Seq<char>, Seq<char>)>;

    /// The address that paid gas; empty when unknown.
    fn who_paid_gas(&self) -> (r: String)
        ensures
            r@ == (match self.payer() {
                Some(p) => p,
                None => Seq::empty(),
            }),
    ;

    /// The distinct non-empty module names of the calls, in first-call order.
    fn get_module_list(&self) -> (r: Vec<String>)
        ensures
            views(r@) == dedup(named_calls(self.calls(), true)),
    ;

    /// The distinct function names of the calls that name a module, in
    /// first-call order.
    fn get_function_list(&self) -> (r: Vec<String>)
        ensures
            views(r@) == dedup(named_calls(self.calls(), false)),
    ;
}

fn collect_names(calls: &Vec<MoveCall>, modules: bool) -> (r: Vec<String>)
    ensures
        views(r@) == dedup(named_calls(call_views(calls@), modules)),
{
    let ghost cv = call_views(calls@);
    let mut out: Vec<String> = Vec::new();
    let mut i: usize = 0;
    while i < calls.len()
        invariant
            i <= calls@.len(),
            cv == call_views(calls@),
            views(out@) == dedup(named_calls(cv.take(i as int), modules)),
        decreases calls@.len() - i,
    {
        let ghost p = named_calls(cv.take(i as int), modules);
        proof {
            assert(cv.take(i + 1).drop_last() =~= cv.take(i as int));
            assert(cv.take(i + 1).last() == cv[i as int]);
        }
        let call = &calls[i];
        if call.module.as_str().unicode_len() > 0 {
            let name = if modules { call.module.clone() } else { call.function.clone() };
            assert(p.push(name@).drop_last() =~= p);
            push_unique(&mut out, name);
        }
        i = i + 1;
    }
    assert(cv.take(calls@.len() as int) =~= cv);
    out
}

impl SuiTransactionFuncExtension for TransactionBlock {
    open spec fn payer(&self) -> Option<Seq<char>> {
        match self.gas_owner {
            Some(p) => Some(p@),
            None => None,
        }
    }

    open spec fn calls(&self) -> Seq<(Seq<char>, Seq<char>)> {
        call_views(self.move_calls@)
    }

    fn who_paid_gas(&self) -> (r: String) {
        match &self.gas_owner {
            Some(p) => p.clone(),
            None => String::new(),
        }
    }

    fn get_module_list(&self) -> (r: Vec<String>) {
        collect_names(&self.move_calls, true)
    }

    fn get_function_list(&self) -> (r: Vec<String>) {
        collect_names(&self.move_calls, false)
    }
}

} // verus!
