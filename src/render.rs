use vstd::prelude::*;
use vstd::string::*;

use crate::changes::views;
use crate::currency::native_currency;
use crate::history::{AccountHistory, AccountPrintOption, HistoryView, history_views};
use crate::volume::{format_volume, sui_format_volume};

verus! {

pub open spec fn shows_received(o: AccountPrintOption) -> bool {
    o == AccountPrintOption::All || o == AccountPrintOption::Receive
}

pub open spec fn shows_sent(o: AccountPrintOption) -> bool {
    o == AccountPrintOption::All || o == AccountPrintOption::Send
}

/// `"<prefix><volume> <currency> => <receiver>"`.
pub open spec fn transfer_line(prefix: Seq<char>, volume: u128, currency: Seq<char>, receiver: Seq<char>) -> Seq<char> {
    prefix + format_volume(volume as nat, currency) + " "@ + currency + " => "@ + receiver
}

/// The line an event renders to under `o`, if `o` shows it.  Received and
/// sent lines show the receiver, stake lines volume and currency, swap lines
/// what was given up and then what was gained, the fallback the digest.
pub open spec fn line_of(e: HistoryView, o: AccountPrintOption) -> Option<Seq<char>> {
    match e {
        HistoryView::ReceiveCoin(d) => if shows_received(o) {
            Some(transfer_line("Received "@, d.volume, native_currency(), d.receiver))
        } else {
            None
        },
        HistoryView::SentCoin(d) => if shows_sent(o) {
            Some(transfer_line("Sent To "@, d.volume, native_currency(), d.receiver))
        } else {
            None
        },
        HistoryView::ReceiveToken(d) => if shows_received(o) {
            Some(transfer_line("Received "@, d.volume, d.currency, d.receiver))
        } else {
            None
        },
        HistoryView::SentToken(d) => if shows_sent(o) {
            Some(transfer_line("Sent To "@, d.volume, d.currency, d.receiver))
        } else {
            None
        },
        HistoryView::Stake(d) => if o == AccountPrintOption::All {
            Some("Staked "@ + format_volume(d.volume as nat, d.currency) + " "@ + d.currency)
        } else {
            None
        },
        HistoryView::Swap(d) => if o == AccountPrintOption::All {
            Some(
                "Swap : "@ + format_volume(d.output_volume as nat, d.output_currency) + " "@
                    + d.output_currency + " >> "@ + format_volume(d.input_volume as nat, d.input_currency)
                    + " "@ + d.input_currency,
            )
        } else {
            None
        },
        HistoryView::ComplexTransaction(d) => if o == AccountPrintOption::All {
            Some("Complex Tx Digest : "@ + d.digest)
        } else {
            None
        },
    }
}

/// The lines of the events that `o` shows, in order.
pub open spec fn rendered(s: Seq<HistoryView>, o: AccountPrintOption) -> Seq<Seq<char>>
    decreases s.len(),
{
    if s.len() == 0 {
        Seq::empty()
    } else {
        let p = rendered(s.drop_last(), o);
        match line_of(s.last(), o) {
            Some(l) => p.push(l),
            None => p,
        }
    }
}

/// Text rendering of an account history.
pub trait AccountHistoryExtension {
    /// The events as plain values.
    spec fn events(&self) -> Seq<HistoryView>;

    /// One line per event that `options` shows, in order.
    fn print_lines(&self, options: AccountPrintOption) -> (r: Vec<String>)
        ensures
            views(r@) == rendered(self.events(), options),
    ;
}

fn transfer_text(prefix: &str, volume: u128, currency: &String, receiver: &String) -> (r: String)
    ensures
        r@ == transfer_line(prefix@, volume, currency@, receiver@),
{
    let mut out = String::from_str(prefix);
    out.append(sui_format_volume(volume, currency.clone()).as_str());
    out.append(" ");
    out.append(currency.as_str());
    out.append(" => ");
    out.append(receiver.as_str());
    assert(out@ =~= transfer_line(prefix@, volume, currency@, receiver@));
    out
}

fn line_text(e: &AccountHistory, o: AccountPrintOption) -> (r: Option<String>)
    ensures
        match r {
            Some(l) => line_of(e@, o) == Some(l@),
            None => line_of(e@, o) is None,
        },
{
    let native = String::from_str("sui::SUI");
    let received = o == AccountPrintOption::All || o == AccountPrintOption::Receive;
    let sent = o == AccountPrintOption::All || o == AccountPrintOption::Send;
    let all = o == AccountPrintOption::All;
    match e {
        AccountHistory::ReceiveCoin(d) => if received {
            Some(transfer_text("Received ", d.volume, &native, &d.receiver))
        } else {
            None
        },
        AccountHistory::SentCoin(d) => if sent {
            Some(transfer_text("Sent To ", d.volume, &native, &d.receiver))
        } else {
            None
        },
        AccountHistory::ReceiveToken(d) => if received {
            Some(transfer_text("Received ", d.volume, &d.currency, &d.receiver))
        } else {
            None
        },
        AccountHistory::SentToken(d) => if sent {
            Some(transfer_text("Sent To ", d.volume, &d.currency, &d.receiver))
        } else {
            None
        },
        AccountHistory::Stake(d) => if all {
            let mut out = String::from_str("Staked ");
            out.append(sui_format_volume(d.volume, d.currency.clone()).as_str());
            out.append(" ");
            out.append(d.currency.as_str());
            assert(out@ =~= "Staked "@ + format_volume(d.volume as nat, d.currency@) + " "@ + d.currency@);
            Some(out)
        } else {
            None
        },
        AccountHistory::Swap(d) => if all {
            let mut out = String::from_str("Swap : ");
            out.append(sui_format_volume(d.output_volume, d.output_currency.clone()).as_str());
            out.append(" ");
            out.append(d.output_currency.as_str());
            out.append(" >> ");
            out.append(sui_format_volume(d.input_volume, d.input_currency.clone()).as_str());
            out.append(" ");
            out.append(d.input_currency.as_str());
            assert(out@ =~= "Swap : "@ + format_volume(d.output_volume as nat, d.output_currency@)
                + " "@ + d.output_currency@ + " >> "@ + format_volume(
                d.input_volume as nat,
                d.input_currency@,
            ) + " "@ + d.input_currency@);
            Some(out)
        } else {
            None
        },
        AccountHistory::ComplexTransaction(d) => if all {
            let mut out = String::from_str("Complex Tx Digest : ");
            out.append(d.digest.as_str());
            Some(out)
        } else {
            None
        },
    }
}

impl AccountHistoryExtension for Vec<AccountHistory> {
    open spec fn events(&self) -> Seq<HistoryView> {
        history_views(self@)
    }

    fn print_lines(&self, options: AccountPrintOption) -> (r: Vec<String>) {
        let ghost ev = history_views(self@);
        let mut out: Vec<String> = Vec::new();
        let mut i: usize = 0;
        while i < self.len()
            invariant
                i <= self@.len(),
                ev == history_views(self@),
                views(out@) == rendered(ev.take(i as int), options),
            decreases self@.len() - i,
        {
            proof {
                assert(ev.take(i + 1).drop_last() =~= ev.take(i as int));
                assert(ev.take(i + 1).last() == self@[i as int]@);
            }
            match line_text(&self[i], options) {
                Some(l) => {
                    let ghost before = out@;
                    out.push(l);
                    assert(views(out@) =~= views(before).push(out@[before.len() as int]@));
                },
                None => {},
            }
            i = i + 1;
        }
        assert(ev.take(self@.len() as int) =~= ev);
        out
    }
}

} // verus!
