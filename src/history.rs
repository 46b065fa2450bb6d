use vstd::prelude::*;

use crate::changes::{BalanceChange, BalanceChangeView, change_views, views};

verus! {

/// A transaction that moved value into a staked position.
#[derive(Debug, Clone, Eq, PartialEq)]
pub struct StakeDetail {
    pub digest: String,
    pub time: u128,
    pub block_no: u128,
    pub currency: String,
    pub volume: u128,
    pub formated_volume: String,
}

/// A transaction that no rule could name.
#[derive(Debug, Clone, Eq, PartialEq)]
pub struct ComplexTransactionDetails {
    pub digest: String,
    pub time: u128,
    pub block_no: u128,
    pub get_in_currency: Vec<String>,
    pub go_out_currency: Vec<String>,
    pub address_list: Vec<String>,
    pub currency_list: Vec<String>,
    pub balance_list: Vec<BalanceChange>,
}

/// A native coin received or sent.
#[derive(Debug, Clone, Eq, PartialEq, PartialOrd, Ord)]
pub struct CoinDetail {
    pub digest: String,
    pub time: u128,
    pub block_no: u128,
    pub sender: String,
    pub receiver: String,
    pub currency: String,
    pub volume: u128,
    pub formated_volume: String,
}

/// A token received.
#[derive(Debug, Clone, Eq, PartialEq, PartialOrd, Ord)]
pub struct ReceiveTokenDetails {
    pub digest: String,
    pub time: u128,
    pub block_no: u128,
    pub sender: String,
    pub receiver: String,
    pub currency: String,
    pub volume: u128,
    pub formated_volume: String,
}

/// A token sent, with the gas paid for it.
#[derive(Debug, Clone, Eq, PartialEq, PartialOrd, Ord)]
pub struct SentTokenDetails {
    pub digest: String,
    pub time: u128,
    pub block_no: u128,
    pub sender: String,
    pub receiver: String,
    pub currency: String,
    pub volume: u128,
    pub formated_volume: String,
    pub gas: u128,
    pub formated_gas: String,
}

/// One currency given up for another, with an optional commission.
#[derive(Debug, Clone, Eq, PartialEq, PartialOrd, Ord)]
pub struct SwapDetails {
    pub digest: String,
    pub time: u128,
    pub block_no: u128,
    pub input_currency: String,
    pub output_currency: String,
    pub input_volume: u128,
    pub output_volume: u128,
    pub input_formated_volume: String,
    pub output_formated_volume: String,
    pub gas: u128,
    pub formated_gas: String,
    pub commision_status: bool,
    pub commision_account: String,
    pub commision_volume: u128,
    pub formatted_commision: String,
}

/// One event of an account's history.
#[derive(Debug, Clone, Eq, PartialEq)]
pub enum AccountHistory {
    ReceiveCoin(CoinDetail),
    SentCoin(CoinDetail),
    ReceiveToken(ReceiveTokenDetails),
    SentToken(SentTokenDetails),
    Stake(StakeDetail),
    Swap(SwapDetails),
    ComplexTransaction(ComplexTransactionDetails),
}

/// Which events a rendering shows.
#[derive(Debug, Clone, Copy, Eq, PartialEq, Structural)]
pub enum AccountPrintOption {
    All,
    Receive,
    Send,
}

pub struct StakeView {
    pub digest: Seq<char>,
    pub time: u128,
    pub block_no: u128,
    pub currency: Seq<char>,
    pub volume: u128,
    pub formated_volume: Seq<char>,
}

pub struct ComplexView {
    pub digest: Seq<char>,
    pub time: u128,
    pub block_no: u128,
    pub get_in_currency: Seq<Seq<char>>,
    pub go_out_currency: Seq<Seq<char>>,
    pub address_list: Seq<Seq<char>>,
    pub currency_list: Seq<Seq<char>>,
    pub balance_list: Seq<BalanceChangeView>,
}

/// The plain values of a coin or token transfer.
pub struct TransferView {
    pub digest: Seq<char>,
    pub time: u128,
    pub block_no: u128,
    pub sender: Seq<char>,
    pub receiver: Seq<char>,
    pub currency: Seq<char>,
    pub volume: u128,
    pub formated_volume: Seq<char>,
}

pub struct SentTokenView {
    pub digest: Seq<char>,
    pub time: u128,
    pub block_no: u128,
    pub sender: Seq<char>,
    pub receiver: Seq<char>,
    pub currency: Seq<char>,
    pub volume: u128,
    pub formated_volume: Seq<char>,
    pub gas: u128,
    pub formated_gas: Seq<char>,
}

pub struct SwapView {
    pub digest: Seq<char>,
    pub time: u128,
    pub block_no: u128,
    pub input_currency: Seq<char>,
    pub output_currency: Seq<char>,
    pub input_volume: u128,
    pub output_volume: u128,
    pub input_formated_volume: Seq<char>,
    pub output_formated_volume: Seq<char>,
    pub gas: u128,
    pub formated_gas: Seq<char>,
    pub commision_status: bool,
    pub commision_account: Seq<char>,
    pub commision_volume: u128,
    pub formatted_commision: Seq<char>,
}

/// An event as plain values.
pub enum HistoryView {
    ReceiveCoin(TransferView),
    SentCoin(TransferView),
    ReceiveToken(TransferView),
    SentToken(SentTokenView),
    Stake(StakeView),
    Swap(SwapView),
    ComplexTransaction(ComplexView),
}

impl View for StakeDetail {
    type V = StakeView;

    open spec fn view(&self) -> StakeView {
        StakeView {
            digest: self.digest@,
            time: self.time,
            block_no: self.block_no,
            currency: self.currency@,
            volume: self.volume,
            formated_volume: self.formated_volume@,
        }
    }
}

impl View for ComplexTransactionDetails {
    type V = ComplexView;

    open spec fn view(&self) -> ComplexView {
        ComplexView {
            digest: self.digest@,
            time: self.time,
            block_no: self.block_no,
            get_in_currency: views(self.get_in_currency@),
            go_out_currency: views(self.go_out_currency@),
            address_list: views(self.address_list@),
            currency_list: views(self.currency_list@),
            balance_list: change_views(self.balance_list@),
        }
    }
}

impl View for CoinDetail {
    type V = TransferView;

    open spec fn view(&self) -> TransferView {
        TransferView {
            digest: self.digest@,
            time: self.time,
            block_no: self.block_no,
            sender: self.sender@,
            receiver: self.receiver@,
            currency: self.currency@,
            volume: self.volume,
            formated_volume: self.formated_volume@,
        }
    }
}

impl View for ReceiveTokenDetails {
    type V = TransferView;

    open spec fn view(&self) -> TransferView {
        TransferView {
            digest: self.digest@,
            time: self.time,
            block_no: self.block_no,
            sender: self.sender@,
            receiver: self.receiver@,
            currency: self.currency@,
            volume: self.volume,
            formated_volume: self.formated_volume@,
        }
    }
}

impl View for SentTokenDetails {
    type V = SentTokenView;

    open spec fn view(&self) -> SentTokenView {
        SentTokenView {
            digest: self.digest@,
            time: self.time,
            block_no: self.block_no,
            sender: self.sender@,
            receiver: self.receiver@,
            currency: self.currency@,
            volume: self.volume,
            formated_volume: self.formated_volume@,
            gas: self.gas,
            formated_gas: self.formated_gas@,
        }
    }
}

impl View for SwapDetails {
    type V = SwapView;

    open spec fn view(&self) -> SwapView {
        SwapView {
            digest: self.digest@,
            time: self.time,
            block_no: self.block_no,
            input_currency: self.input_currency@,
            output_currency: self.output_currency@,
            input_volume: self.input_volume,
            output_volume: self.output_volume,
            input_formated_volume: self.input_formated_volume@,
            output_formated_volume: self.output_formated_volume@,
            gas: self.gas,
            formated_gas: self.formated_gas@,
            commision_status: self.commision_status,
            commision_account: self.commision_account@,
            commision_volume: self.commision_volume,
            formatted_commision: self.formatted_commision@,
        }
    }
}

impl View for AccountHistory {
    type V = HistoryView;

    open spec fn view(&self) -> HistoryView {
        match self {
            AccountHistory::ReceiveCoin(d) => HistoryView::ReceiveCoin(d@),
            AccountHistory::SentCoin(d) => HistoryView::SentCoin(d@),
            AccountHistory::ReceiveToken(d) => HistoryView::ReceiveToken(d@),
            AccountHistory::SentToken(d) => HistoryView::SentToken(d@),
            AccountHistory::Stake(d) => HistoryView::Stake(d@),
            AccountHistory::Swap(d) => HistoryView::Swap(d@),
            AccountHistory::ComplexTransaction(d) => HistoryView::ComplexTransaction(d@),
        }
    }
}

/// The plain values of each event.
pub open spec fn history_views(v: Seq<AccountHistory>) -> Seq<HistoryView> {
    v.map_values(|e: AccountHistory| e@)
}

} // verus!
