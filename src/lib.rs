//! Account history reconstruction for an object-model ledger: coin names,
//! fixed-point volume text, balance-change queries, transaction
//! classification and the paging walk over a wallet's objects.

mod changes;
mod classify;
mod currency;
mod error;
mod history;
pub mod laws;
mod render;
mod transaction;
mod volume;
mod walk;

pub use changes::{BalanceChange, SuiWalletFuncExtension};
pub use classify::{organize_balance_list, TransactionContext};
pub use currency::sui_get_currency_name;
pub use error::HistoryError;
pub use history::{
    AccountHistory, AccountPrintOption, CoinDetail, ComplexTransactionDetails, ReceiveTokenDetails,
    SentTokenDetails, StakeDetail, SwapDetails,
};
pub use render::AccountHistoryExtension;
pub use transaction::{MoveCall, SuiTransactionFuncExtension, TransactionBlock};
pub use volume::sui_format_volume;
pub use walk::{ObjectSummary, WalletHistoryWalk, PAGE_LIMIT};
