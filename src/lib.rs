//! Typed access to hledger's JSON reports, and the command lines that ask for them.
//!
//! Each report kind has an options type, a function that turns options into
//! hledger's argument list, and a function that reads hledger's output into
//! the report's types. Running the process is left to the caller; the
//! `invocation` module says what its outcome means.

pub mod accounts;
pub mod amount;
pub mod args;
pub mod balance;
pub mod cashflow;
pub mod error;
pub mod invocation;
pub mod json;
pub mod periodic;
pub mod print;
pub mod quantity;
pub mod statement;

pub use accounts::{accounts_args, parse_accounts_output, AccountsOptions};
pub use amount::{Amount, Price};
pub use balance::{
    balance_args, parse_balance, BalanceAccount, BalanceOptions, BalanceReport, SimpleBalance,
};
pub use cashflow::{cashflow_args, parse_cashflow, CashflowOptions, CashflowReport, CashflowSubreport};
pub use error::HLedgerError;
pub use invocation::{command_output, hledger_binary, launch_error};
pub use periodic::{PeriodDate, PeriodicBalance, PeriodicBalanceRow};
pub use print::{
    parse_print, print_args, AmountStyle, BalanceAssertion, PrintAmount, PrintOptions, PrintPosting,
    PrintReport, PrintTransaction, SourcePosition,
};
pub use quantity::Quantity;
pub use statement::{
    balancesheet_args, incomestatement_args, parse_balancesheet, parse_incomestatement,
    BalanceSheetOptions, BalanceSheetReport, BalanceSheetSubreport, IncomeStatementOptions,
    IncomeStatementReport, IncomeStatementSubreport,
};

use vstd::prelude::*;

verus! {

/// What a request for a report returns.
pub type Result<T> = std::result::Result<T, HLedgerError>;

} // verus!
