//! Pre-trade risk bookkeeping: account blocking, account groups, currencies,
//! reference data and mutation finalizers.
pub mod param;
pub mod pretrade;
pub mod request_trait;
pub mod mutation;
pub mod account_groups;
pub mod account_control;
pub mod accounts;
pub mod text;
pub mod instrument_id;
pub mod reference_book;
pub mod marketdata;
pub mod decimal;
pub mod account_outcome;
pub mod order;
pub mod execution_report;
pub mod account_adjustment;
pub mod account_adjustment_operation;
pub mod engine;
pub mod account_adjustment_context;
pub mod shared_name_readers;
pub mod pipeline;
pub mod configure;
pub mod pre_trade_engine;
