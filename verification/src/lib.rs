//! An editor core for CAN databases: an immutable parsed document under
//! sparse override tables, a closed set of reversible edit operations, and a
//! generic history engine with a cursor that applies, undoes and redoes them.

pub mod dbc;
pub mod dbc_import;
pub mod edit_history;
pub mod edit_history_integration;
pub mod numfmt;
pub mod omap;
pub mod parse;
pub mod text;
pub mod ui;
