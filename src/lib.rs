//! Formatting of keyboard-input events as aligned markdown tables, and the
//! bookkeeping that decides when a table row is printed, updated in place, or
//! when a new table begins.
pub mod html;
pub mod keyed;
pub mod keys;
pub mod line;
pub mod printer;
pub mod session;
pub mod table;
pub mod text;
