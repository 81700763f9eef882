//! The filament characterisation application's bookkeeping: the tree of
//! steps the procedure emits, how it's laid out as lines of text, and the
//! scroll position of the list.
pub mod steps;
pub mod layout;
pub mod ui;
pub mod run;
pub mod hardware;
