//! The footer shown under the composer of a terminal chat client: which
//! footer mode is active, and the styled lines that each mode displays.
//!
//! The lines are built as plain styled text ([`text::FooterLine`]); turning
//! them into terminal widgets is left to the caller.
pub mod text;
pub mod keys;
pub mod mode;
pub mod shortcuts;
pub mod footer;
