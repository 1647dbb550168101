//! Batch file-renaming engine with a verified core.
//!
//! The [`engine`] module holds the domain logic: a [`engine::RenameEngine`]
//! owns a snapshot of a directory's entries, a cursor into that snapshot, and
//! a truncation parameter, and is driven one entry at a time by an external
//! scheduler.  The engine performs no I/O itself: the driver lists the
//! directory, hands the listing in as plain values, and carries out the
//! rename requests that each step returns.
//!
//! The [`theme`] module states the dark widget theme as plain data, with each
//! color given by its 8-bit channels; a UI layer converts these records into
//! whatever color type its toolkit uses.

pub mod engine;
pub mod theme;
