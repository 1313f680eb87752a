//! Arguments mixing envelope ids and flags.
pub mod ids_and_flags;
