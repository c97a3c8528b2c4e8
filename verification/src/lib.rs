//! Confirmation-gated process launching: the command line that is handed to the
//! operating system, and the decisions taken between the dialogs and the
//! system calls.

pub mod flow;
pub mod messages;
pub mod quoting;
pub mod text;
