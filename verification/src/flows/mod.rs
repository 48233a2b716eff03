//! The bot's procedures as state machines. A host program performs each
//! action a machine asks for and answers with the event it observed; the
//! machines decide everything else.

pub mod common;
pub mod request;
pub mod lobby;
pub mod launch;
pub mod fee;
pub mod deposit;
pub mod handover;
pub mod items;
pub mod gold;
