//! The SAM text protocol: the commands a client writes, the replies it
//! reads, and the order in which a conversation may go.
pub mod fields;
pub mod command;
pub mod response;
pub mod state;
