//! A verified client-side core for the SAM v3 bridge of I2P routers: the
//! commands a client writes, how replies are read, the order a
//! conversation may take, keys and key files, session options, and the
//! helpers of the transfer test bed (payload, reseed naming, network
//! layout).  Sockets, files and processes are left to the caller.
pub mod text;
pub mod proto;
pub mod error;
pub mod session;
pub mod direct;
pub mod options;
pub mod digest;
pub mod payload;
pub mod reseed;
pub mod topology;
pub mod harness;
pub mod compat;
pub mod messages;
pub mod datagram;

pub use error::SamError;
pub use options::{RawSessionOptions, SessionOptions, StreamConnectOptions};
pub use session::{
    Destination, Keys, PrivateKey, SamClient, StreamListener, DEFAULT_SIGNATURE_TYPE,
    SAM_TUNNEL_OPTIONS,
};
