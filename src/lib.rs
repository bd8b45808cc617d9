//! Receive-path fault classification for a secure multiplexed transport:
//! which anomalies end a connection, what the peer is told when one does,
//! and the coarse categories offered to callers that know no protocol.
//! Also the registry that binds each encryption level to its own key types.

pub mod adapter;
pub mod close;
pub mod fault;
pub mod keys;
pub mod schedule;
pub mod suite;

pub use adapter::{ErrorKind, GenericError};
pub use close::{CloseCategory, ConnectionClose};
pub use fault::{AppErrorCode, BufferError, Error, ReplaySignal, TransportFeatures};
pub use keys::PacketKey;
pub use suite::{CryptoSuite, HandshakeKey, InitialKey, OneRttKey, RetryKey, Suite, ZeroRttKey};
pub use schedule::{EncryptionLevel, SecretPair};
