//! Verified core of the DNS upstream transports: typed request and error
//! vocabulary, the owner lifecycle gate, the exchange control decisions, the
//! bootstrap resolver's publication state, and the connection-reuse models.

pub mod error;
pub mod exchange;
pub mod control;
pub mod lifecycle;
pub mod addr;
pub mod upstream;
pub mod resolver;
pub mod identity;
pub mod quic;
pub mod doh3;
pub mod quic_reuse;
pub mod reuse;
pub mod composite;
