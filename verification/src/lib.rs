//! Circular Fast transaction exporter.
//!
//! Streams BAM sigverify-verified transactions to Circular Fast without ever
//! blocking the validator's transaction pipeline. The BAM receive path hands
//! verified packet batches to a bounded queue via `try_send`; the exporter
//! submits them over unary gRPC `SendTransaction` calls. When the queue is
//! full or the consumer is unavailable, events are dropped and counted: the
//! validator never waits on the exporter.
//!
//! - [`sender`] is the hook: it offers batches to the queue ([`queue`]) and
//!   counts what became of them ([`metrics`]), for itself and in the counters
//!   that all parts share ([`shared`]). [`handles`] states what holds of all
//!   senders together.
//! - [`exporter`] is the other end: it takes items ([`event`], [`packets`]) and
//!   submits them ([`service`]) within the in-flight budget ([`in_flight`]).
//! - [`receiver`] is a stand-in for the Fast endpoint, and [`cli`] and
//!   [`tools`] are the command lines and payloads of the test tools.
//!
//! Each part is driven by events and answers with what is to be done, so that
//! sockets, threads and timers stay outside.
pub mod api_key;
pub mod cli;
pub mod clock;
pub mod codec;
pub mod config;
pub mod event;
pub mod exporter;
pub mod handles;
pub mod in_flight;
pub mod metrics;
pub mod packets;
pub mod proto;
pub mod queue;
pub mod receiver;
pub mod sender;
pub mod service;
pub mod shared;
pub mod text;
pub mod tools;
pub mod transactions;

pub use clock::unix_nanos_now;
pub use config::CircularExportConfig;
pub use event::{
    ExportItem, SharedVerifiedBatch, TransactionSource, VerifiedPacket, VerifiedPacketBatch,
    build_owned_batch,
};
pub use sender::{CircularExportSender, HookMode};
