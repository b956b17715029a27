//! Bounded Kafka topic inspection: schema-registry wire decoding, a schema
//! cache with asymmetric retention, the Avro-to-JSON structural mapping and
//! the coordinator that decides when every partition has been drained.

pub mod avro;
pub mod coordinator;
pub mod config;
pub mod decoder;
pub mod deserializers;
pub mod error;
pub mod kafka;
pub mod registry;
pub mod wire;
