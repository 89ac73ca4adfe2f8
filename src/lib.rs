//! A log relay core: the canonical record model, the read-only configuration
//! view, the GELF encoder, Cap'n Proto record decoding and its splitter's
//! steps, datagram decompression, and the Kafka output's settings.
pub mod record;
pub mod config;
pub mod gelf_encoder;
pub mod capnp_splitter;
pub mod udp_input;
pub mod kafka_output;
