use vstd::prelude::*;

verus! {

/// What a run does with the topic.
#[derive(Debug, Clone, Copy, PartialEq, Eq, Structural)]
pub enum Mode {
    Consume,
    Produce,
    Describe,
}

/// How the key or the value of each message is decoded.
#[derive(Debug, Clone, Copy, PartialEq, Eq, Structural)]
pub enum Deserializer {
    String,
    Avro,
}

/// The settings a run receives from the command line.
#[derive(Debug)]
pub struct Config {
    pub mode: Mode,
    pub brokers: String,
    pub topic: String,
    pub key_deserializer: Deserializer,
    pub value_deserializer: Deserializer,
    pub registry_url: String,
}

} // verus!
