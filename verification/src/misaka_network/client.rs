//! Streams, subjects and consumers of the network of signals.

use vstd::prelude::*;
use vstd::string::StringExecFns;
use crate::common::text::{push_signed_decimal, signed_decimal};

verus! {

/// The limits of a stream.
#[derive(Debug, Clone, Copy, PartialEq, Eq, Structural)]
pub struct TelepathConfig {
    /// The seconds after which a signal leaves the stream.
    pub ttl_seconds: u64,
    /// The most signals that the stream keeps.
    pub max_msgs: i64,
    /// The most bytes that the stream keeps; -1 for no limit.
    pub max_bytes: i64,
}

impl Default for TelepathConfig {
    fn default() -> (config: TelepathConfig)
        ensures
            config.ttl_seconds == 300,
            config.max_msgs == 10_000,
            config.max_bytes == -1,
    {
        TelepathConfig { ttl_seconds: 300, max_msgs: 10_000, max_bytes: -1 }
    }
}

/// How a consumer confirms the signals that it takes.
#[derive(Debug, Clone, Copy, PartialEq, Eq, Structural)]
pub enum AckPolicy {
    Explicit,
    /// No signal is confirmed.
    NoAck,
    All,
}

/// A signal, as it travels on the network.
#[derive(Debug, Clone, PartialEq, Eq)]
pub struct MisakaSignal {
    pub timestamp_seconds: i64,
    pub timestamp_nanos: i32,
    pub uuid: String,
    /// The signal that this one answers; empty where it answers none.
    pub parent_uuid: String,
    pub sender_agent: String,
    /// The level of authority, from 0 to 5.
    pub authority: i32,
    pub content_type: String,
    pub payload: Vec<u8>,
}

/// The name of the stream of a telepath: `telepath_<name>`.
pub open spec fn stream_name_text(name: Seq<char>) -> Seq<char> {
    "telepath_"@ + name
}

/// The subjects that the stream of a telepath takes: `telepath_<name>.>`.
pub open spec fn stream_subjects_text(name: Seq<char>) -> Seq<char> {
    stream_name_text(name) + ".>"@
}

/// The subject of a signal: `telepath_<name>.lv<authority>`.
pub open spec fn signal_subject_text(name: Seq<char>, authority: int) -> Seq<char> {
    stream_name_text(name) + ".lv"@ + signed_decimal(authority)
}

/// The name of the consumer of a telepath: `<name>_consumer`.
pub open spec fn consumer_name_text(name: Seq<char>) -> Seq<char> {
    name + "_consumer"@
}

/// What a stream is made with.
#[derive(Debug, Clone, PartialEq, Eq)]
pub struct StreamSettings {
    pub name: String,
    pub subject: String,
    pub limits: TelepathConfig,
    /// Whether the stream is kept in memory.
    pub memory_storage: bool,
    /// Whether the oldest signals go when a limit is reached.
    pub discard_old: bool,
    pub replicas: usize,
}

/// The name of the stream of a telepath.
pub fn stream_name(name: &str) -> (text: String)
    ensures
        text@ == stream_name_text(name@),
{
    String::from_str("telepath_").concat(name)
}

/// What the stream of a telepath is made with: its name and its subjects, the
/// given limits, kept in memory, the oldest signals going first, in one
/// replica.
pub fn create_telepath(name: &str, config: TelepathConfig) -> (settings: StreamSettings)
    ensures
        settings.name@ == stream_name_text(name@),
        settings.subject@ == stream_subjects_text(name@),
        settings.limits == config,
        settings.memory_storage,
        settings.discard_old,
        settings.replicas == 1,
{
    StreamSettings {
        name: stream_name(name),
        subject: stream_name(name).concat(".>"),
        limits: config,
        memory_storage: true,
        discard_old: true,
        replicas: 1,
    }
}

/// The subject under which a signal is published on a telepath.
pub fn emit_subject(telepath: &str, signal: &MisakaSignal) -> (subject: String)
    ensures
        subject@ == signal_subject_text(telepath@, signal.authority as int),
{
    let mut subject = stream_name(telepath).concat(".lv");
    push_signed_decimal(&mut subject, signal.authority as i64);
    subject
}

/// The name of the consumer of a telepath.
pub fn consumer_name(telepath: &str) -> (name: String)
    ensures
        name@ == consumer_name_text(telepath@),
{
    String::from_str(telepath).concat("_consumer")
}

} // verus!
