//! The signal service: each transaction from the bus goes out as a signal.

use vstd::prelude::*;
use vstd::string::StringExecFns;
use crate::clickhouse_util::convert_transaction::{rows_of, tables_of};
use crate::common::clock::current_time;
use crate::common::text::{contains_text, holds_text, same_text};
use crate::common::transaction::Transaction;
use crate::misaka_network::client::MisakaSignal;
use crate::misaka_signal::config::Config;
use crate::misaka_signal::event_bundle::EventBundle;

verus! {

/// A level of authority of a signal.
#[derive(Debug, Clone, Copy, PartialEq, Eq, Structural)]
pub enum AuthorityLevel {
    Lv0,
    Lv1,
    Lv2,
    Lv3,
    Lv4,
    Lv5,
}

impl AuthorityLevel {
    /// The number of the level, from 0 to 5.
    pub open spec fn rank(self) -> int {
        match self {
            AuthorityLevel::Lv0 => 0,
            AuthorityLevel::Lv1 => 1,
            AuthorityLevel::Lv2 => 2,
            AuthorityLevel::Lv3 => 3,
            AuthorityLevel::Lv4 => 4,
            AuthorityLevel::Lv5 => 5,
        }
    }

    /// The number of the level, from 0 to 5.
    pub fn number(&self) -> (n: i32)
        ensures
            n == self.rank(),
            0 <= n <= 5,
    {
        match self {
            AuthorityLevel::Lv0 => 0,
            AuthorityLevel::Lv1 => 1,
            AuthorityLevel::Lv2 => 2,
            AuthorityLevel::Lv3 => 3,
            AuthorityLevel::Lv4 => 4,
            AuthorityLevel::Lv5 => 5,
        }
    }
}

/// The text in upper case.
pub uninterp spec fn uppercase_text(text: Seq<char>) -> Seq<char>;

/// The text in upper case.
///
/// Calls `str::to_uppercase`. Believed of it, not proved: the text returned is
/// a function of the text given, here named `uppercase_text`.
#[verifier::external_body]
fn to_uppercase(text: &str) -> (upper: String)
    ensures
        upper@ == uppercase_text(text@),
{
    text.to_uppercase()
}

/// The level that a name in upper case names: `LV0` to `LV5` name their
/// level, and any other name the lowest level.
pub open spec fn level_named(upper: Seq<char>) -> AuthorityLevel {
    if upper == "LV1"@ {
        AuthorityLevel::Lv1
    } else if upper == "LV2"@ {
        AuthorityLevel::Lv2
    } else if upper == "LV3"@ {
        AuthorityLevel::Lv3
    } else if upper == "LV4"@ {
        AuthorityLevel::Lv4
    } else if upper == "LV5"@ {
        AuthorityLevel::Lv5
    } else {
        AuthorityLevel::Lv0
    }
}

/// The level that a name in upper case names.
pub fn authority_level_named(upper: &str) -> (level: AuthorityLevel)
    ensures
        level == level_named(upper@),
{
    if same_text(upper, "LV1") {
        AuthorityLevel::Lv1
    } else if same_text(upper, "LV2") {
        AuthorityLevel::Lv2
    } else if same_text(upper, "LV3") {
        AuthorityLevel::Lv3
    } else if same_text(upper, "LV4") {
        AuthorityLevel::Lv4
    } else if same_text(upper, "LV5") {
        AuthorityLevel::Lv5
    } else {
        AuthorityLevel::Lv0
    }
}

/// What a total comes to per item: 0 where there is no item.
pub open spec fn mean(total: u64, count: u64) -> int {
    if count > 0 {
        total as int / count as int
    } else {
        0
    }
}

/// What a total comes to per item.
pub fn average(total: u64, count: u64) -> (avg: u64)
    ensures
        avg == mean(total, count),
{
    if count > 0 {
        total / count
    } else {
        0
    }
}

/// What the service has counted in one period of its statistics.
#[derive(Debug, Clone, Copy, PartialEq, Eq, Structural)]
pub struct PeriodTotals {
    pub nats_messages: u64,
    pub signals: u64,
    pub conversion_time_us: u64,
    pub serialization_time_us: u64,
    pub emit_time_us: u64,
    pub bytes_sent: u64,
}

/// The averages of one period.
#[derive(Debug, Clone, Copy, PartialEq, Eq, Structural)]
pub struct PeriodAverages {
    /// The microseconds of conversion per message.
    pub conversion_us: u64,
    /// The microseconds of serialization per signal.
    pub serialization_us: u64,
    /// The microseconds of sending per signal.
    pub emit_us: u64,
    /// The bytes per signal.
    pub bytes: u64,
}

impl PeriodTotals {
    /// The averages of the period: the time of conversion per message, the
    /// other totals per signal.
    pub fn averages(&self) -> (averages: PeriodAverages)
        ensures
            averages.conversion_us == mean(self.conversion_time_us, self.nats_messages),
            averages.serialization_us == mean(self.serialization_time_us, self.signals),
            averages.emit_us == mean(self.emit_time_us, self.signals),
            averages.bytes == mean(self.bytes_sent, self.signals),
    {
        PeriodAverages {
            conversion_us: average(self.conversion_time_us, self.nats_messages),
            serialization_us: average(self.serialization_time_us, self.signals),
            emit_us: average(self.emit_time_us, self.signals),
            bytes: average(self.bytes_sent, self.signals),
        }
    }
}

/// The service that turns transactions into signals.
#[derive(Debug, Clone)]
pub struct SignalService {
    pub config: Config,
}

impl SignalService {
    pub fn new(config: Config) -> (service: SignalService)
        ensures
            service.config == config,
    {
        SignalService { config }
    }

    /// Whether the message of a failed creation of a stream says no more than
    /// that the stream is there already.
    pub fn is_already_there(message: &str) -> (known: bool)
        ensures
            known == (holds_text(message@, "already exists"@) || holds_text(
                message@,
                "name already in use"@,
            )),
    {
        contains_text(message, "already exists") || contains_text(message, "name already in use")
    }

    /// The level of authority that `level` names, whatever its case.
    pub fn parse_authority_level(level: &str) -> (authority: AuthorityLevel)
        ensures
            authority == level_named(uppercase_text(level@)),
    {
        let upper = to_uppercase(level);
        authority_level_named(upper.as_str())
    }

    /// The rows of one transaction, or nothing where it yields none: such a
    /// transaction sends no signal.
    pub fn convert_transaction(&self, tx: &Transaction) -> (bundle: Option<EventBundle>)
        ensures
            tables_of(rows_of(*tx)).is_empty() ==> bundle is None,
            !tables_of(rows_of(*tx)).is_empty() ==> bundle is Some && bundle->0@ == tables_of(
                rows_of(*tx),
            ),
    {
        let bundle = EventBundle::from_transaction(tx);
        if bundle.is_empty() {
            None
        } else {
            Some(bundle)
        }
    }

    /// The signal that carries `payload`, made at the given moment under the
    /// given identifier: it answers no other signal, and it has the sender and
    /// the authority of the settings.
    pub fn create_signal_at(
        &self,
        content_type: &str,
        payload: Vec<u8>,
        seconds: i64,
        nanos: i32,
        uuid: String,
    ) -> (signal: MisakaSignal)
        ensures
            signal.timestamp_seconds == seconds,
            signal.timestamp_nanos == nanos,
            signal.uuid == uuid,
            signal.parent_uuid@.len() == 0,
            signal.sender_agent@ == self.config.sender_agent@,
            signal.authority == level_named(uppercase_text(self.config.authority_level@)).rank(),
            signal.content_type@ == content_type@,
            signal.payload == payload,
    {
        let authority = Self::parse_authority_level(self.config.authority_level.as_str());
        MisakaSignal {
            timestamp_seconds: seconds,
            timestamp_nanos: nanos,
            uuid,
            parent_uuid: String::new(),
            sender_agent: self.config.sender_agent.clone(),
            authority: authority.number(),
            content_type: String::from_str(content_type),
            payload,
        }
    }

    /// The signal that carries `payload`, made now under the given
    /// identifier.
    pub fn create_signal(&self, content_type: &str, payload: Vec<u8>, uuid: String) -> (signal:
        MisakaSignal)
        ensures
            0 <= signal.timestamp_nanos,
            signal.uuid == uuid,
            signal.parent_uuid@.len() == 0,
            signal.sender_agent@ == self.config.sender_agent@,
            signal.authority == level_named(uppercase_text(self.config.authority_level@)).rank(),
            0 <= signal.authority <= 5,
            signal.content_type@ == content_type@,
            signal.payload == payload,
    {
        let (seconds, nanos) = current_time();
        // A leap second is told as a count of nanoseconds of two seconds.
        let nanos: i32 = if nanos <= i32::MAX as u32 {
            nanos as i32
        } else {
            i32::MAX
        };
        self.create_signal_at(content_type, payload, seconds, nanos, uuid)
    }
}

} // verus!
