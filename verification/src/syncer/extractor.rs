//! The daily extract: which rows of a table belong to a day, and the question
//! that fetches them.

use vstd::prelude::*;
use vstd::string::StringExecFns;
use crate::clickhouse_util::clickhouse_events::EventKind;
use crate::common::text::{decimal, push_decimal, same_text};
use crate::syncer::config::{is_unknown_event_type, Date, PipelineError};

verus! {

/// The kind of rows that a name of a row type names.
pub open spec fn named_kind(name: Seq<char>) -> Option<EventKind> {
    if name == "PumpfunTradeEventV2"@ {
        Some(EventKind::Trade)
    } else if name == "PumpfunCreateEventV2"@ {
        Some(EventKind::Create)
    } else if name == "PumpfunMigrateEventV2"@ {
        Some(EventKind::Migrate)
    } else if name == "PumpfunAmmBuyEventV2"@ {
        Some(EventKind::AmmBuy)
    } else if name == "PumpfunAmmSellEventV2"@ {
        Some(EventKind::AmmSell)
    } else if name == "PumpfunAmmCreatePoolEventV2"@ {
        Some(EventKind::AmmCreatePool)
    } else if name == "PumpfunAmmDepositEventV2"@ {
        Some(EventKind::AmmDeposit)
    } else if name == "PumpfunAmmWithdrawEventV2"@ {
        Some(EventKind::AmmWithdraw)
    } else {
        None
    }
}

/// The kind of rows that `name` names, or the error that it names none.
pub fn event_kind_named(name: &str) -> (kind: Result<EventKind, PipelineError>)
    ensures
        match kind {
            Ok(kind) => named_kind(name@) == Some(kind),
            Err(error) => named_kind(name@) is None && is_unknown_event_type(error, name@),
        },
{
    if same_text(name, "PumpfunTradeEventV2") {
        Ok(EventKind::Trade)
    } else if same_text(name, "PumpfunCreateEventV2") {
        Ok(EventKind::Create)
    } else if same_text(name, "PumpfunMigrateEventV2") {
        Ok(EventKind::Migrate)
    } else if same_text(name, "PumpfunAmmBuyEventV2") {
        Ok(EventKind::AmmBuy)
    } else if same_text(name, "PumpfunAmmSellEventV2") {
        Ok(EventKind::AmmSell)
    } else if same_text(name, "PumpfunAmmCreatePoolEventV2") {
        Ok(EventKind::AmmCreatePool)
    } else if same_text(name, "PumpfunAmmDepositEventV2") {
        Ok(EventKind::AmmDeposit)
    } else if same_text(name, "PumpfunAmmWithdrawEventV2") {
        Ok(EventKind::AmmWithdraw)
    } else {
        Err(PipelineError::UnknownEventType(String::from_str(name)))
    }
}

/// The seconds of one day.
pub const DAY_SECONDS: u32 = 86400;

/// The seconds of a day: from `start` up to but not including `end`.
#[derive(Debug, Clone, Copy, PartialEq, Eq, Structural)]
pub struct DayWindow {
    pub start: u32,
    pub end: u32,
}

impl DayWindow {
    /// Whether a row of the given time belongs to the day.
    pub open spec fn holds(self, timestamp: int) -> bool {
        self.start <= timestamp < self.end
    }

    /// Whether a row of the given time belongs to the day.
    pub fn contains(&self, timestamp: u32) -> (inside: bool)
        ensures
            inside == self.holds(timestamp as int),
    {
        self.start <= timestamp && timestamp < self.end
    }
}

/// Whether the seconds of a day are times that the store can hold: the day is
/// not before 1970, and its end is a number of 32 bits.
pub open spec fn day_in_reach(date: Date) -> bool {
    0 <= date.days && (date.days + 1) * 86400 <= u32::MAX
}

/// The seconds of a day, where the store can hold them.
pub fn day_window(date: Date) -> (window: Option<DayWindow>)
    ensures
        match window {
            Some(window) => day_in_reach(date) && window.start == date.days * 86400 && window.end
                == (date.days + 1) * 86400,
            None => !day_in_reach(date),
        },
{
    if date.days < 0 || date.days > 49709 {
        return None;
    }
    let start: u32 = date.days as u32 * DAY_SECONDS;
    Some(DayWindow { start, end: start + DAY_SECONDS })
}

/// A day holds the rows from its first second on, and the first second of the
/// next day is not among them: a time belongs to the day exactly if it lies
/// at or after `day * 86400` and before `(day + 1) * 86400`.
pub proof fn lemma_day_bounds(date: Date, window: DayWindow, timestamp: int)
    requires
        window.start == date.days * 86400,
        window.end == (date.days + 1) * 86400,
    ensures
        window.holds(date.days * 86400),
        !window.holds((date.days + 1) * 86400),
        window.holds(timestamp) <==> date.days * 86400 <= timestamp < (date.days + 1) * 86400,
{
}

/// The windows of two different days hold no time in common.
pub proof fn lemma_days_do_not_overlap(a: Date, b: Date, x: DayWindow, y: DayWindow, timestamp: int)
    requires
        a.days != b.days,
        x.start == a.days * 86400,
        x.end == (a.days + 1) * 86400,
        y.start == b.days * 86400,
        y.end == (b.days + 1) * 86400,
    ensures
        !(x.holds(timestamp) && y.holds(timestamp)),
{
}

/// The question that fetches the rows of `table` whose time lies in
/// `[start, end)`, in the order of slot, transaction and instruction.
pub open spec fn daily_query_text(table: Seq<char>, start: u32, end: u32) -> Seq<char> {
    "SELECT * FROM "@ + table + " WHERE timestamp >= "@ + decimal(start as nat)
        + " AND timestamp < "@ + decimal(end as nat)
        + " ORDER BY slot, transaction_index, instruction_index"@
}

/// What is to be fetched for one table and one day.
#[derive(Debug, Clone, PartialEq, Eq)]
pub struct ExtractRequest {
    /// The kind of the rows of the answer.
    pub kind: EventKind,
    pub window: DayWindow,
    pub query: String,
}

/// Extracts the rows of one day from the store.
#[derive(Debug, Clone, Copy, PartialEq, Eq)]
pub struct ClickHouseExtractor;

impl ClickHouseExtractor {
    pub fn new() -> ClickHouseExtractor {
        ClickHouseExtractor
    }

    /// What is to be fetched for the rows of `table` on the day `date`, the
    /// rows being of the kind that `event_type` names. A day whose seconds the
    /// store cannot hold is an invalid date; after that, a name that names no
    /// kind of rows is an unknown event type.
    pub fn extract_daily_events(&self, table: &str, event_type: &str, date: Date) -> (request:
        Result<ExtractRequest, PipelineError>)
        ensures
            !day_in_reach(date) ==> request == Err::<ExtractRequest, PipelineError>(
                PipelineError::InvalidDate,
            ),
            day_in_reach(date) && named_kind(event_type@) is None ==> request is Err
                && is_unknown_event_type(request->Err_0, event_type@),
            day_in_reach(date) && named_kind(event_type@) is Some ==> {
                &&& request is Ok
                &&& request->Ok_0.kind == named_kind(event_type@)->0
                &&& request->Ok_0.window.start == date.days * 86400
                &&& request->Ok_0.window.end == (date.days + 1) * 86400
                &&& request->Ok_0.query@ == daily_query_text(
                    table@,
                    request->Ok_0.window.start,
                    request->Ok_0.window.end,
                )
            },
    {
        let window = match day_window(date) {
            Some(window) => window,
            None => {
                return Err(PipelineError::InvalidDate);
            },
        };
        let mut query = String::from_str("SELECT * FROM ");
        query.append(table);
        query.append(" WHERE timestamp >= ");
        push_decimal(&mut query, window.start as u64);
        query.append(" AND timestamp < ");
        push_decimal(&mut query, window.end as u64);
        query.append(" ORDER BY slot, transaction_index, instruction_index");
        match event_kind_named(event_type) {
            Ok(kind) => Ok(ExtractRequest { kind, window, query }),
            Err(error) => Err(error),
        }
    }
}

impl Default for ClickHouseExtractor {
    fn default() -> ClickHouseExtractor {
        ClickHouseExtractor::new()
    }
}

} // verus!
