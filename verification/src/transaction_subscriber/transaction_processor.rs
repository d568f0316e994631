//! The producer's side of the live path and the state of its flusher: rows are
//! gathered per table and flushed, all tables at once, when one table has
//! enough of them or a tick finds any.

use vstd::prelude::*;
use crate::clickhouse_util::clickhouse_events::{
    views, AmmBuyRow, AmmCreatePoolRow, AmmDepositRow, AmmSellRow, AmmWithdrawRow, CreateRow,
    MigrateRow, PumpfunAmmBuyEventV2, PumpfunAmmCreatePoolEventV2, PumpfunAmmDepositEventV2,
    PumpfunAmmSellEventV2, PumpfunAmmWithdrawEventV2, PumpfunCreateEventV2,
    PumpfunMigrateEventV2, PumpfunTradeEventV2, TradeRow,
};
use crate::clickhouse_util::convert_transaction::{
    amm_buy_rows, amm_create_pool_rows, amm_deposit_rows, amm_sell_rows, amm_withdraw_rows,
    create_rows, migrate_rows, rows_of, tables_of, trade_rows, TransactionConverter,
};
use crate::clickhouse_util::insert_task::{
    insert_tasks, lemma_tasks_of, tasks_of, InsertTask, TableNames,
};
use crate::clickhouse_util::tables::Tables;
use crate::common::async_pool::{pool_after, submissions, AsyncPool};
use crate::common::transaction::Transaction;

verus! {

/// The number of rows in one table at which the live path flushes.
pub const BATCH_SIZE: usize = 100;

/// The milliseconds between two ticks of the live path.
pub const FLUSH_INTERVAL_MS: u64 = 100;

/// The rows that one transaction yielded.
#[derive(Debug, Clone, PartialEq, Eq)]
pub struct ProcessedEvents {
    pub pumpfun_trade_event: Vec<PumpfunTradeEventV2>,
    pub pumpfun_create_event: Vec<PumpfunCreateEventV2>,
    pub pumpfun_migrate_event: Vec<PumpfunMigrateEventV2>,
    pub pumpfun_amm_buy_event: Vec<PumpfunAmmBuyEventV2>,
    pub pumpfun_amm_sell_event: Vec<PumpfunAmmSellEventV2>,
    pub pumpfun_amm_create_pool_event: Vec<PumpfunAmmCreatePoolEventV2>,
    pub pumpfun_amm_deposit_event: Vec<PumpfunAmmDepositEventV2>,
    pub pumpfun_amm_withdraw_event: Vec<PumpfunAmmWithdrawEventV2>,
}

impl View for ProcessedEvents {
    type V = Tables;

    open spec fn view(&self) -> Tables {
        Tables {
            pumpfun_trade_event: views(self.pumpfun_trade_event@),
            pumpfun_create_event: views(self.pumpfun_create_event@),
            pumpfun_migrate_event: views(self.pumpfun_migrate_event@),
            pumpfun_amm_buy_event: views(self.pumpfun_amm_buy_event@),
            pumpfun_amm_sell_event: views(self.pumpfun_amm_sell_event@),
            pumpfun_amm_create_pool_event: views(self.pumpfun_amm_create_pool_event@),
            pumpfun_amm_deposit_event: views(self.pumpfun_amm_deposit_event@),
            pumpfun_amm_withdraw_event: views(self.pumpfun_amm_withdraw_event@),
        }
    }
}

impl Default for ProcessedEvents {
    fn default() -> (empty: ProcessedEvents)
        ensures
            empty@ == Tables::empty(),
    {
        let empty = ProcessedEvents {
            pumpfun_trade_event: Vec::new(),
            pumpfun_create_event: Vec::new(),
            pumpfun_migrate_event: Vec::new(),
            pumpfun_amm_buy_event: Vec::new(),
            pumpfun_amm_sell_event: Vec::new(),
            pumpfun_amm_create_pool_event: Vec::new(),
            pumpfun_amm_deposit_event: Vec::new(),
            pumpfun_amm_withdraw_event: Vec::new(),
        };
        assert(views(empty.pumpfun_trade_event@) =~= Seq::<TradeRow>::empty());
        assert(views(empty.pumpfun_create_event@) =~= Seq::<CreateRow>::empty());
        assert(views(empty.pumpfun_migrate_event@) =~= Seq::<MigrateRow>::empty());
        assert(views(empty.pumpfun_amm_buy_event@) =~= Seq::<AmmBuyRow>::empty());
        assert(views(empty.pumpfun_amm_sell_event@) =~= Seq::<AmmSellRow>::empty());
        assert(views(empty.pumpfun_amm_create_pool_event@) =~= Seq::<AmmCreatePoolRow>::empty());
        assert(views(empty.pumpfun_amm_deposit_event@) =~= Seq::<AmmDepositRow>::empty());
        assert(views(empty.pumpfun_amm_withdraw_event@) =~= Seq::<AmmWithdrawRow>::empty());
        empty
    }
}

impl ProcessedEvents {
    /// Whether no table holds a row.
    pub fn is_empty(&self) -> (empty: bool)
        ensures
            empty == self@.is_empty(),
    {
        self.pumpfun_trade_event.is_empty()
            && self.pumpfun_create_event.is_empty()
            && self.pumpfun_migrate_event.is_empty()
            && self.pumpfun_amm_buy_event.is_empty()
            && self.pumpfun_amm_sell_event.is_empty()
            && self.pumpfun_amm_create_pool_event.is_empty()
            && self.pumpfun_amm_deposit_event.is_empty()
            && self.pumpfun_amm_withdraw_event.is_empty()
    }

    /// The rows that `tx` yields, each in the table of its kind.
    pub fn from_transaction(tx: &Transaction) -> (events: ProcessedEvents)
        ensures
            events@ == tables_of(rows_of(*tx)),
    {
        let mut events = ProcessedEvents::default();
        TransactionConverter::convert(
            tx,
            &mut events.pumpfun_trade_event,
            &mut events.pumpfun_create_event,
            &mut events.pumpfun_migrate_event,
            &mut events.pumpfun_amm_buy_event,
            &mut events.pumpfun_amm_sell_event,
            &mut events.pumpfun_amm_create_pool_event,
            &mut events.pumpfun_amm_deposit_event,
            &mut events.pumpfun_amm_withdraw_event,
        );
        assert(Seq::<TradeRow>::empty() + trade_rows(rows_of(*tx)) =~= trade_rows(rows_of(*tx)));
        assert(Seq::<CreateRow>::empty() + create_rows(rows_of(*tx)) =~= create_rows(rows_of(*tx)));
        assert(Seq::<MigrateRow>::empty() + migrate_rows(rows_of(*tx))
            =~= migrate_rows(rows_of(*tx)));
        assert(Seq::<AmmBuyRow>::empty() + amm_buy_rows(rows_of(*tx))
            =~= amm_buy_rows(rows_of(*tx)));
        assert(Seq::<AmmSellRow>::empty() + amm_sell_rows(rows_of(*tx))
            =~= amm_sell_rows(rows_of(*tx)));
        assert(Seq::<AmmCreatePoolRow>::empty() + amm_create_pool_rows(rows_of(*tx))
            =~= amm_create_pool_rows(rows_of(*tx)));
        assert(Seq::<AmmDepositRow>::empty() + amm_deposit_rows(rows_of(*tx))
            =~= amm_deposit_rows(rows_of(*tx)));
        assert(Seq::<AmmWithdrawRow>::empty() + amm_withdraw_rows(rows_of(*tx))
            =~= amm_withdraw_rows(rows_of(*tx)));
        events
    }

}

/// The rows that wait for the next flush.
#[derive(Debug, Clone, PartialEq, Eq)]
pub struct BatchAccumulator {
    pub pumpfun_trade_event: Vec<PumpfunTradeEventV2>,
    pub pumpfun_create_event: Vec<PumpfunCreateEventV2>,
    pub pumpfun_migrate_event: Vec<PumpfunMigrateEventV2>,
    pub pumpfun_amm_buy_event: Vec<PumpfunAmmBuyEventV2>,
    pub pumpfun_amm_sell_event: Vec<PumpfunAmmSellEventV2>,
    pub pumpfun_amm_create_pool_event: Vec<PumpfunAmmCreatePoolEventV2>,
    pub pumpfun_amm_deposit_event: Vec<PumpfunAmmDepositEventV2>,
    pub pumpfun_amm_withdraw_event: Vec<PumpfunAmmWithdrawEventV2>,
}

impl View for BatchAccumulator {
    type V = Tables;

    open spec fn view(&self) -> Tables {
        Tables {
            pumpfun_trade_event: views(self.pumpfun_trade_event@),
            pumpfun_create_event: views(self.pumpfun_create_event@),
            pumpfun_migrate_event: views(self.pumpfun_migrate_event@),
            pumpfun_amm_buy_event: views(self.pumpfun_amm_buy_event@),
            pumpfun_amm_sell_event: views(self.pumpfun_amm_sell_event@),
            pumpfun_amm_create_pool_event: views(self.pumpfun_amm_create_pool_event@),
            pumpfun_amm_deposit_event: views(self.pumpfun_amm_deposit_event@),
            pumpfun_amm_withdraw_event: views(self.pumpfun_amm_withdraw_event@),
        }
    }
}

impl Default for BatchAccumulator {
    fn default() -> (empty: BatchAccumulator)
        ensures
            empty@ == Tables::empty(),
    {
        let empty = BatchAccumulator {
            pumpfun_trade_event: Vec::new(),
            pumpfun_create_event: Vec::new(),
            pumpfun_migrate_event: Vec::new(),
            pumpfun_amm_buy_event: Vec::new(),
            pumpfun_amm_sell_event: Vec::new(),
            pumpfun_amm_create_pool_event: Vec::new(),
            pumpfun_amm_deposit_event: Vec::new(),
            pumpfun_amm_withdraw_event: Vec::new(),
        };
        assert(views(empty.pumpfun_trade_event@) =~= Seq::<TradeRow>::empty());
        assert(views(empty.pumpfun_create_event@) =~= Seq::<CreateRow>::empty());
        assert(views(empty.pumpfun_migrate_event@) =~= Seq::<MigrateRow>::empty());
        assert(views(empty.pumpfun_amm_buy_event@) =~= Seq::<AmmBuyRow>::empty());
        assert(views(empty.pumpfun_amm_sell_event@) =~= Seq::<AmmSellRow>::empty());
        assert(views(empty.pumpfun_amm_create_pool_event@) =~= Seq::<AmmCreatePoolRow>::empty());
        assert(views(empty.pumpfun_amm_deposit_event@) =~= Seq::<AmmDepositRow>::empty());
        assert(views(empty.pumpfun_amm_withdraw_event@) =~= Seq::<AmmWithdrawRow>::empty());
        empty
    }
}

impl BatchAccumulator {
    /// Takes the rows of `events` in, after those that wait already.
    pub fn add(&mut self, events: ProcessedEvents)
        ensures
            final(self)@ == old(self)@.concat(events@),
    {
        let mut events = events;
        let ghost mine = self.pumpfun_trade_event@;
        let ghost theirs = events.pumpfun_trade_event@;
        self.pumpfun_trade_event.append(&mut events.pumpfun_trade_event);
        assert(views(mine + theirs) =~= views(mine) + views(theirs));
        let ghost mine = self.pumpfun_create_event@;
        let ghost theirs = events.pumpfun_create_event@;
        self.pumpfun_create_event.append(&mut events.pumpfun_create_event);
        assert(views(mine + theirs) =~= views(mine) + views(theirs));
        let ghost mine = self.pumpfun_migrate_event@;
        let ghost theirs = events.pumpfun_migrate_event@;
        self.pumpfun_migrate_event.append(&mut events.pumpfun_migrate_event);
        assert(views(mine + theirs) =~= views(mine) + views(theirs));
        let ghost mine = self.pumpfun_amm_buy_event@;
        let ghost theirs = events.pumpfun_amm_buy_event@;
        self.pumpfun_amm_buy_event.append(&mut events.pumpfun_amm_buy_event);
        assert(views(mine + theirs) =~= views(mine) + views(theirs));
        let ghost mine = self.pumpfun_amm_sell_event@;
        let ghost theirs = events.pumpfun_amm_sell_event@;
        self.pumpfun_amm_sell_event.append(&mut events.pumpfun_amm_sell_event);
        assert(views(mine + theirs) =~= views(mine) + views(theirs));
        let ghost mine = self.pumpfun_amm_create_pool_event@;
        let ghost theirs = events.pumpfun_amm_create_pool_event@;
        self.pumpfun_amm_create_pool_event.append(&mut events.pumpfun_amm_create_pool_event);
        assert(views(mine + theirs) =~= views(mine) + views(theirs));
        let ghost mine = self.pumpfun_amm_deposit_event@;
        let ghost theirs = events.pumpfun_amm_deposit_event@;
        self.pumpfun_amm_deposit_event.append(&mut events.pumpfun_amm_deposit_event);
        assert(views(mine + theirs) =~= views(mine) + views(theirs));
        let ghost mine = self.pumpfun_amm_withdraw_event@;
        let ghost theirs = events.pumpfun_amm_withdraw_event@;
        self.pumpfun_amm_withdraw_event.append(&mut events.pumpfun_amm_withdraw_event);
        assert(views(mine + theirs) =~= views(mine) + views(theirs));
    }

    /// Whether any one table holds at least `threshold` rows.
    pub fn reaches(&self, threshold: usize) -> (due: bool)
        ensures
            due == self@.reaches(threshold as int),
    {
        self.pumpfun_trade_event.len() >= threshold
            || self.pumpfun_create_event.len() >= threshold
            || self.pumpfun_migrate_event.len() >= threshold
            || self.pumpfun_amm_buy_event.len() >= threshold
            || self.pumpfun_amm_sell_event.len() >= threshold
            || self.pumpfun_amm_create_pool_event.len() >= threshold
            || self.pumpfun_amm_deposit_event.len() >= threshold
            || self.pumpfun_amm_withdraw_event.len() >= threshold
    }

    /// Whether the live path has to flush: one table holds `BATCH_SIZE` rows or
    /// more.
    pub fn should_flush(&self) -> (due: bool)
        ensures
            due == self@.reaches(BATCH_SIZE as int),
    {
        self.reaches(BATCH_SIZE)
    }

    /// Whether no table holds a row.
    pub fn is_empty(&self) -> (empty: bool)
        ensures
            empty == self@.is_empty(),
    {
        self.pumpfun_trade_event.is_empty()
            && self.pumpfun_create_event.is_empty()
            && self.pumpfun_migrate_event.is_empty()
            && self.pumpfun_amm_buy_event.is_empty()
            && self.pumpfun_amm_sell_event.is_empty()
            && self.pumpfun_amm_create_pool_event.is_empty()
            && self.pumpfun_amm_deposit_event.is_empty()
            && self.pumpfun_amm_withdraw_event.is_empty()
    }

    /// Hands out all the rows that wait and leaves every table empty.
    pub fn take(&mut self) -> (taken: ProcessedEvents)
        ensures
            taken@ == old(self)@,
            final(self)@ == Tables::empty(),
    {
        let mut taken = ProcessedEvents::default();
        core::mem::swap(&mut self.pumpfun_trade_event, &mut taken.pumpfun_trade_event);
        core::mem::swap(&mut self.pumpfun_create_event, &mut taken.pumpfun_create_event);
        core::mem::swap(&mut self.pumpfun_migrate_event, &mut taken.pumpfun_migrate_event);
        core::mem::swap(&mut self.pumpfun_amm_buy_event, &mut taken.pumpfun_amm_buy_event);
        core::mem::swap(&mut self.pumpfun_amm_sell_event, &mut taken.pumpfun_amm_sell_event);
        core::mem::swap(&mut self.pumpfun_amm_create_pool_event,
            &mut taken.pumpfun_amm_create_pool_event);
        core::mem::swap(&mut self.pumpfun_amm_deposit_event, &mut taken.pumpfun_amm_deposit_event);
        core::mem::swap(&mut self.pumpfun_amm_withdraw_event,
            &mut taken.pumpfun_amm_withdraw_event);
        taken
    }
}

impl ProcessedEvents {
    /// The number of rows in all tables together.
    pub fn row_count(&self) -> (n: usize)
        requires
            self@.total() <= usize::MAX,
        ensures
            n == self@.total(),
    {
        self.pumpfun_trade_event.len() + self.pumpfun_create_event.len()
            + self.pumpfun_migrate_event.len() + self.pumpfun_amm_buy_event.len()
            + self.pumpfun_amm_sell_event.len() + self.pumpfun_amm_create_pool_event.len()
            + self.pumpfun_amm_deposit_event.len() + self.pumpfun_amm_withdraw_event.len()
    }

    /// The inserts that write these rows: one for each table that holds rows.
    pub fn into_tasks(self, table_names: &TableNames) -> (tasks: Vec<InsertTask>)
        ensures
            views(tasks@) == tasks_of(self@, table_names@),
    {
        insert_tasks(
            self.pumpfun_trade_event,
            self.pumpfun_create_event,
            self.pumpfun_migrate_event,
            self.pumpfun_amm_buy_event,
            self.pumpfun_amm_sell_event,
            self.pumpfun_amm_create_pool_event,
            self.pumpfun_amm_deposit_event,
            self.pumpfun_amm_withdraw_event,
            table_names,
        )
    }
}

/// What the producer reports of one transaction.
#[derive(Debug, Clone, Copy, PartialEq, Eq)]
pub struct ProcessingStats {
    pub payload_size: usize,
    pub processing_time_micros: u64,
}

/// The producer of the live path: it turns each transaction into rows and says
/// what has to be sent on.
#[derive(Debug, Clone)]
pub struct TransactionProcessor {
    pub max_concurrent_clickhouse_tasks: usize,
    pub table_names: TableNames,
}

impl TransactionProcessor {
    pub fn new(max_concurrent_clickhouse_tasks: usize, table_names: TableNames) -> (processor:
        TransactionProcessor)
        ensures
            processor.max_concurrent_clickhouse_tasks == max_concurrent_clickhouse_tasks,
            processor.table_names == table_names,
    {
        TransactionProcessor { max_concurrent_clickhouse_tasks, table_names }
    }

    /// What one transaction sends to the flusher: its statistics always, its
    /// rows only where it yielded any.
    pub fn process_transaction(
        &self,
        parsed_tx: &Transaction,
        payload_size: usize,
        processing_time_micros: u64,
    ) -> (sent: (ProcessingStats, Option<ProcessedEvents>))
        ensures
            sent.0 == (ProcessingStats { payload_size, processing_time_micros }),
            tables_of(rows_of(*parsed_tx)).is_empty() ==> sent.1 is None,
            !tables_of(rows_of(*parsed_tx)).is_empty() ==> sent.1 is Some && sent.1->0@
                == tables_of(rows_of(*parsed_tx)),
    {
        let events = ProcessedEvents::from_transaction(parsed_tx);
        let stats = ProcessingStats { payload_size, processing_time_micros };
        if events.is_empty() {
            (stats, None)
        } else {
            (stats, Some(events))
        }
    }

    /// Flushes all tables at once: the inserts for the rows that wait, the
    /// number of those rows, and nothing left waiting. Each insert is
    /// submitted to `pool`, where it waits for a permit; the flush does not
    /// wait for it, and no more inserts run than the pool lets run at once.
    pub fn flush_batches(
        batches: &mut BatchAccumulator,
        pool: &mut AsyncPool,
        table_names: &TableNames,
    ) -> (flushed: (Vec<InsertTask>, usize))
        requires
            old(batches)@.total() <= usize::MAX,
            old(pool).queued() + 8 <= usize::MAX,
        ensures
            views(flushed.0@) == tasks_of(old(batches)@, table_names@),
            flushed.1 == old(batches)@.total(),
            final(batches)@ == Tables::empty(),
            final(pool)@ == pool_after(old(pool)@, submissions(flushed.0@.len())),
            final(pool).queued() == old(pool).queued() + flushed.0@.len(),
            final(pool).running() == old(pool).running(),
            final(pool).running() <= final(pool).limit(),
    {
        let data = batches.take();
        let total_rows = data.row_count();
        let tasks = data.into_tasks(table_names);
        proof {
            lemma_tasks_of(data@, table_names@);
            assert(views(tasks@).len() == tasks@.len());
        }
        pool.submit_all(tasks.len());
        (tasks, total_rows)
    }

    /// The state in which the flusher of this processor starts.
    pub fn flusher(&self, summary_interval_secs: u64) -> (flusher: BatchFlusher)
        ensures
            flusher.batches@ == Tables::empty(),
            flusher.period == PeriodCounters::zero(),
            flusher.table_names == self.table_names,
            flusher.summary_interval_secs == summary_interval_secs,
    {
        BatchFlusher {
            batches: BatchAccumulator::default(),
            period: PeriodCounters::new(),
            table_names: self.table_names.duplicate(),
            summary_interval_secs,
        }
    }
}

/// What the flusher has counted since its last summary.
#[derive(Debug, Clone, Copy, PartialEq, Eq, Structural)]
pub struct PeriodCounters {
    pub transactions: usize,
    pub events: usize,
    pub rows_flushed: usize,
    pub bytes_received: usize,
    pub processing_time_micros: u64,
}

impl PeriodCounters {
    pub open spec fn zero() -> PeriodCounters {
        PeriodCounters {
            transactions: 0,
            events: 0,
            rows_flushed: 0,
            bytes_received: 0,
            processing_time_micros: 0,
        }
    }

    pub fn new() -> (counters: PeriodCounters)
        ensures
            counters == PeriodCounters::zero(),
    {
        PeriodCounters {
            transactions: 0,
            events: 0,
            rows_flushed: 0,
            bytes_received: 0,
            processing_time_micros: 0,
        }
    }
}

/// The state of the flusher of the live path. It is moved by three kinds of
/// arrival: the statistics of a transaction, the rows of a transaction, and a
/// tick of the clock.
#[derive(Debug, Clone)]
pub struct BatchFlusher {
    pub batches: BatchAccumulator,
    pub period: PeriodCounters,
    pub table_names: TableNames,
    /// The seconds after which a tick hands out a summary and starts a new
    /// period.
    pub summary_interval_secs: u64,
}

impl BatchFlusher {
    /// The statistics of one transaction arrive: they are added to the
    /// period's counters.
    pub fn on_stats(&mut self, stats: ProcessingStats)
        requires
            old(self).period.transactions < usize::MAX,
            old(self).period.bytes_received + stats.payload_size <= usize::MAX,
            old(self).period.processing_time_micros + stats.processing_time_micros <= u64::MAX,
        ensures
            final(self).period == (PeriodCounters {
                transactions: (old(self).period.transactions + 1) as usize,
                bytes_received: (old(self).period.bytes_received + stats.payload_size) as usize,
                processing_time_micros: (old(self).period.processing_time_micros
                    + stats.processing_time_micros) as u64,
                ..old(self).period
            }),
            final(self).batches == old(self).batches,
            final(self).table_names == old(self).table_names,
            final(self).summary_interval_secs == old(self).summary_interval_secs,
    {
        self.period.transactions = self.period.transactions + 1;
        self.period.bytes_received = self.period.bytes_received + stats.payload_size;
        self.period.processing_time_micros = self.period.processing_time_micros
            + stats.processing_time_micros;
    }

    /// The rows of one transaction arrive: they join the rows that wait, and if
    /// one table then holds `BATCH_SIZE` rows or more, all tables are flushed:
    /// their inserts are submitted to `pool`.
    pub fn on_events(&mut self, events: ProcessedEvents, pool: &mut AsyncPool) -> (tasks: Vec<
        InsertTask,
    >)
        requires
            old(self).period.events < usize::MAX,
            old(self).period.rows_flushed + old(self).batches@.total() + events@.total()
                <= usize::MAX,
            old(pool).queued() + 8 <= usize::MAX,
        ensures
            final(self).period.events == old(self).period.events + 1,
            old(self).batches@.concat(events@).reaches(BATCH_SIZE as int) ==> {
                &&& views(tasks@) == tasks_of(
                    old(self).batches@.concat(events@),
                    old(self).table_names@,
                )
                &&& final(self).batches@ == Tables::empty()
                &&& final(self).period.rows_flushed == old(self).period.rows_flushed + old(
                    self,
                ).batches@.total() + events@.total()
            },
            !old(self).batches@.concat(events@).reaches(BATCH_SIZE as int) ==> {
                &&& tasks@.len() == 0
                &&& final(self).batches@ == old(self).batches@.concat(events@)
                &&& final(self).period.rows_flushed == old(self).period.rows_flushed
            },
            final(pool)@ == pool_after(old(pool)@, submissions(tasks@.len())),
            final(pool).running() <= final(pool).limit(),
            final(self).period.transactions == old(self).period.transactions,
            final(self).period.bytes_received == old(self).period.bytes_received,
            final(self).period.processing_time_micros == old(self).period.processing_time_micros,
            final(self).table_names == old(self).table_names,
            final(self).summary_interval_secs == old(self).summary_interval_secs,
    {
        self.period.events = self.period.events + 1;
        self.batches.add(events);
        if self.batches.should_flush() {
            let (tasks, rows) = TransactionProcessor::flush_batches(
                &mut self.batches,
                pool,
                &self.table_names,
            );
            self.period.rows_flushed = self.period.rows_flushed + rows;
            tasks
        } else {
            pool.submit_all(0);
            Vec::new()
        }
    }

    /// The clock ticks, `seconds_since_summary` seconds after the last
    /// summary: whatever waits is flushed, however little, its inserts being
    /// submitted to `pool`; and once the summary interval has passed, the
    /// period's counters are handed out and start again from zero.
    pub fn on_tick(&mut self, seconds_since_summary: u64, pool: &mut AsyncPool) -> (out: (
        Vec<InsertTask>,
        Option<PeriodCounters>,
    ))
        requires
            old(self).period.rows_flushed + old(self).batches@.total() <= usize::MAX,
            old(pool).queued() + 8 <= usize::MAX,
        ensures
            views(out.0@) == tasks_of(old(self).batches@, old(self).table_names@),
            final(self).batches@ == Tables::empty(),
            final(pool)@ == pool_after(old(pool)@, submissions(out.0@.len())),
            final(pool).running() <= final(pool).limit(),
            seconds_since_summary >= old(self).summary_interval_secs ==> {
                &&& out.1 == Some(
                    PeriodCounters {
                        rows_flushed: (old(self).period.rows_flushed + old(
                            self,
                        ).batches@.total()) as usize,
                        ..old(self).period
                    },
                )
                &&& final(self).period == PeriodCounters::zero()
            },
            seconds_since_summary < old(self).summary_interval_secs ==> {
                &&& out.1 is None
                &&& final(self).period == (PeriodCounters {
                    rows_flushed: (old(self).period.rows_flushed + old(
                        self,
                    ).batches@.total()) as usize,
                    ..old(self).period
                })
            },
            final(self).table_names == old(self).table_names,
            final(self).summary_interval_secs == old(self).summary_interval_secs,
    {
        let tasks = if !self.batches.is_empty() {
            let (tasks, rows) = TransactionProcessor::flush_batches(
                &mut self.batches,
                pool,
                &self.table_names,
            );
            self.period.rows_flushed = self.period.rows_flushed + rows;
            tasks
        } else {
            proof {
                lemma_empty_tables(self.batches@);
                lemma_tasks_of(self.batches@, self.table_names@);
            }
            pool.submit_all(0);
            let tasks: Vec<InsertTask> = Vec::new();
            assert(views(tasks@) =~= Seq::empty());
            tasks
        };
        let summary = if seconds_since_summary >= self.summary_interval_secs {
            let counters = self.period;
            self.period = PeriodCounters::new();
            Some(counters)
        } else {
            None
        };
        (tasks, summary)
    }
}

/// A batch without rows is the empty batch.
pub proof fn lemma_empty_tables(tables: Tables)
    requires
        tables.is_empty(),
    ensures
        tables == Tables::empty(),
{
    assert(tables.pumpfun_trade_event =~= Seq::empty());
    assert(tables.pumpfun_create_event =~= Seq::empty());
    assert(tables.pumpfun_migrate_event =~= Seq::empty());
    assert(tables.pumpfun_amm_buy_event =~= Seq::empty());
    assert(tables.pumpfun_amm_sell_event =~= Seq::empty());
    assert(tables.pumpfun_amm_create_pool_event =~= Seq::empty());
    assert(tables.pumpfun_amm_deposit_event =~= Seq::empty());
    assert(tables.pumpfun_amm_withdraw_event =~= Seq::empty());
}

} // verus!
