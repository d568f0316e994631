//! The work on one archive unit: the rows of its blocks are gathered per table
//! and flushed, all tables at once, whenever one table holds a full batch.

use vstd::prelude::*;
use crate::clickhouse_util::clickhouse_events::{
    views, EventKind, PumpfunAmmBuyEventV2, PumpfunAmmCreatePoolEventV2, PumpfunAmmDepositEventV2,
    PumpfunAmmSellEventV2, PumpfunAmmWithdrawEventV2, PumpfunCreateEventV2,
    PumpfunMigrateEventV2, PumpfunTradeEventV2, RowView,
};
use crate::clickhouse_util::convert_transaction::{
    count_kind, lemma_rows_count_pairs, lemma_tables_of_concat, pair_positions, rows_of,
    tables_of, TransactionConverter,
};
use crate::clickhouse_util::insert_task::{
    default_table_names, insert_tasks, lemma_tasks_of, tasks_of, InsertTask, TableNames,
};
use crate::clickhouse_util::tables::{lemma_concat_laws, Tables};
use crate::common::async_pool::{pool_after, submissions, AsyncPool};
use crate::common::slot_meta::{read_plan, ranges_of, SlotMeta, SlotRange};
use crate::common::transaction::Transaction;
use crate::common::zstd_frame::{unpack_block, zstd_decoding};
use crate::transaction_subscriber::transaction_processor::{
    lemma_empty_tables, BatchAccumulator,
};

verus! {

/// The number of rows in one table at which the archive path flushes.
pub const ARCHIVE_BATCH_SIZE: usize = 1000;

/// The rows that a run of transactions yields, in the order of the
/// transactions and, within each, of its instructions.
pub open spec fn rows_of_all(transactions: Seq<Transaction>) -> Seq<RowView>
    decreases transactions.len(),
{
    if transactions.len() == 0 {
        Seq::empty()
    } else {
        rows_of_all(transactions.drop_last()) + rows_of(transactions.last())
    }
}

/// Gathers the rows of one archive unit and says when to write them.
#[derive(Debug, Clone)]
pub struct FileProcessor {
    pub batches: BatchAccumulator,
    pub batch_size: usize,
    pub table_names: TableNames,
    /// How many inserts may run at once.
    pub max_concurrent_clickhouse_tasks: usize,
}

impl FileProcessor {
    pub fn new(max_concurrent_clickhouse_tasks: usize) -> (processor: FileProcessor)
        ensures
            processor.batches@ == Tables::empty(),
            processor.batch_size == ARCHIVE_BATCH_SIZE,
            processor.table_names@ == default_table_names(),
            processor.max_concurrent_clickhouse_tasks == max_concurrent_clickhouse_tasks,
    {
        FileProcessor {
            batches: BatchAccumulator::default(),
            batch_size: ARCHIVE_BATCH_SIZE,
            table_names: TableNames::default(),
            max_concurrent_clickhouse_tasks,
        }
    }

    /// The ranges of the `.bin` file to read for an index, in the order of its
    /// entries: an entry without offset is passed over.
    pub fn ranges_to_read(index: &Vec<SlotMeta>) -> (plan: Vec<SlotRange>)
        ensures
            plan@ == ranges_of(index@),
    {
        read_plan(index)
    }

    /// The packed block that the bytes of one range hold, or nothing where
    /// they do not decode: such a slot is passed over.
    pub fn unpack(compressed: &[u8]) -> (packed: Option<Vec<u8>>)
        ensures
            match packed {
                Some(data) => zstd_decoding(compressed@) == Some(data@),
                None => zstd_decoding(compressed@) is None,
            },
    {
        unpack_block(compressed)
    }

    /// Takes in the rows of the transactions of one block, in their order,
    /// and flushes all tables if one of them then holds a full batch: the
    /// inserts of the flush are submitted to `pool`.
    pub fn handle_block(&mut self, transactions: &Vec<Transaction>, pool: &mut AsyncPool) -> (tasks:
        Vec<InsertTask>)
        requires
            old(pool).queued() + 8 <= usize::MAX,
        ensures
            final(pool)@ == pool_after(old(pool)@, submissions(tasks@.len())),
            final(pool).running() <= final(pool).limit(),
            old(self).batches@.concat(tables_of(rows_of_all(transactions@))).reaches(
                old(self).batch_size as int,
            ) ==> {
                &&& views(tasks@) == tasks_of(
                    old(self).batches@.concat(tables_of(rows_of_all(transactions@))),
                    old(self).table_names@,
                )
                &&& final(self).batches@ == Tables::empty()
            },
            !old(self).batches@.concat(tables_of(rows_of_all(transactions@))).reaches(
                old(self).batch_size as int,
            ) ==> {
                &&& tasks@.len() == 0
                &&& final(self).batches@ == old(self).batches@.concat(
                    tables_of(rows_of_all(transactions@)),
                )
            },
            final(self).batch_size == old(self).batch_size,
            final(self).table_names == old(self).table_names,
            final(self).max_concurrent_clickhouse_tasks == old(
                self,
            ).max_concurrent_clickhouse_tasks,
    {
        let mut i: usize = 0;
        proof {
            assert(transactions@.take(0) =~= Seq::<Transaction>::empty());
            lemma_concat_laws(self.batches@, Tables::empty(), Tables::empty());
            lemma_tables_of_concat(Seq::<RowView>::empty(), Seq::<RowView>::empty());
            lemma_empty_tables(tables_of(Seq::<RowView>::empty()));
        }
        while i < transactions.len()
            invariant
                i <= transactions@.len(),
                self.batches@ == old(self).batches@.concat(
                    tables_of(rows_of_all(transactions@.take(i as int))),
                ),
                self.batch_size == old(self).batch_size,
                self.table_names == old(self).table_names,
                self.max_concurrent_clickhouse_tasks == old(self).max_concurrent_clickhouse_tasks,
                *pool == *old(pool),
            decreases transactions@.len() - i,
        {
            let ghost before = self.batches@;
            let ghost done = rows_of_all(transactions@.take(i as int));
            TransactionConverter::convert(
                &transactions[i],
                &mut self.batches.pumpfun_trade_event,
                &mut self.batches.pumpfun_create_event,
                &mut self.batches.pumpfun_migrate_event,
                &mut self.batches.pumpfun_amm_buy_event,
                &mut self.batches.pumpfun_amm_sell_event,
                &mut self.batches.pumpfun_amm_create_pool_event,
                &mut self.batches.pumpfun_amm_deposit_event,
                &mut self.batches.pumpfun_amm_withdraw_event,
            );
            proof {
                let tx = transactions@[i as int];
                assert(self.batches@ == before.concat(tables_of(rows_of(tx))));
                let more = transactions@.take(i + 1);
                assert(more.drop_last() =~= transactions@.take(i as int));
                assert(more.last() == tx);
                assert(rows_of_all(more) == done + rows_of(tx));
                lemma_tables_of_concat(done, rows_of(tx));
                lemma_concat_laws(old(self).batches@, tables_of(done), tables_of(rows_of(tx)));
            }
            i = i + 1;
        }
        assert(transactions@.take(transactions@.len() as int) =~= transactions@);
        self.check_and_flush_batches(pool)
    }

    /// Flushes all tables if one of them holds a full batch: the inserts of the
    /// flush are submitted to `pool`.
    pub fn check_and_flush_batches(&mut self, pool: &mut AsyncPool) -> (tasks: Vec<InsertTask>)
        requires
            old(pool).queued() + 8 <= usize::MAX,
        ensures
            final(pool)@ == pool_after(old(pool)@, submissions(tasks@.len())),
            final(pool).running() <= final(pool).limit(),
            old(self).batches@.reaches(old(self).batch_size as int) ==> {
                &&& views(tasks@) == tasks_of(old(self).batches@, old(self).table_names@)
                &&& final(self).batches@ == Tables::empty()
            },
            !old(self).batches@.reaches(old(self).batch_size as int) ==> {
                &&& tasks@.len() == 0
                &&& final(self).batches@ == old(self).batches@
            },
            final(self).batch_size == old(self).batch_size,
            final(self).table_names == old(self).table_names,
            final(self).max_concurrent_clickhouse_tasks == old(
                self,
            ).max_concurrent_clickhouse_tasks,
    {
        if self.batches.reaches(self.batch_size) {
            self.flush_all_batches(pool)
        } else {
            pool.submit_all(0);
            Vec::new()
        }
    }

    /// Flushes all tables, however few rows they hold: one insert for each
    /// table with rows, and nothing left waiting. Each insert is submitted to
    /// `pool`, where it waits for a permit; the flush does not wait for it.
    pub fn flush_all_batches(&mut self, pool: &mut AsyncPool) -> (tasks: Vec<InsertTask>)
        requires
            old(pool).queued() + 8 <= usize::MAX,
        ensures
            final(pool)@ == pool_after(old(pool)@, submissions(tasks@.len())),
            final(pool).running() <= final(pool).limit(),
            views(tasks@) == tasks_of(old(self).batches@, old(self).table_names@),
            final(self).batches@ == Tables::empty(),
            final(self).batch_size == old(self).batch_size,
            final(self).table_names == old(self).table_names,
            final(self).max_concurrent_clickhouse_tasks == old(
                self,
            ).max_concurrent_clickhouse_tasks,
    {
        let data = self.batches.take();
        let tasks = data.into_tasks(&self.table_names);
        proof {
            lemma_tasks_of(data@, self.table_names@);
            assert(views(tasks@).len() == tasks@.len());
        }
        pool.submit_all(tasks.len());
        tasks
    }

    /// The inserts that write the given rows into the tables of their default
    /// names: one for each table with rows, each submitted to `pool`.
    pub fn submit_clickhouse_inserts(
        pumpfun_trade_event_rows: Vec<PumpfunTradeEventV2>,
        pumpfun_create_event_rows: Vec<PumpfunCreateEventV2>,
        pumpfun_migrate_event_rows: Vec<PumpfunMigrateEventV2>,
        pumpfun_amm_buy_event_rows: Vec<PumpfunAmmBuyEventV2>,
        pumpfun_amm_sell_event_rows: Vec<PumpfunAmmSellEventV2>,
        pumpfun_amm_create_pool_event_rows: Vec<PumpfunAmmCreatePoolEventV2>,
        pumpfun_amm_deposit_event_rows: Vec<PumpfunAmmDepositEventV2>,
        pumpfun_amm_withdraw_event_rows: Vec<PumpfunAmmWithdrawEventV2>,
        pool: &mut AsyncPool,
    ) -> (tasks: Vec<InsertTask>)
        requires
            old(pool).queued() + 8 <= usize::MAX,
        ensures
            final(pool)@ == pool_after(old(pool)@, submissions(tasks@.len())),
            final(pool).running() <= final(pool).limit(),
            views(tasks@) == tasks_of(
                Tables {
                    pumpfun_trade_event: views(pumpfun_trade_event_rows@),
                    pumpfun_create_event: views(pumpfun_create_event_rows@),
                    pumpfun_migrate_event: views(pumpfun_migrate_event_rows@),
                    pumpfun_amm_buy_event: views(pumpfun_amm_buy_event_rows@),
                    pumpfun_amm_sell_event: views(pumpfun_amm_sell_event_rows@),
                    pumpfun_amm_create_pool_event: views(pumpfun_amm_create_pool_event_rows@),
                    pumpfun_amm_deposit_event: views(pumpfun_amm_deposit_event_rows@),
                    pumpfun_amm_withdraw_event: views(pumpfun_amm_withdraw_event_rows@),
                },
                default_table_names(),
            ),
    {
        let names = TableNames::default();
        let tasks = insert_tasks(
            pumpfun_trade_event_rows,
            pumpfun_create_event_rows,
            pumpfun_migrate_event_rows,
            pumpfun_amm_buy_event_rows,
            pumpfun_amm_sell_event_rows,
            pumpfun_amm_create_pool_event_rows,
            pumpfun_amm_deposit_event_rows,
            pumpfun_amm_withdraw_event_rows,
            &names,
        );
        proof {
            lemma_tasks_of(
                Tables {
                    pumpfun_trade_event: views(pumpfun_trade_event_rows@),
                    pumpfun_create_event: views(pumpfun_create_event_rows@),
                    pumpfun_migrate_event: views(pumpfun_migrate_event_rows@),
                    pumpfun_amm_buy_event: views(pumpfun_amm_buy_event_rows@),
                    pumpfun_amm_sell_event: views(pumpfun_amm_sell_event_rows@),
                    pumpfun_amm_create_pool_event: views(pumpfun_amm_create_pool_event_rows@),
                    pumpfun_amm_deposit_event: views(pumpfun_amm_deposit_event_rows@),
                    pumpfun_amm_withdraw_event: views(pumpfun_amm_withdraw_event_rows@),
                },
                names@,
            );
            assert(views(tasks@).len() == tasks@.len());
        }
        pool.submit_all(tasks.len());
        tasks
    }
}

/// A flush comes exactly when a table has reached the batch size, and then it
/// takes every table: with `size` rows or more in one table the accumulator
/// is due, with fewer in all of them it is not.
pub proof fn lemma_flush_at_threshold(tables: Tables, size: int)
    ensures
        tables.pumpfun_trade_event.len() == size ==> tables.reaches(size),
        tables.pumpfun_create_event.len() == size ==> tables.reaches(size),
        tables.pumpfun_migrate_event.len() == size ==> tables.reaches(size),
        tables.pumpfun_amm_buy_event.len() == size ==> tables.reaches(size),
        tables.pumpfun_amm_sell_event.len() == size ==> tables.reaches(size),
        tables.pumpfun_amm_create_pool_event.len() == size ==> tables.reaches(size),
        tables.pumpfun_amm_deposit_event.len() == size ==> tables.reaches(size),
        tables.pumpfun_amm_withdraw_event.len() == size ==> tables.reaches(size),
        tables.reaches(size) && size >= 1 ==> tasks_of(tables, default_table_names()).len() >= 1,
        tables.total() < size ==> !tables.reaches(size),
{
}

/// How many pairs of the given kind a run of transactions holds.
pub open spec fn pairs_in_all(transactions: Seq<Transaction>, kind: EventKind) -> nat
    decreases transactions.len(),
{
    if transactions.len() == 0 {
        0
    } else {
        pairs_in_all(transactions.drop_last(), kind) + pair_positions(
            transactions.last(),
            kind,
        ).len()
    }
}

/// Of two runs of rows, one after the other, as many are of a kind as of the
/// two runs together.
pub proof fn lemma_count_kind_concat(a: Seq<RowView>, b: Seq<RowView>, kind: EventKind)
    ensures
        count_kind(a + b, kind) == count_kind(a, kind) + count_kind(b, kind),
    decreases b.len(),
{
    if b.len() == 0 {
        assert(a + b =~= a);
    } else {
        lemma_count_kind_concat(a, b.drop_last(), kind);
        assert((a + b).drop_last() =~= a + b.drop_last());
        assert((a + b).last() == b.last());
    }
}

/// For each kind of event, a run of transactions yields as many rows as it
/// holds pairs of that kind, over all its transactions.
pub proof fn lemma_rows_count_pairs_in_all(transactions: Seq<Transaction>, kind: EventKind)
    ensures
        count_kind(rows_of_all(transactions), kind) == pairs_in_all(transactions, kind),
    decreases transactions.len(),
{
    if transactions.len() > 0 {
        lemma_rows_count_pairs_in_all(transactions.drop_last(), kind);
        lemma_rows_count_pairs(transactions.last(), kind);
        lemma_count_kind_concat(
            rows_of_all(transactions.drop_last()),
            rows_of(transactions.last()),
            kind,
        );
    }
}

} // verus!
