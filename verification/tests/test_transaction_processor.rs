use squirrel::clickhouse_util::insert_task::{RowBatch, TableNames};
use squirrel::common::async_pool::AsyncPool;
use squirrel::common::transaction::{
    CreateEvent, Instruction, Parsed, TradeEvent, Transaction,
};
use squirrel::transaction_subscriber::transaction_processor::{
    BatchAccumulator, PeriodCounters, ProcessedEvents, ProcessingStats, TransactionProcessor,
    BATCH_SIZE, FLUSH_INTERVAL_MS,
};

fn trade(sol_amount: u64) -> Parsed {
    Parsed::PumpfunTradeEvent(TradeEvent {
        mint: [1u8; 32],
        sol_amount,
        token_amount: 5,
        is_buy: false,
        user: [2u8; 32],
        timestamp: 1,
        virtual_sol_reserves: 11,
        virtual_token_reserves: 12,
        real_sol_reserves: 13,
        real_token_reserves: 14,
        fee_recipient: [3u8; 32],
        fee_basis_points: 15,
        fee: 16,
        creator: [4u8; 32],
        creator_fee_basis_points: 17,
        creator_fee: 18,
        track_volume: false,
        total_unclaimed_tokens: 19,
        total_claimed_tokens: 20,
        current_sol_volume: 21,
        last_update_timestamp: 22,
    })
}

fn create() -> Parsed {
    Parsed::PumpfunCreateEvent(CreateEvent {
        name: "Coin".to_string(),
        symbol: "CN".to_string(),
        uri: "https://example.org/coin".to_string(),
        mint: [1u8; 32],
        bonding_curve: [2u8; 32],
        user: [3u8; 32],
        creator: [4u8; 32],
        timestamp: 99,
        virtual_token_reserves: 1,
        virtual_sol_reserves: 2,
        real_token_reserves: 3,
        token_total_supply: 4,
    })
}

fn tx(trades: usize, creates: usize) -> Transaction {
    let mut instructions = Vec::new();
    for k in 0..trades {
        instructions
            .push(Instruction { type_tag: "PumpFunSell".to_string(), parsed: Some(Parsed::PumpfunSell) });
        instructions.push(Instruction {
            type_tag: "PumpFunTradeEvent".to_string(),
            parsed: Some(trade(k as u64)),
        });
    }
    for _ in 0..creates {
        instructions
            .push(Instruction { type_tag: "PumpFunCreate".to_string(), parsed: Some(Parsed::PumpfunCreate) });
        instructions
            .push(Instruction { type_tag: "PumpFunCreateEvent".to_string(), parsed: Some(create()) });
    }
    Transaction { signature: [8u8; 64], slot: 10, index: 3, instructions }
}

fn names() -> TableNames {
    let mut names = TableNames::default();
    names.pumpfun_trade_event = "trades".to_string();
    names
}

#[test]
fn test_constants() {
    assert_eq!(BATCH_SIZE, 100);
    assert_eq!(FLUSH_INTERVAL_MS, 100);
}

#[test]
fn test_process_transaction_sends_rows_only_when_there_are_any() {
    let processor = TransactionProcessor::new(10, names());
    let (stats, events) = processor.process_transaction(&tx(0, 0), 120, 7);
    assert_eq!(stats, ProcessingStats { payload_size: 120, processing_time_micros: 7 });
    assert!(events.is_none());
    let (stats, events) = processor.process_transaction(&tx(2, 1), 64, 9);
    assert_eq!(stats.payload_size, 64);
    let events = events.unwrap();
    assert_eq!(events.pumpfun_trade_event.len(), 2);
    assert_eq!(events.pumpfun_create_event.len(), 1);
    assert_eq!(events.pumpfun_create_event[0].name, "Coin");
    assert_eq!(events.pumpfun_create_event[0].uri, "https://example.org/coin");
    assert_eq!(events.pumpfun_create_event[0].instruction_index, 5);
    assert_eq!(events.row_count(), 3);
    assert!(!events.is_empty());
}

#[test]
fn test_accumulator_add_take_and_threshold() {
    let mut batches = BatchAccumulator::default();
    assert!(batches.is_empty());
    assert!(!batches.should_flush());
    batches.add(ProcessedEvents::from_transaction(&tx(60, 2)));
    batches.add(ProcessedEvents::from_transaction(&tx(39, 0)));
    assert_eq!(batches.pumpfun_trade_event.len(), 99);
    assert_eq!(batches.pumpfun_trade_event[60].sol_amount, 0);
    assert!(!batches.should_flush());
    assert!(batches.reaches(99));
    batches.add(ProcessedEvents::from_transaction(&tx(1, 0)));
    assert!(batches.should_flush());
    let taken = batches.take();
    assert!(batches.is_empty());
    assert_eq!(taken.pumpfun_trade_event.len(), 100);
    assert_eq!(taken.pumpfun_create_event.len(), 2);
    assert!(ProcessedEvents::default().is_empty());
}

#[test]
fn test_flush_batches_makes_one_task_per_table_with_rows() {
    let mut pool = AsyncPool::new(10);
    let mut batches = BatchAccumulator::default();
    batches.add(ProcessedEvents::from_transaction(&tx(2, 1)));
    let (tasks, total) = TransactionProcessor::flush_batches(&mut batches, &mut pool, &names());
    assert_eq!(total, 3);
    assert_eq!(tasks.len(), 2);
    assert_eq!(tasks[0].table, "trades");
    assert_eq!(tasks[0].rows.len(), 2);
    assert_eq!(tasks[1].table, "pumpfun_create_event_v2");
    assert!(matches!(tasks[1].rows, RowBatch::Create(_)));
    assert!(batches.is_empty());
    assert_eq!((pool.waiting_tasks(), pool.active_tasks()), (2, 0));
    let (tasks, total) = TransactionProcessor::flush_batches(&mut batches, &mut pool, &names());
    assert_eq!((tasks.len(), total), (0, 0));
    assert_eq!(pool.waiting_tasks(), 2);
}

#[test]
fn test_flusher_flushes_on_the_call_that_reaches_the_threshold() {
    let processor = TransactionProcessor::new(10, names());
    let mut flusher = processor.flusher(60);
    let mut pool = AsyncPool::new(10);
    assert!(flusher.on_events(ProcessedEvents::from_transaction(&tx(99, 1)), &mut pool).is_empty());
    assert_eq!(flusher.period.events, 1);
    assert_eq!(flusher.period.rows_flushed, 0);
    let tasks = flusher.on_events(ProcessedEvents::from_transaction(&tx(1, 0)), &mut pool);
    assert_eq!(tasks.len(), 2);
    assert_eq!(tasks[0].rows.len(), 100);
    assert_eq!(tasks[1].rows.len(), 1);
    assert!(flusher.batches.is_empty());
    assert_eq!(flusher.period.events, 2);
    assert_eq!(flusher.period.rows_flushed, 101);
}

#[test]
fn test_flusher_tick_flushes_below_threshold_and_summarizes() {
    let processor = TransactionProcessor::new(10, names());
    let mut flusher = processor.flusher(60);
    let mut pool = AsyncPool::new(10);
    flusher.on_stats(ProcessingStats { payload_size: 100, processing_time_micros: 30 });
    flusher.on_stats(ProcessingStats { payload_size: 50, processing_time_micros: 10 });
    assert!(flusher.on_events(ProcessedEvents::from_transaction(&tx(3, 0)), &mut pool).is_empty());

    let (tasks, summary) = flusher.on_tick(59, &mut pool);
    assert_eq!(tasks.len(), 1);
    assert_eq!(tasks[0].rows.len(), 3);
    assert!(summary.is_none());
    assert_eq!(flusher.period.rows_flushed, 3);

    let (tasks, summary) = flusher.on_tick(60, &mut pool);
    assert!(tasks.is_empty());
    assert_eq!(
        summary,
        Some(PeriodCounters {
            transactions: 2,
            events: 1,
            rows_flushed: 3,
            bytes_received: 150,
            processing_time_micros: 40,
        })
    );
    assert_eq!(flusher.period, PeriodCounters::new());
    assert_eq!(flusher.summary_interval_secs, 60);
}

#[test]
fn test_flushes_never_run_more_inserts_than_the_pool_allows() {
    let processor = TransactionProcessor::new(3, names());
    let mut flusher = processor.flusher(60);
    let mut pool = AsyncPool::new(processor.max_concurrent_clickhouse_tasks);
    let mut submitted = 0;
    let mut ended = 0;
    for round in 0..20 {
        submitted += flusher.on_events(ProcessedEvents::from_transaction(&tx(100, 1)), &mut pool).len();
        assert_eq!(pool.waiting_tasks() + pool.active_tasks() + ended, submitted);
        while pool.start_next() {}
        assert!(pool.active_tasks() <= 3);
        if round % 2 == 1 {
            pool.complete();
            ended += 1;
        }
    }
    assert_eq!(submitted, 40);
    while !pool.is_drained() {
        while pool.start_next() {}
        assert!(pool.active_tasks() <= 3);
        pool.complete();
        ended += 1;
    }
    assert_eq!(ended, 40);
    assert_eq!(pool.completed_tasks(), 40);
}
