use squirrel::block_parser::file_processor::{FileProcessor, ARCHIVE_BATCH_SIZE};
use squirrel::clickhouse_util::clickhouse_events::PumpfunMigrateEventV2;
use squirrel::clickhouse_util::insert_task::RowBatch;
use squirrel::common::async_pool::AsyncPool;
use squirrel::common::slot_meta::{read_plan, SlotMeta, SlotRange};
use squirrel::common::transaction::{Instruction, MigrationEvent, Parsed, Transaction};

fn migration(slot: u64, pairs: usize) -> Transaction {
    let mut instructions = Vec::new();
    for k in 0..pairs {
        instructions.push(Instruction {
            type_tag: "PumpFunMigrate".to_string(),
            parsed: Some(Parsed::PumpfunMigrate),
        });
        instructions.push(Instruction {
            type_tag: "PumpFunMigrateEvent".to_string(),
            parsed: Some(Parsed::PumpfunMigrationEvent(MigrationEvent {
                user: [1u8; 32],
                mint: [2u8; 32],
                mint_amount: k as u64,
                sol_amount: 2,
                pool_migration_fee: 3,
                bonding_curve: [3u8; 32],
                timestamp: 1_700_000_000,
                pool: [4u8; 32],
            })),
        });
    }
    Transaction { signature: [5u8; 64], slot, index: 0, instructions }
}

#[test]
fn test_file_processor_creation() {
    let processor = FileProcessor::new(5);
    assert_eq!(processor.max_concurrent_clickhouse_tasks, 5);
    assert_eq!(processor.batch_size, 1000);
    assert_eq!(ARCHIVE_BATCH_SIZE, 1000);
    assert!(processor.batches.is_empty());
    assert_eq!(processor.table_names.pumpfun_trade_event, "pumpfun_trade_event_v2");
    assert_eq!(processor.table_names.pumpfun_amm_withdraw_event, "pumpfun_amm_withdraw_event_v2");
}

#[test]
fn test_empty_index_has_nothing_to_read() {
    let mut processor = FileProcessor::new(1);
    let mut pool = AsyncPool::new(1);
    let empty_slots: Vec<SlotMeta> = vec![];
    assert!(FileProcessor::ranges_to_read(&empty_slots).is_empty());
    assert!(processor.flush_all_batches(&mut pool).is_empty());
}

#[test]
fn test_index_with_unreadable_slots() {
    let invalid_slots = vec![
        SlotMeta { slot: 1000, offset: None, size: 100 },
        SlotMeta { slot: 1001, offset: Some(1000000), size: 100 },
    ];
    let plan = FileProcessor::ranges_to_read(&invalid_slots);
    assert_eq!(plan, vec![SlotRange { slot: 1001, offset: 1000000, size: 100 }]);
    // What lies at such a range in a small file does not decode: the slot is
    // passed over.
    assert_eq!(FileProcessor::unpack(b"small binary data"), None);
    assert_eq!(FileProcessor::unpack(b""), None);
}

#[test]
fn test_entries_without_offset_are_skipped() {
    let index = vec![
        SlotMeta { slot: 1, offset: Some(0), size: 10 },
        SlotMeta { slot: 2, offset: None, size: 0 },
        SlotMeta { slot: 3, offset: None, size: 7 },
        SlotMeta { slot: 4, offset: Some(10), size: 0 },
    ];
    assert_eq!(
        read_plan(&index),
        vec![
            SlotRange { slot: 1, offset: 0, size: 10 },
            SlotRange { slot: 4, offset: 10, size: 0 }
        ]
    );
    assert_eq!(index[1].range(), None);
    assert_eq!(index[0].range(), Some(SlotRange { slot: 1, offset: 0, size: 10 }));
    let none: Vec<SlotMeta> =
        (0..5).map(|slot| SlotMeta { slot, offset: None, size: 1 }).collect();
    assert!(read_plan(&none).is_empty());
}

#[test]
fn test_unpack_decodes_zstd_frames() {
    let plain: Vec<u8> = (0..2000u32).map(|i| (i % 7) as u8).collect();
    let packed = zstd::stream::encode_all(&plain[..], 3).unwrap();
    assert_ne!(packed, plain);
    assert_eq!(FileProcessor::unpack(&packed), Some(plain.clone()));
    let mut broken = packed.clone();
    broken.truncate(packed.len() / 2);
    assert_eq!(FileProcessor::unpack(&broken), None);
    assert_eq!(FileProcessor::unpack(&plain), None);
}

#[test]
fn test_flush_when_threshold_is_exactly_reached() {
    let mut processor = FileProcessor::new(3);
    let mut pool = AsyncPool::new(3);
    // 999 rows: not yet.
    let tasks = processor.handle_block(&vec![migration(1, 500), migration(2, 499)], &mut pool);
    assert!(tasks.is_empty());
    assert_eq!(processor.batches.pumpfun_migrate_event.len(), 999);
    // The row that makes it 1000 triggers the flush of everything.
    let tasks = processor.handle_block(&vec![migration(3, 1)], &mut pool);
    assert_eq!(tasks.len(), 1);
    assert_eq!(tasks[0].table, "pumpfun_migrate_event_v2");
    assert_eq!(tasks[0].rows.len(), 1000);
    assert!(processor.batches.is_empty());
    // The insert waits in the pool; the flush did not wait for it.
    assert_eq!((pool.waiting_tasks(), pool.active_tasks()), (1, 0));
    match &tasks[0].rows {
        RowBatch::Migrate(rows) => {
            let rows: &Vec<PumpfunMigrateEventV2> = rows;
            assert_eq!(rows[0].slot, 1);
            assert_eq!(rows[0].instruction_index, 1);
            assert_eq!(rows[1].instruction_index, 3);
            assert_eq!(rows[499].slot, 1);
            assert_eq!(rows[500].slot, 2);
            assert_eq!(rows[999].slot, 3);
            assert_eq!(rows[999].mint_amount, 0);
        },
        _ => panic!("rows of another table"),
    }
}

#[test]
fn test_block_is_taken_whole_before_the_check() {
    let mut processor = FileProcessor::new(3);
    let mut pool = AsyncPool::new(3);
    let tasks = processor.handle_block(&vec![migration(1, 700), migration(2, 700)], &mut pool);
    assert_eq!(tasks.len(), 1);
    assert_eq!(tasks[0].rows.len(), 1400);
    assert!(processor.check_and_flush_batches(&mut pool).is_empty());
}

#[test]
fn test_final_drain_flushes_below_threshold() {
    let mut processor = FileProcessor::new(3);
    let mut pool = AsyncPool::new(3);
    assert!(processor.handle_block(&vec![migration(1, 3)], &mut pool).is_empty());
    assert!(processor.check_and_flush_batches(&mut pool).is_empty());
    let tasks = processor.flush_all_batches(&mut pool);
    assert_eq!(tasks.len(), 1);
    assert_eq!(tasks[0].rows.len(), 3);
    assert!(processor.flush_all_batches(&mut pool).is_empty());
}

#[test]
fn test_submit_clickhouse_inserts_names_tables_in_order() {
    let mut pool = AsyncPool::new(3);
    let mut rows = squirrel::transaction_subscriber::transaction_processor::ProcessedEvents::from_transaction(
        &migration(1, 2),
    );
    let migrate = std::mem::take(&mut rows.pumpfun_migrate_event);
    let tasks = FileProcessor::submit_clickhouse_inserts(
        vec![],
        vec![],
        migrate.clone(),
        vec![],
        vec![],
        vec![],
        vec![],
        vec![],
        &mut pool,
    );
    assert_eq!(pool.waiting_tasks(), 1);
    assert_eq!(tasks.len(), 1);
    assert_eq!(tasks[0].table, "pumpfun_migrate_event_v2");
    assert_eq!(tasks[0].rows, RowBatch::Migrate(migrate));
    let none = FileProcessor::submit_clickhouse_inserts(
        vec![],
        vec![],
        vec![],
        vec![],
        vec![],
        vec![],
        vec![],
        vec![],
        &mut pool,
    );
    assert!(none.is_empty());
    assert_eq!(pool.waiting_tasks(), 1);
}
