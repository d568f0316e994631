use squirrel::clickhouse_util::clickhouse_events::{
    PumpfunAmmBuyEventV2, PumpfunAmmCreatePoolEventV2, PumpfunAmmDepositEventV2,
    PumpfunAmmSellEventV2, PumpfunAmmWithdrawEventV2, PumpfunCreateEventV2,
    PumpfunMigrateEventV2, PumpfunTradeEventV2,
};
use squirrel::clickhouse_util::convert_transaction::{classify, TransactionConverter};
use squirrel::clickhouse_util::clickhouse_events::EventKind;
use squirrel::common::transaction::{
    key_from_bytes, signature_from_bytes, AmmBuy, AmmBuyAccounts, AmmBuyEvent, CreateEvent,
    Instruction, MigrationEvent, Parsed, TradeEvent, Transaction,
};

struct Tables {
    trade: Vec<PumpfunTradeEventV2>,
    create: Vec<PumpfunCreateEventV2>,
    migrate: Vec<PumpfunMigrateEventV2>,
    buy: Vec<PumpfunAmmBuyEventV2>,
    sell: Vec<PumpfunAmmSellEventV2>,
    create_pool: Vec<PumpfunAmmCreatePoolEventV2>,
    deposit: Vec<PumpfunAmmDepositEventV2>,
    withdraw: Vec<PumpfunAmmWithdrawEventV2>,
}

impl Tables {
    fn new() -> Self {
        Tables {
            trade: Vec::new(),
            create: Vec::new(),
            migrate: Vec::new(),
            buy: Vec::new(),
            sell: Vec::new(),
            create_pool: Vec::new(),
            deposit: Vec::new(),
            withdraw: Vec::new(),
        }
    }

    fn total(&self) -> usize {
        self.trade.len()
            + self.create.len()
            + self.migrate.len()
            + self.buy.len()
            + self.sell.len()
            + self.create_pool.len()
            + self.deposit.len()
            + self.withdraw.len()
    }
}

fn run(tx: &Transaction) -> Tables {
    let mut t = Tables::new();
    TransactionConverter::convert(
        tx,
        &mut t.trade,
        &mut t.create,
        &mut t.migrate,
        &mut t.buy,
        &mut t.sell,
        &mut t.create_pool,
        &mut t.deposit,
        &mut t.withdraw,
    );
    t
}

fn trade_event(mint: [u8; 32], sol_amount: u64, is_buy: bool) -> TradeEvent {
    TradeEvent {
        mint,
        sol_amount,
        token_amount: 5,
        is_buy,
        user: [2u8; 32],
        timestamp: 1_700_000_000,
        virtual_sol_reserves: 11,
        virtual_token_reserves: 12,
        real_sol_reserves: 13,
        real_token_reserves: 14,
        fee_recipient: [3u8; 32],
        fee_basis_points: 15,
        fee: 16,
        creator: [4u8; 32],
        creator_fee_basis_points: 17,
        creator_fee: 18,
        track_volume: true,
        total_unclaimed_tokens: 19,
        total_claimed_tokens: 20,
        current_sol_volume: 21,
        last_update_timestamp: -22,
    }
}

fn call(tag: &str) -> Instruction {
    let parsed = match tag {
        "PumpFunBuy" => Parsed::PumpfunBuy,
        "PumpFunSell" => Parsed::PumpfunSell,
        "PumpFunCreate" => Parsed::PumpfunCreate,
        "PumpFunMigrate" => Parsed::PumpfunMigrate,
        _ => Parsed::Other,
    };
    Instruction { type_tag: tag.to_string(), parsed: Some(parsed) }
}

fn trade_instruction(sol_amount: u64) -> Instruction {
    Instruction {
        type_tag: "PumpFunTradeEvent".to_string(),
        parsed: Some(Parsed::PumpfunTradeEvent(trade_event([1u8; 32], sol_amount, true))),
    }
}

fn transaction(instructions: Vec<Instruction>) -> Transaction {
    Transaction { signature: [9u8; 64], slot: 362690000, index: 7, instructions }
}

#[test]
fn test_single_trade_pair() {
    let tx = transaction(vec![call("PumpFunBuy"), trade_instruction(1000)]);
    let t = run(&tx);
    assert_eq!(t.total(), 1);
    assert_eq!(t.trade.len(), 1);
    let row = &t.trade[0];
    assert_eq!(row.instruction_index, 1);
    assert_eq!(row.transaction_index, 7);
    assert_eq!(row.slot, 362690000);
    assert_eq!(row.is_buy, 1);
    assert_eq!(row.track_volume, 1);
    assert_eq!(row.sol_amount, 1000);
    assert_eq!(row.token_amount, 5);
    assert_eq!(row.timestamp, 1_700_000_000);
    assert_eq!(row.last_update_timestamp, -22);
    assert_eq!(row.mint, bs58::encode([1u8; 32]).into_string());
    assert_eq!(row.mint, "4vJ9JU1bJJE96FWSJKvHsmmFADCg4gpZQff4P3bkLKi");
    assert_eq!(row.user, bs58::encode([2u8; 32]).into_string());
    assert_eq!(row.signature, bs58::encode([9u8; 64]).into_string());
    assert_ne!(row.signature, row.mint);
}

#[test]
fn test_unpaired_leading_event() {
    let tx = transaction(vec![trade_instruction(1000)]);
    assert_eq!(run(&tx).total(), 0);
}

#[test]
fn test_empty_instruction_list() {
    let tx = transaction(vec![]);
    assert_eq!(run(&tx).total(), 0);
}

#[test]
fn test_second_of_two_events_is_dropped() {
    let tx = transaction(vec![call("PumpFunBuy"), trade_instruction(1), trade_instruction(2)]);
    let t = run(&tx);
    assert_eq!(t.trade.len(), 1);
    assert_eq!(t.trade[0].sol_amount, 1);
    assert_eq!(t.trade[0].instruction_index, 1);
}

#[test]
fn test_only_the_call_just_before_counts() {
    // Two calls, then two events: the first event takes the second call, the
    // second event finds none.
    let tx = transaction(vec![
        call("PumpFunBuy"),
        call("PumpFunSell"),
        trade_instruction(1),
        trade_instruction(2),
    ]);
    let t = run(&tx);
    assert_eq!(t.trade.len(), 1);
    assert_eq!(t.trade[0].instruction_index, 2);
}

#[test]
fn test_rows_keep_instruction_order_and_existing_rows() {
    let tx = transaction(vec![
        call("PumpFunBuy"),
        trade_instruction(10),
        call("Transfer"),
        call("PumpFunSell"),
        trade_instruction(20),
    ]);
    let mut t = run(&tx);
    assert_eq!(t.trade.len(), 2);
    TransactionConverter::convert(
        &tx,
        &mut t.trade,
        &mut t.create,
        &mut t.migrate,
        &mut t.buy,
        &mut t.sell,
        &mut t.create_pool,
        &mut t.deposit,
        &mut t.withdraw,
    );
    let got: Vec<(u32, u64)> = t.trade.iter().map(|r| (r.instruction_index, r.sol_amount)).collect();
    assert_eq!(got, vec![(1, 10), (4, 20), (1, 10), (4, 20)]);
}

#[test]
fn test_event_without_payload_or_with_call_without_payload() {
    let bare_event = Instruction { type_tag: "PumpFunTradeEvent".to_string(), parsed: None };
    assert_eq!(run(&transaction(vec![call("PumpFunBuy"), bare_event])).total(), 0);
    let bare_call = Instruction { type_tag: "PumpFunBuy".to_string(), parsed: None };
    assert_eq!(run(&transaction(vec![bare_call, trade_instruction(1)])).total(), 0);
}

#[test]
fn test_tag_and_payload_must_agree() {
    let odd = Instruction {
        type_tag: "PumpFunCreateEvent".to_string(),
        parsed: Some(Parsed::PumpfunTradeEvent(trade_event([1u8; 32], 1, true))),
    };
    assert_eq!(run(&transaction(vec![call("PumpFunCreate"), odd])).total(), 0);
}

fn buy_event() -> AmmBuyEvent {
    AmmBuyEvent {
        timestamp: (1i64 << 32) + 5,
        base_amount_out: 1,
        max_quote_amount_in: 2,
        user_base_token_reserves: 3,
        user_quote_token_reserves: 4,
        pool_base_token_reserves: 5,
        pool_quote_token_reserves: 6,
        quote_amount_in: 7,
        lp_fee_basis_points: 8,
        lp_fee: 9,
        protocol_fee_basis_points: 10,
        protocol_fee: 11,
        quote_amount_in_with_lp_fee: 12,
        user_quote_amount_in: 13,
        coin_creator: [40u8; 32],
        coin_creator_fee_basis_points: 14,
        coin_creator_fee: 15,
        track_volume: false,
        total_unclaimed_tokens: 16,
        total_claimed_tokens: 17,
        current_sol_volume: 18,
        last_update_timestamp: 19,
    }
}

fn buy_accounts() -> AmmBuyAccounts {
    AmmBuyAccounts {
        base_mint: [31u8; 32],
        quote_mint: [32u8; 32],
        pool: [33u8; 32],
        user: [34u8; 32],
        user_base_token_account: [35u8; 32],
        user_quote_token_account: [36u8; 32],
        protocol_fee_recipient: [37u8; 32],
        protocol_fee_recipient_token_account: [38u8; 32],
    }
}

fn buy_pair(accounts: Option<AmmBuyAccounts>) -> Vec<Instruction> {
    vec![
        Instruction {
            type_tag: "PumpFunAmmBuy".to_string(),
            parsed: Some(Parsed::PumpfunAmmBuy(AmmBuy { accounts, is_main_pool: true })),
        },
        Instruction {
            type_tag: "PumpFunAmmBuyEvent".to_string(),
            parsed: Some(Parsed::PumpfunAmmBuyEvent(buy_event())),
        },
    ]
}

#[test]
fn test_amm_buy_pair() {
    let t = run(&transaction(buy_pair(Some(buy_accounts()))));
    assert_eq!(t.total(), 1);
    let row = &t.buy[0];
    assert_eq!(row.is_main_pool, 1);
    assert_eq!(row.track_volume, 0);
    assert_eq!(row.timestamp, 5);
    assert_eq!(row.base_mint, bs58::encode([31u8; 32]).into_string());
    assert_eq!(row.pool, bs58::encode([33u8; 32]).into_string());
    assert_eq!(row.coin_creator, bs58::encode([40u8; 32]).into_string());
    assert_eq!(row.user_quote_amount_in, 13);
    assert_eq!(row.instruction_index, 1);
}

#[test]
fn test_amm_buy_needs_accounts_and_its_own_call() {
    assert_eq!(run(&transaction(buy_pair(None))).total(), 0);
    let mut list = buy_pair(Some(buy_accounts()));
    list[0] = call("PumpFunAmmSell");
    assert_eq!(run(&transaction(list)).total(), 0);
}

#[test]
fn test_classify_tags() {
    assert_eq!(classify("PumpFunTradeEvent"), Some(EventKind::Trade));
    assert_eq!(classify("PumpFunCreateEvent"), Some(EventKind::Create));
    assert_eq!(classify("PumpFunMigrateEvent"), Some(EventKind::Migrate));
    assert_eq!(classify("PumpFunAmmBuyEvent"), Some(EventKind::AmmBuy));
    assert_eq!(classify("PumpFunAmmSellEvent"), Some(EventKind::AmmSell));
    assert_eq!(classify("PumpFunAmmDepositEvent"), Some(EventKind::AmmDeposit));
    assert_eq!(classify("PumpFunAmmWithdrawEvent"), Some(EventKind::AmmWithdraw));
    assert_eq!(classify("PumpFunAmmCreatePoolEvent"), Some(EventKind::AmmCreatePool));
    assert_eq!(classify("PumpFunBuy"), None);
    assert_eq!(classify("pumpfuntradeevent"), None);
    assert_eq!(classify(""), None);
}

#[test]
fn test_as_many_rows_as_pairs() {
    // Pairs at positions (0, 1), (3, 4) and (7, 8); the events at 5 and 9
    // follow an event, and the event at 2 follows one too.
    let tx = transaction(vec![
        call("PumpFunBuy"),
        trade_instruction(1),
        trade_instruction(2),
        call("PumpFunSell"),
        trade_instruction(3),
        trade_instruction(4),
        call("PumpFunBuy"),
        call("PumpFunSell"),
        trade_instruction(5),
        trade_instruction(6),
        call("C"),
    ]);
    let t = run(&tx);
    let got: Vec<(u32, u64)> = t.trade.iter().map(|r| (r.instruction_index, r.sol_amount)).collect();
    assert_eq!(got, vec![(1, 1), (4, 3), (8, 5)]);
    assert_eq!(t.total(), 3);
}

fn create_instruction() -> Instruction {
    Instruction {
        type_tag: "PumpFunCreateEvent".to_string(),
        parsed: Some(Parsed::PumpfunCreateEvent(CreateEvent {
            name: "Coin".to_string(),
            symbol: "CN".to_string(),
            uri: "u".to_string(),
            mint: [1u8; 32],
            bonding_curve: [2u8; 32],
            user: [3u8; 32],
            creator: [4u8; 32],
            timestamp: 9,
            virtual_token_reserves: 1,
            virtual_sol_reserves: 2,
            real_token_reserves: 3,
            token_total_supply: 4,
        })),
    }
}

fn migrate_instruction() -> Instruction {
    Instruction {
        type_tag: "PumpFunMigrateEvent".to_string(),
        parsed: Some(Parsed::PumpfunMigrationEvent(MigrationEvent {
            user: [1u8; 32],
            mint: [2u8; 32],
            mint_amount: 1,
            sol_amount: 2,
            pool_migration_fee: 3,
            bonding_curve: [3u8; 32],
            timestamp: 4,
            pool: [4u8; 32],
        })),
    }
}

#[test]
fn test_event_after_call_of_another_kind_yields_no_row() {
    // A purchase from a pool, with its accounts, is not the call of a trade on
    // a bonding curve.
    let mut list = buy_pair(Some(buy_accounts()));
    list[1] = trade_instruction(1000);
    assert_eq!(run(&transaction(list)).total(), 0);

    for other in ["PumpFunCreate", "PumpFunMigrate", "Transfer", "PumpFunAmmSell"] {
        assert_eq!(run(&transaction(vec![call(other), trade_instruction(1)])).total(), 0);
    }
    for other in ["PumpFunBuy", "PumpFunSell", "PumpFunMigrate", "Transfer"] {
        assert_eq!(run(&transaction(vec![call(other), create_instruction()])).total(), 0);
    }
    for other in ["PumpFunBuy", "PumpFunSell", "PumpFunCreate", "Transfer"] {
        assert_eq!(run(&transaction(vec![call(other), migrate_instruction()])).total(), 0);
    }
    // The payload of the call decides, not its tag.
    let mislabelled = Instruction { type_tag: "PumpFunBuy".to_string(), parsed: Some(Parsed::Other) };
    assert_eq!(run(&transaction(vec![mislabelled, trade_instruction(1)])).total(), 0);
}

#[test]
fn test_each_event_pairs_with_its_own_call() {
    let t = run(&transaction(vec![call("PumpFunSell"), trade_instruction(7)]));
    assert_eq!((t.trade.len(), t.total()), (1, 1));
    let t = run(&transaction(vec![call("PumpFunCreate"), create_instruction()]));
    assert_eq!((t.create.len(), t.total()), (1, 1));
    assert_eq!(t.create[0].name, "Coin");
    let t = run(&transaction(vec![call("PumpFunMigrate"), migrate_instruction()]));
    assert_eq!((t.migrate.len(), t.total()), (1, 1));
    assert_eq!(t.migrate[0].instruction_index, 1);
}

#[test]
fn test_keys_and_signatures_from_bytes() {
    let bytes: Vec<u8> = (0..64u8).collect();
    let key = key_from_bytes(&bytes[..32]).unwrap();
    assert_eq!(&key[..], &bytes[..32]);
    assert_eq!(key_from_bytes(&bytes[..31]), None);
    assert_eq!(key_from_bytes(&bytes[..33]), None);
    assert_eq!(key_from_bytes(&[]), None);
    let signature = signature_from_bytes(&bytes).unwrap();
    assert_eq!(&signature[..], &bytes[..]);
    assert_eq!(signature_from_bytes(&bytes[..63]), None);
    assert_eq!(signature_from_bytes(&bytes[..32]), None);
}
