//! The extractor: walks the instructions of one transaction, pairs each event
//! with the call just before it, and appends one row per pair to the table of
//! the event's kind.

use vstd::prelude::*;
use crate::clickhouse_util::clickhouse_events::{
    views, AmmBuyRow, AmmCreatePoolRow, AmmDepositRow, AmmSellRow, AmmWithdrawRow, CreateRow,
    EventKind, EventRow, MigrateRow, PumpfunAmmBuyEventV2, PumpfunAmmCreatePoolEventV2,
    PumpfunAmmDepositEventV2, PumpfunAmmSellEventV2, PumpfunAmmWithdrawEventV2,
    PumpfunCreateEventV2, PumpfunMigrateEventV2, PumpfunTradeEventV2, RowView, TradeRow,
};
use crate::clickhouse_util::tables::Tables;
use crate::common::base58::{base58_encode, base58_text};
use crate::common::text::same_text;
use crate::common::transaction::{
    AmmBuy, AmmBuyAccounts, AmmBuyEvent, AmmCreatePool, AmmCreatePoolAccounts,
    AmmCreatePoolEvent, AmmDeposit, AmmDepositAccounts, AmmDepositEvent, AmmSell,
    AmmSellAccounts, AmmSellEvent, AmmWithdraw, AmmWithdrawAccounts, AmmWithdrawEvent,
    CreateEvent, Instruction, MigrationEvent, Parsed, TradeEvent, Transaction,
};

verus! {

/// The kind of event that a type tag names, if it names one.
pub open spec fn event_kind(tag: Seq<char>) -> Option<EventKind> {
    if tag == "PumpFunTradeEvent"@ {
        Some(EventKind::Trade)
    } else if tag == "PumpFunCreateEvent"@ {
        Some(EventKind::Create)
    } else if tag == "PumpFunMigrateEvent"@ {
        Some(EventKind::Migrate)
    } else if tag == "PumpFunAmmBuyEvent"@ {
        Some(EventKind::AmmBuy)
    } else if tag == "PumpFunAmmSellEvent"@ {
        Some(EventKind::AmmSell)
    } else if tag == "PumpFunAmmDepositEvent"@ {
        Some(EventKind::AmmDeposit)
    } else if tag == "PumpFunAmmWithdrawEvent"@ {
        Some(EventKind::AmmWithdraw)
    } else if tag == "PumpFunAmmCreatePoolEvent"@ {
        Some(EventKind::AmmCreatePool)
    } else {
        None
    }
}

/// Whether an instruction is an event: a log record, told by its type tag.
pub open spec fn is_event(instruction: Instruction) -> bool {
    event_kind(instruction.type_tag@) is Some
}

/// The kind of event that `tag` names, if it names one.
pub fn classify(tag: &str) -> (kind: Option<EventKind>)
    ensures
        kind == event_kind(tag@),
{
    if same_text(tag, "PumpFunTradeEvent") {
        Some(EventKind::Trade)
    } else if same_text(tag, "PumpFunCreateEvent") {
        Some(EventKind::Create)
    } else if same_text(tag, "PumpFunMigrateEvent") {
        Some(EventKind::Migrate)
    } else if same_text(tag, "PumpFunAmmBuyEvent") {
        Some(EventKind::AmmBuy)
    } else if same_text(tag, "PumpFunAmmSellEvent") {
        Some(EventKind::AmmSell)
    } else if same_text(tag, "PumpFunAmmDepositEvent") {
        Some(EventKind::AmmDeposit)
    } else if same_text(tag, "PumpFunAmmWithdrawEvent") {
        Some(EventKind::AmmWithdraw)
    } else if same_text(tag, "PumpFunAmmCreatePoolEvent") {
        Some(EventKind::AmmCreatePool)
    } else {
        None
    }
}

/// The byte that stands for a flag in a row: 1 for true, 0 for false.
pub open spec fn flag(value: bool) -> u8 {
    if value {
        1
    } else {
        0
    }
}

fn flag_byte(value: bool) -> (byte: u8)
    ensures
        byte == flag(value),
{
    if value {
        1
    } else {
        0
    }
}

/// The row that records a trade on a bonding curve: the event at position `index` of `tx`.
pub open spec fn trade_row(tx: Transaction, index: usize, event: TradeEvent) -> TradeRow {
    TradeRow {
        signature: base58_text(tx.signature@),
        slot: tx.slot,
        transaction_index: tx.index as u32,
        instruction_index: index as u32,
        mint: base58_text(event.mint@),
        sol_amount: event.sol_amount,
        token_amount: event.token_amount,
        is_buy: flag(event.is_buy),
        user: base58_text(event.user@),
        timestamp: event.timestamp as u32,
        virtual_sol_reserves: event.virtual_sol_reserves,
        virtual_token_reserves: event.virtual_token_reserves,
        real_sol_reserves: event.real_sol_reserves,
        real_token_reserves: event.real_token_reserves,
        fee_recipient: base58_text(event.fee_recipient@),
        fee_basis_points: event.fee_basis_points,
        fee: event.fee,
        creator: base58_text(event.creator@),
        creator_fee_basis_points: event.creator_fee_basis_points,
        creator_fee: event.creator_fee,
        track_volume: flag(event.track_volume),
        total_unclaimed_tokens: event.total_unclaimed_tokens,
        total_claimed_tokens: event.total_claimed_tokens,
        current_sol_volume: event.current_sol_volume,
        last_update_timestamp: event.last_update_timestamp,
    }
}

fn build_trade_row(tx: &Transaction, index: usize, event: &TradeEvent) -> (row: PumpfunTradeEventV2)
    ensures
        row@ == trade_row(*tx, index, *event),
{
    PumpfunTradeEventV2 {
        signature: base58_encode(tx.signature.as_slice()),
        slot: tx.slot,
        transaction_index: #[verifier::truncate] (tx.index as u32),
        instruction_index: #[verifier::truncate] (index as u32),
        mint: base58_encode(event.mint.as_slice()),
        sol_amount: event.sol_amount,
        token_amount: event.token_amount,
        is_buy: flag_byte(event.is_buy),
        user: base58_encode(event.user.as_slice()),
        timestamp: #[verifier::truncate] (event.timestamp as u32),
        virtual_sol_reserves: event.virtual_sol_reserves,
        virtual_token_reserves: event.virtual_token_reserves,
        real_sol_reserves: event.real_sol_reserves,
        real_token_reserves: event.real_token_reserves,
        fee_recipient: base58_encode(event.fee_recipient.as_slice()),
        fee_basis_points: event.fee_basis_points,
        fee: event.fee,
        creator: base58_encode(event.creator.as_slice()),
        creator_fee_basis_points: event.creator_fee_basis_points,
        creator_fee: event.creator_fee,
        track_volume: flag_byte(event.track_volume),
        total_unclaimed_tokens: event.total_unclaimed_tokens,
        total_claimed_tokens: event.total_claimed_tokens,
        current_sol_volume: event.current_sol_volume,
        last_update_timestamp: event.last_update_timestamp,
    }
}

/// The row that records the creation of a token: the event at position `index` of `tx`.
pub open spec fn create_row(tx: Transaction, index: usize, event: CreateEvent) -> CreateRow {
    CreateRow {
        signature: base58_text(tx.signature@),
        slot: tx.slot,
        transaction_index: tx.index as u32,
        instruction_index: index as u32,
        name: event.name@,
        symbol: event.symbol@,
        uri: event.uri@,
        mint: base58_text(event.mint@),
        bonding_curve: base58_text(event.bonding_curve@),
        user: base58_text(event.user@),
        creator: base58_text(event.creator@),
        timestamp: event.timestamp as u32,
        virtual_token_reserves: event.virtual_token_reserves,
        virtual_sol_reserves: event.virtual_sol_reserves,
        real_token_reserves: event.real_token_reserves,
        token_total_supply: event.token_total_supply,
    }
}

fn build_create_row(
    tx: &Transaction,
    index: usize,
    event: &CreateEvent,
) -> (row: PumpfunCreateEventV2)
    ensures
        row@ == create_row(*tx, index, *event),
{
    PumpfunCreateEventV2 {
        signature: base58_encode(tx.signature.as_slice()),
        slot: tx.slot,
        transaction_index: #[verifier::truncate] (tx.index as u32),
        instruction_index: #[verifier::truncate] (index as u32),
        name: event.name.clone(),
        symbol: event.symbol.clone(),
        uri: event.uri.clone(),
        mint: base58_encode(event.mint.as_slice()),
        bonding_curve: base58_encode(event.bonding_curve.as_slice()),
        user: base58_encode(event.user.as_slice()),
        creator: base58_encode(event.creator.as_slice()),
        timestamp: #[verifier::truncate] (event.timestamp as u32),
        virtual_token_reserves: event.virtual_token_reserves,
        virtual_sol_reserves: event.virtual_sol_reserves,
        real_token_reserves: event.real_token_reserves,
        token_total_supply: event.token_total_supply,
    }
}

/// The row that records the migration of a bonding curve to a pool: the event at
/// position `index` of `tx`.
pub open spec fn migrate_row(tx: Transaction, index: usize, event: MigrationEvent) -> MigrateRow {
    MigrateRow {
        signature: base58_text(tx.signature@),
        slot: tx.slot,
        transaction_index: tx.index as u32,
        instruction_index: index as u32,
        user: base58_text(event.user@),
        mint: base58_text(event.mint@),
        mint_amount: event.mint_amount,
        sol_amount: event.sol_amount,
        pool_migration_fee: event.pool_migration_fee,
        bonding_curve: base58_text(event.bonding_curve@),
        timestamp: event.timestamp as u32,
        pool: base58_text(event.pool@),
    }
}

fn build_migrate_row(
    tx: &Transaction,
    index: usize,
    event: &MigrationEvent,
) -> (row: PumpfunMigrateEventV2)
    ensures
        row@ == migrate_row(*tx, index, *event),
{
    PumpfunMigrateEventV2 {
        signature: base58_encode(tx.signature.as_slice()),
        slot: tx.slot,
        transaction_index: #[verifier::truncate] (tx.index as u32),
        instruction_index: #[verifier::truncate] (index as u32),
        user: base58_encode(event.user.as_slice()),
        mint: base58_encode(event.mint.as_slice()),
        mint_amount: event.mint_amount,
        sol_amount: event.sol_amount,
        pool_migration_fee: event.pool_migration_fee,
        bonding_curve: base58_encode(event.bonding_curve.as_slice()),
        timestamp: #[verifier::truncate] (event.timestamp as u32),
        pool: base58_encode(event.pool.as_slice()),
    }
}

/// The row that records a purchase from a pool: the event at position `index` of
/// `tx`, made by `action` on `accounts`.
pub open spec fn amm_buy_row(
    tx: Transaction,
    index: usize,
    event: AmmBuyEvent,
    action: AmmBuy,
    accounts: AmmBuyAccounts,
) -> AmmBuyRow {
    AmmBuyRow {
        signature: base58_text(tx.signature@),
        slot: tx.slot,
        transaction_index: tx.index as u32,
        instruction_index: index as u32,
        base_mint: base58_text(accounts.base_mint@),
        quote_mint: base58_text(accounts.quote_mint@),
        timestamp: event.timestamp as u32,
        base_amount_out: event.base_amount_out,
        max_quote_amount_in: event.max_quote_amount_in,
        user_base_token_reserves: event.user_base_token_reserves,
        user_quote_token_reserves: event.user_quote_token_reserves,
        pool_base_token_reserves: event.pool_base_token_reserves,
        pool_quote_token_reserves: event.pool_quote_token_reserves,
        quote_amount_in: event.quote_amount_in,
        lp_fee_basis_points: event.lp_fee_basis_points,
        lp_fee: event.lp_fee,
        protocol_fee_basis_points: event.protocol_fee_basis_points,
        protocol_fee: event.protocol_fee,
        quote_amount_in_with_lp_fee: event.quote_amount_in_with_lp_fee,
        user_quote_amount_in: event.user_quote_amount_in,
        pool: base58_text(accounts.pool@),
        user: base58_text(accounts.user@),
        user_base_token_account: base58_text(accounts.user_base_token_account@),
        user_quote_token_account: base58_text(accounts.user_quote_token_account@),
        protocol_fee_recipient: base58_text(accounts.protocol_fee_recipient@),
        protocol_fee_recipient_token_account: base58_text(accounts.protocol_fee_recipient_token_account@),
        coin_creator: base58_text(event.coin_creator@),
        coin_creator_fee_basis_points: event.coin_creator_fee_basis_points,
        coin_creator_fee: event.coin_creator_fee,
        track_volume: flag(event.track_volume),
        total_unclaimed_tokens: event.total_unclaimed_tokens,
        total_claimed_tokens: event.total_claimed_tokens,
        current_sol_volume: event.current_sol_volume,
        last_update_timestamp: event.last_update_timestamp,
        is_main_pool: flag(action.is_main_pool),
    }
}

fn build_amm_buy_row(
    tx: &Transaction,
    index: usize,
    event: &AmmBuyEvent,
    action: &AmmBuy,
    accounts: &AmmBuyAccounts,
) -> (row: PumpfunAmmBuyEventV2)
    ensures
        row@ == amm_buy_row(*tx, index, *event, *action, *accounts),
{
    PumpfunAmmBuyEventV2 {
        signature: base58_encode(tx.signature.as_slice()),
        slot: tx.slot,
        transaction_index: #[verifier::truncate] (tx.index as u32),
        instruction_index: #[verifier::truncate] (index as u32),
        base_mint: base58_encode(accounts.base_mint.as_slice()),
        quote_mint: base58_encode(accounts.quote_mint.as_slice()),
        timestamp: #[verifier::truncate] (event.timestamp as u32),
        base_amount_out: event.base_amount_out,
        max_quote_amount_in: event.max_quote_amount_in,
        user_base_token_reserves: event.user_base_token_reserves,
        user_quote_token_reserves: event.user_quote_token_reserves,
        pool_base_token_reserves: event.pool_base_token_reserves,
        pool_quote_token_reserves: event.pool_quote_token_reserves,
        quote_amount_in: event.quote_amount_in,
        lp_fee_basis_points: event.lp_fee_basis_points,
        lp_fee: event.lp_fee,
        protocol_fee_basis_points: event.protocol_fee_basis_points,
        protocol_fee: event.protocol_fee,
        quote_amount_in_with_lp_fee: event.quote_amount_in_with_lp_fee,
        user_quote_amount_in: event.user_quote_amount_in,
        pool: base58_encode(accounts.pool.as_slice()),
        user: base58_encode(accounts.user.as_slice()),
        user_base_token_account: base58_encode(accounts.user_base_token_account.as_slice()),
        user_quote_token_account: base58_encode(accounts.user_quote_token_account.as_slice()),
        protocol_fee_recipient: base58_encode(accounts.protocol_fee_recipient.as_slice()),
        protocol_fee_recipient_token_account: base58_encode(accounts.protocol_fee_recipient_token_account.as_slice()),
        coin_creator: base58_encode(event.coin_creator.as_slice()),
        coin_creator_fee_basis_points: event.coin_creator_fee_basis_points,
        coin_creator_fee: event.coin_creator_fee,
        track_volume: flag_byte(event.track_volume),
        total_unclaimed_tokens: event.total_unclaimed_tokens,
        total_claimed_tokens: event.total_claimed_tokens,
        current_sol_volume: event.current_sol_volume,
        last_update_timestamp: event.last_update_timestamp,
        is_main_pool: flag_byte(action.is_main_pool),
    }
}

/// The row that records a sale to a pool: the event at position `index` of `tx`,
/// made by `action` on `accounts`.
pub open spec fn amm_sell_row(
    tx: Transaction,
    index: usize,
    event: AmmSellEvent,
    action: AmmSell,
    accounts: AmmSellAccounts,
) -> AmmSellRow {
    AmmSellRow {
        signature: base58_text(tx.signature@),
        slot: tx.slot,
        transaction_index: tx.index as u32,
        instruction_index: index as u32,
        base_mint: base58_text(accounts.base_mint@),
        quote_mint: base58_text(accounts.quote_mint@),
        timestamp: event.timestamp as u32,
        base_amount_in: event.base_amount_in,
        min_quote_amount_out: event.min_quote_amount_out,
        user_base_token_reserves: event.user_base_token_reserves,
        user_quote_token_reserves: event.user_quote_token_reserves,
        pool_base_token_reserves: event.pool_base_token_reserves,
        pool_quote_token_reserves: event.pool_quote_token_reserves,
        quote_amount_out: event.quote_amount_out,
        lp_fee_basis_points: event.lp_fee_basis_points,
        lp_fee: event.lp_fee,
        protocol_fee_basis_points: event.protocol_fee_basis_points,
        protocol_fee: event.protocol_fee,
        quote_amount_out_without_lp_fee: event.quote_amount_out_without_lp_fee,
        user_quote_amount_out: event.user_quote_amount_out,
        pool: base58_text(accounts.pool@),
        user: base58_text(accounts.user@),
        user_base_token_account: base58_text(accounts.user_base_token_account@),
        user_quote_token_account: base58_text(accounts.user_quote_token_account@),
        protocol_fee_recipient: base58_text(accounts.protocol_fee_recipient@),
        protocol_fee_recipient_token_account: base58_text(accounts.protocol_fee_recipient_token_account@),
        coin_creator: base58_text(event.coin_creator@),
        coin_creator_fee_basis_points: event.coin_creator_fee_basis_points,
        coin_creator_fee: event.coin_creator_fee,
        is_main_pool: flag(action.is_main_pool),
    }
}

fn build_amm_sell_row(
    tx: &Transaction,
    index: usize,
    event: &AmmSellEvent,
    action: &AmmSell,
    accounts: &AmmSellAccounts,
) -> (row: PumpfunAmmSellEventV2)
    ensures
        row@ == amm_sell_row(*tx, index, *event, *action, *accounts),
{
    PumpfunAmmSellEventV2 {
        signature: base58_encode(tx.signature.as_slice()),
        slot: tx.slot,
        transaction_index: #[verifier::truncate] (tx.index as u32),
        instruction_index: #[verifier::truncate] (index as u32),
        base_mint: base58_encode(accounts.base_mint.as_slice()),
        quote_mint: base58_encode(accounts.quote_mint.as_slice()),
        timestamp: #[verifier::truncate] (event.timestamp as u32),
        base_amount_in: event.base_amount_in,
        min_quote_amount_out: event.min_quote_amount_out,
        user_base_token_reserves: event.user_base_token_reserves,
        user_quote_token_reserves: event.user_quote_token_reserves,
        pool_base_token_reserves: event.pool_base_token_reserves,
        pool_quote_token_reserves: event.pool_quote_token_reserves,
        quote_amount_out: event.quote_amount_out,
        lp_fee_basis_points: event.lp_fee_basis_points,
        lp_fee: event.lp_fee,
        protocol_fee_basis_points: event.protocol_fee_basis_points,
        protocol_fee: event.protocol_fee,
        quote_amount_out_without_lp_fee: event.quote_amount_out_without_lp_fee,
        user_quote_amount_out: event.user_quote_amount_out,
        pool: base58_encode(accounts.pool.as_slice()),
        user: base58_encode(accounts.user.as_slice()),
        user_base_token_account: base58_encode(accounts.user_base_token_account.as_slice()),
        user_quote_token_account: base58_encode(accounts.user_quote_token_account.as_slice()),
        protocol_fee_recipient: base58_encode(accounts.protocol_fee_recipient.as_slice()),
        protocol_fee_recipient_token_account: base58_encode(accounts.protocol_fee_recipient_token_account.as_slice()),
        coin_creator: base58_encode(event.coin_creator.as_slice()),
        coin_creator_fee_basis_points: event.coin_creator_fee_basis_points,
        coin_creator_fee: event.coin_creator_fee,
        is_main_pool: flag_byte(action.is_main_pool),
    }
}

/// The row that records the creation of a pool: the event at position `index` of
/// `tx`, made by `action` on `accounts`.
pub open spec fn amm_create_pool_row(
    tx: Transaction,
    index: usize,
    event: AmmCreatePoolEvent,
    action: AmmCreatePool,
    accounts: AmmCreatePoolAccounts,
) -> AmmCreatePoolRow {
    AmmCreatePoolRow {
        signature: base58_text(tx.signature@),
        slot: tx.slot,
        transaction_index: tx.index as u32,
        instruction_index: index as u32,
        timestamp: event.timestamp as u32,
        index: event.index,
        creator: base58_text(accounts.creator@),
        base_mint: base58_text(accounts.base_mint@),
        quote_mint: base58_text(accounts.quote_mint@),
        base_mint_decimals: event.base_mint_decimals,
        quote_mint_decimals: event.quote_mint_decimals,
        base_amount_in: event.base_amount_in,
        quote_amount_in: event.quote_amount_in,
        pool_base_amount: event.pool_base_amount,
        pool_quote_amount: event.pool_quote_amount,
        minimum_liquidity: event.minimum_liquidity,
        initial_liquidity: event.initial_liquidity,
        lp_token_amount_out: event.lp_token_amount_out,
        pool_bump: event.pool_bump,
        pool: base58_text(accounts.pool@),
        lp_mint: base58_text(accounts.lp_mint@),
        user_base_token_account: base58_text(accounts.user_base_token_account@),
        user_quote_token_account: base58_text(accounts.user_quote_token_account@),
        coin_creator: base58_text(event.coin_creator@),
        is_main_pool: flag(action.is_main_pool),
    }
}

fn build_amm_create_pool_row(
    tx: &Transaction,
    index: usize,
    event: &AmmCreatePoolEvent,
    action: &AmmCreatePool,
    accounts: &AmmCreatePoolAccounts,
) -> (row: PumpfunAmmCreatePoolEventV2)
    ensures
        row@ == amm_create_pool_row(*tx, index, *event, *action, *accounts),
{
    PumpfunAmmCreatePoolEventV2 {
        signature: base58_encode(tx.signature.as_slice()),
        slot: tx.slot,
        transaction_index: #[verifier::truncate] (tx.index as u32),
        instruction_index: #[verifier::truncate] (index as u32),
        timestamp: #[verifier::truncate] (event.timestamp as u32),
        index: event.index,
        creator: base58_encode(accounts.creator.as_slice()),
        base_mint: base58_encode(accounts.base_mint.as_slice()),
        quote_mint: base58_encode(accounts.quote_mint.as_slice()),
        base_mint_decimals: event.base_mint_decimals,
        quote_mint_decimals: event.quote_mint_decimals,
        base_amount_in: event.base_amount_in,
        quote_amount_in: event.quote_amount_in,
        pool_base_amount: event.pool_base_amount,
        pool_quote_amount: event.pool_quote_amount,
        minimum_liquidity: event.minimum_liquidity,
        initial_liquidity: event.initial_liquidity,
        lp_token_amount_out: event.lp_token_amount_out,
        pool_bump: event.pool_bump,
        pool: base58_encode(accounts.pool.as_slice()),
        lp_mint: base58_encode(accounts.lp_mint.as_slice()),
        user_base_token_account: base58_encode(accounts.user_base_token_account.as_slice()),
        user_quote_token_account: base58_encode(accounts.user_quote_token_account.as_slice()),
        coin_creator: base58_encode(event.coin_creator.as_slice()),
        is_main_pool: flag_byte(action.is_main_pool),
    }
}

/// The row that records a deposit of liquidity into a pool: the event at position
/// `index` of `tx`, made by `action` on `accounts`.
pub open spec fn amm_deposit_row(
    tx: Transaction,
    index: usize,
    event: AmmDepositEvent,
    action: AmmDeposit,
    accounts: AmmDepositAccounts,
) -> AmmDepositRow {
    AmmDepositRow {
        signature: base58_text(tx.signature@),
        slot: tx.slot,
        transaction_index: tx.index as u32,
        instruction_index: index as u32,
        base_mint: base58_text(accounts.base_mint@),
        quote_mint: base58_text(accounts.quote_mint@),
        timestamp: event.timestamp as u32,
        lp_token_amount_out: event.lp_token_amount_out,
        max_base_amount_in: event.max_base_amount_in,
        max_quote_amount_in: event.max_quote_amount_in,
        user_base_token_reserves: event.user_base_token_reserves,
        user_quote_token_reserves: event.user_quote_token_reserves,
        pool_base_token_reserves: event.pool_base_token_reserves,
        pool_quote_token_reserves: event.pool_quote_token_reserves,
        base_amount_in: event.base_amount_in,
        quote_amount_in: event.quote_amount_in,
        lp_mint_supply: event.lp_mint_supply,
        pool: base58_text(accounts.pool@),
        user: base58_text(accounts.user@),
        user_base_token_account: base58_text(accounts.user_base_token_account@),
        user_quote_token_account: base58_text(accounts.user_quote_token_account@),
        user_pool_token_account: base58_text(accounts.user_pool_token_account@),
        is_main_pool: flag(action.is_main_pool),
    }
}

fn build_amm_deposit_row(
    tx: &Transaction,
    index: usize,
    event: &AmmDepositEvent,
    action: &AmmDeposit,
    accounts: &AmmDepositAccounts,
) -> (row: PumpfunAmmDepositEventV2)
    ensures
        row@ == amm_deposit_row(*tx, index, *event, *action, *accounts),
{
    PumpfunAmmDepositEventV2 {
        signature: base58_encode(tx.signature.as_slice()),
        slot: tx.slot,
        transaction_index: #[verifier::truncate] (tx.index as u32),
        instruction_index: #[verifier::truncate] (index as u32),
        base_mint: base58_encode(accounts.base_mint.as_slice()),
        quote_mint: base58_encode(accounts.quote_mint.as_slice()),
        timestamp: #[verifier::truncate] (event.timestamp as u32),
        lp_token_amount_out: event.lp_token_amount_out,
        max_base_amount_in: event.max_base_amount_in,
        max_quote_amount_in: event.max_quote_amount_in,
        user_base_token_reserves: event.user_base_token_reserves,
        user_quote_token_reserves: event.user_quote_token_reserves,
        pool_base_token_reserves: event.pool_base_token_reserves,
        pool_quote_token_reserves: event.pool_quote_token_reserves,
        base_amount_in: event.base_amount_in,
        quote_amount_in: event.quote_amount_in,
        lp_mint_supply: event.lp_mint_supply,
        pool: base58_encode(accounts.pool.as_slice()),
        user: base58_encode(accounts.user.as_slice()),
        user_base_token_account: base58_encode(accounts.user_base_token_account.as_slice()),
        user_quote_token_account: base58_encode(accounts.user_quote_token_account.as_slice()),
        user_pool_token_account: base58_encode(accounts.user_pool_token_account.as_slice()),
        is_main_pool: flag_byte(action.is_main_pool),
    }
}

/// The row that records a withdrawal of liquidity from a pool: the event at
/// position `index` of `tx`, made by `action` on `accounts`.
pub open spec fn amm_withdraw_row(
    tx: Transaction,
    index: usize,
    event: AmmWithdrawEvent,
    action: AmmWithdraw,
    accounts: AmmWithdrawAccounts,
) -> AmmWithdrawRow {
    AmmWithdrawRow {
        signature: base58_text(tx.signature@),
        slot: tx.slot,
        transaction_index: tx.index as u32,
        instruction_index: index as u32,
        base_mint: base58_text(accounts.base_mint@),
        quote_mint: base58_text(accounts.quote_mint@),
        timestamp: event.timestamp as u32,
        lp_token_amount_in: event.lp_token_amount_in,
        min_base_amount_out: event.min_base_amount_out,
        min_quote_amount_out: event.min_quote_amount_out,
        user_base_token_reserves: event.user_base_token_reserves,
        user_quote_token_reserves: event.user_quote_token_reserves,
        pool_base_token_reserves: event.pool_base_token_reserves,
        pool_quote_token_reserves: event.pool_quote_token_reserves,
        base_amount_out: event.base_amount_out,
        quote_amount_out: event.quote_amount_out,
        lp_mint_supply: event.lp_mint_supply,
        pool: base58_text(accounts.pool@),
        user: base58_text(accounts.user@),
        user_base_token_account: base58_text(accounts.user_base_token_account@),
        user_quote_token_account: base58_text(accounts.user_quote_token_account@),
        user_pool_token_account: base58_text(accounts.user_pool_token_account@),
        is_main_pool: flag(action.is_main_pool),
    }
}

fn build_amm_withdraw_row(
    tx: &Transaction,
    index: usize,
    event: &AmmWithdrawEvent,
    action: &AmmWithdraw,
    accounts: &AmmWithdrawAccounts,
) -> (row: PumpfunAmmWithdrawEventV2)
    ensures
        row@ == amm_withdraw_row(*tx, index, *event, *action, *accounts),
{
    PumpfunAmmWithdrawEventV2 {
        signature: base58_encode(tx.signature.as_slice()),
        slot: tx.slot,
        transaction_index: #[verifier::truncate] (tx.index as u32),
        instruction_index: #[verifier::truncate] (index as u32),
        base_mint: base58_encode(accounts.base_mint.as_slice()),
        quote_mint: base58_encode(accounts.quote_mint.as_slice()),
        timestamp: #[verifier::truncate] (event.timestamp as u32),
        lp_token_amount_in: event.lp_token_amount_in,
        min_base_amount_out: event.min_base_amount_out,
        min_quote_amount_out: event.min_quote_amount_out,
        user_base_token_reserves: event.user_base_token_reserves,
        user_quote_token_reserves: event.user_quote_token_reserves,
        pool_base_token_reserves: event.pool_base_token_reserves,
        pool_quote_token_reserves: event.pool_quote_token_reserves,
        base_amount_out: event.base_amount_out,
        quote_amount_out: event.quote_amount_out,
        lp_mint_supply: event.lp_mint_supply,
        pool: base58_encode(accounts.pool.as_slice()),
        user: base58_encode(accounts.user.as_slice()),
        user_base_token_account: base58_encode(accounts.user_base_token_account.as_slice()),
        user_quote_token_account: base58_encode(accounts.user_quote_token_account.as_slice()),
        user_pool_token_account: base58_encode(accounts.user_pool_token_account.as_slice()),
        is_main_pool: flag_byte(action.is_main_pool),
    }
}


/// The row that an event yields when `action` is the call just before it:
/// the event's tag, its payload and the call have to fit together. A trade
/// event fits a buy or a sell on a bonding curve, every other event the call of
/// its own kind; and a pool event needs the accounts of its call. An event
/// after any other call yields nothing.
pub open spec fn pair_row(
    tx: Transaction,
    index: usize,
    event: Instruction,
    action: Instruction,
) -> Option<RowView> {
    match (event_kind(event.type_tag@), event.parsed, action.parsed) {
        (
            Some(EventKind::Trade),
            Some(Parsed::PumpfunTradeEvent(record)),
            Some(Parsed::PumpfunBuy),
        ) => Some(RowView::Trade(trade_row(tx, index, record))),
        (
            Some(EventKind::Trade),
            Some(Parsed::PumpfunTradeEvent(record)),
            Some(Parsed::PumpfunSell),
        ) => Some(RowView::Trade(trade_row(tx, index, record))),
        (
            Some(EventKind::Create),
            Some(Parsed::PumpfunCreateEvent(record)),
            Some(Parsed::PumpfunCreate),
        ) => Some(RowView::Create(create_row(tx, index, record))),
        (
            Some(EventKind::Migrate),
            Some(Parsed::PumpfunMigrationEvent(record)),
            Some(Parsed::PumpfunMigrate),
        ) => Some(RowView::Migrate(migrate_row(tx, index, record))),
        (
            Some(EventKind::AmmBuy),
            Some(Parsed::PumpfunAmmBuyEvent(record)),
            Some(Parsed::PumpfunAmmBuy(call)),
        ) => match call.accounts {
            Some(accounts) => Some(
                RowView::AmmBuy(amm_buy_row(tx, index, record, call, accounts)),
            ),
            None => None,
        },
        (
            Some(EventKind::AmmSell),
            Some(Parsed::PumpfunAmmSellEvent(record)),
            Some(Parsed::PumpfunAmmSell(call)),
        ) => match call.accounts {
            Some(accounts) => Some(
                RowView::AmmSell(amm_sell_row(tx, index, record, call, accounts)),
            ),
            None => None,
        },
        (
            Some(EventKind::AmmDeposit),
            Some(Parsed::PumpfunAmmDepositEvent(record)),
            Some(Parsed::PumpfunAmmDeposit(call)),
        ) => match call.accounts {
            Some(accounts) => Some(
                RowView::AmmDeposit(amm_deposit_row(tx, index, record, call, accounts)),
            ),
            None => None,
        },
        (
            Some(EventKind::AmmWithdraw),
            Some(Parsed::PumpfunAmmWithdrawEvent(record)),
            Some(Parsed::PumpfunAmmWithdraw(call)),
        ) => match call.accounts {
            Some(accounts) => Some(
                RowView::AmmWithdraw(amm_withdraw_row(tx, index, record, call, accounts)),
            ),
            None => None,
        },
        (
            Some(EventKind::AmmCreatePool),
            Some(Parsed::PumpfunAmmCreatePoolEvent(record)),
            Some(Parsed::PumpfunAmmCreatePool(call)),
        ) => match call.accounts {
            Some(accounts) => Some(
                RowView::AmmCreatePool(amm_create_pool_row(tx, index, record, call, accounts)),
            ),
            None => None,
        },
        _ => None,
    }
}

/// Whether a payload is that of a call that leaves a trade event: a buy or a
/// sell on a bonding curve.
pub open spec fn is_trade_call(parsed: Option<Parsed>) -> bool {
    match parsed {
        Some(Parsed::PumpfunBuy) => true,
        Some(Parsed::PumpfunSell) => true,
        _ => false,
    }
}

/// Whether `event` and the call `action` just before it make a pair of the
/// given kind: the event's tag names the kind and its payload is of that kind;
/// the call is no event and is the call that leaves events of that kind, a buy
/// or a sell for a trade; and a call on a pool names its accounts.
pub open spec fn is_pair(kind: EventKind, event: Instruction, action: Instruction) -> bool {
    &&& event_kind(event.type_tag@) == Some(kind)
    &&& !is_event(action)
    &&& match kind {
        EventKind::Trade => event.parsed matches Some(Parsed::PumpfunTradeEvent(_))
            && is_trade_call(action.parsed),
        EventKind::Create => event.parsed matches Some(Parsed::PumpfunCreateEvent(_))
            && action.parsed == Some(Parsed::PumpfunCreate),
        EventKind::Migrate => event.parsed matches Some(Parsed::PumpfunMigrationEvent(_))
            && action.parsed == Some(Parsed::PumpfunMigrate),
        EventKind::AmmBuy => event.parsed matches Some(Parsed::PumpfunAmmBuyEvent(_))
            && action.parsed matches Some(Parsed::PumpfunAmmBuy(call)) && call.accounts is Some,
        EventKind::AmmSell => event.parsed matches Some(Parsed::PumpfunAmmSellEvent(_))
            && action.parsed matches Some(Parsed::PumpfunAmmSell(call)) && call.accounts is Some,
        EventKind::AmmCreatePool => event.parsed matches Some(Parsed::PumpfunAmmCreatePoolEvent(_))
            && action.parsed matches Some(Parsed::PumpfunAmmCreatePool(call))
                && call.accounts is Some,
        EventKind::AmmDeposit => event.parsed matches Some(Parsed::PumpfunAmmDepositEvent(_))
            && action.parsed matches Some(Parsed::PumpfunAmmDeposit(call)) && call.accounts is Some,
        EventKind::AmmWithdraw => event.parsed matches Some(Parsed::PumpfunAmmWithdrawEvent(_))
            && action.parsed matches Some(Parsed::PumpfunAmmWithdraw(call))
                && call.accounts is Some,
    }
}

pub open spec fn row_view(row: Option<EventRow>) -> Option<RowView> {
    match row {
        Some(row) => Some(row@),
        None => None,
    }
}

fn pair(
    tx: &Transaction,
    index: usize,
    kind: EventKind,
    event: &Instruction,
    action: &Instruction,
) -> (row:
    Option<EventRow>)
    requires
        event_kind(event.type_tag@) == Some(kind),
    ensures
        row_view(row) == pair_row(*tx, index, *event, *action),
{
    match (kind, &event.parsed, &action.parsed) {
        (
            EventKind::Trade,
            Some(Parsed::PumpfunTradeEvent(record)),
            Some(Parsed::PumpfunBuy),
        ) => Some(EventRow::Trade(build_trade_row(tx, index, record))),
        (
            EventKind::Trade,
            Some(Parsed::PumpfunTradeEvent(record)),
            Some(Parsed::PumpfunSell),
        ) => Some(EventRow::Trade(build_trade_row(tx, index, record))),
        (
            EventKind::Create,
            Some(Parsed::PumpfunCreateEvent(record)),
            Some(Parsed::PumpfunCreate),
        ) => Some(EventRow::Create(build_create_row(tx, index, record))),
        (
            EventKind::Migrate,
            Some(Parsed::PumpfunMigrationEvent(record)),
            Some(Parsed::PumpfunMigrate),
        ) => Some(EventRow::Migrate(build_migrate_row(tx, index, record))),
        (EventKind::AmmBuy, Some(Parsed::PumpfunAmmBuyEvent(record)),
            Some(Parsed::PumpfunAmmBuy(call))) => match &call.accounts {
            Some(accounts) => Some(
                EventRow::AmmBuy(build_amm_buy_row(tx, index, record, call, accounts)),
            ),
            None => None,
        },
        (EventKind::AmmSell, Some(Parsed::PumpfunAmmSellEvent(record)),
            Some(Parsed::PumpfunAmmSell(call))) => match &call.accounts {
            Some(accounts) => Some(
                EventRow::AmmSell(build_amm_sell_row(tx, index, record, call, accounts)),
            ),
            None => None,
        },
        (EventKind::AmmDeposit, Some(Parsed::PumpfunAmmDepositEvent(record)),
            Some(Parsed::PumpfunAmmDeposit(call))) => match &call.accounts {
            Some(accounts) => Some(
                EventRow::AmmDeposit(build_amm_deposit_row(tx, index, record, call, accounts)),
            ),
            None => None,
        },
        (EventKind::AmmWithdraw, Some(Parsed::PumpfunAmmWithdrawEvent(record)),
            Some(Parsed::PumpfunAmmWithdraw(call))) => match &call.accounts {
            Some(accounts) => Some(
                EventRow::AmmWithdraw(build_amm_withdraw_row(tx, index, record, call, accounts)),
            ),
            None => None,
        },
        (EventKind::AmmCreatePool, Some(Parsed::PumpfunAmmCreatePoolEvent(record)),
            Some(Parsed::PumpfunAmmCreatePool(call))) => match &call.accounts {
            Some(accounts) => Some(
                EventRow::AmmCreatePool(build_amm_create_pool_row(tx, index, record, call,
                    accounts)),
            ),
            None => None,
        },
        _ => None,
    }
}

/// The row that the instruction at position `i` of `tx` yields: one where it is
/// an event and the instruction just before it is a call that pairs with it,
/// none otherwise. Only the call just before an event is ever looked at.
pub open spec fn row_at(tx: Transaction, i: int) -> Option<RowView> {
    let list = tx.instructions@;
    if 1 <= i < list.len() && is_event(list[i]) && !is_event(list[i - 1]) {
        pair_row(tx, i as usize, list[i], list[i - 1])
    } else {
        None
    }
}

/// The rows that the first `n` instructions of `tx` yield, in the order of the
/// instructions.
pub open spec fn rows_before(tx: Transaction, n: int) -> Seq<RowView>
    decreases n,
{
    if n <= 0 {
        Seq::empty()
    } else {
        match row_at(tx, n - 1) {
            Some(row) => rows_before(tx, n - 1).push(row),
            None => rows_before(tx, n - 1),
        }
    }
}

/// The rows that `tx` yields, in the order of its instructions.
pub open spec fn rows_of(tx: Transaction) -> Seq<RowView> {
    rows_before(tx, tx.instructions@.len() as int)
}

/// The rows of `pumpfun_trade_event_v2` among `rows`, in order.
pub open spec fn trade_rows(rows: Seq<RowView>) -> Seq<TradeRow>
    decreases rows.len(),
{
    if rows.len() == 0 {
        Seq::empty()
    } else {
        match rows.last() {
            RowView::Trade(row) => trade_rows(rows.drop_last()).push(row),
            _ => trade_rows(rows.drop_last()),
        }
    }
}

/// The rows of `pumpfun_create_event_v2` among `rows`, in order.
pub open spec fn create_rows(rows: Seq<RowView>) -> Seq<CreateRow>
    decreases rows.len(),
{
    if rows.len() == 0 {
        Seq::empty()
    } else {
        match rows.last() {
            RowView::Create(row) => create_rows(rows.drop_last()).push(row),
            _ => create_rows(rows.drop_last()),
        }
    }
}

/// The rows of `pumpfun_migrate_event_v2` among `rows`, in order.
pub open spec fn migrate_rows(rows: Seq<RowView>) -> Seq<MigrateRow>
    decreases rows.len(),
{
    if rows.len() == 0 {
        Seq::empty()
    } else {
        match rows.last() {
            RowView::Migrate(row) => migrate_rows(rows.drop_last()).push(row),
            _ => migrate_rows(rows.drop_last()),
        }
    }
}

/// The rows of `pumpfun_amm_buy_event_v2` among `rows`, in order.
pub open spec fn amm_buy_rows(rows: Seq<RowView>) -> Seq<AmmBuyRow>
    decreases rows.len(),
{
    if rows.len() == 0 {
        Seq::empty()
    } else {
        match rows.last() {
            RowView::AmmBuy(row) => amm_buy_rows(rows.drop_last()).push(row),
            _ => amm_buy_rows(rows.drop_last()),
        }
    }
}

/// The rows of `pumpfun_amm_sell_event_v2` among `rows`, in order.
pub open spec fn amm_sell_rows(rows: Seq<RowView>) -> Seq<AmmSellRow>
    decreases rows.len(),
{
    if rows.len() == 0 {
        Seq::empty()
    } else {
        match rows.last() {
            RowView::AmmSell(row) => amm_sell_rows(rows.drop_last()).push(row),
            _ => amm_sell_rows(rows.drop_last()),
        }
    }
}

/// The rows of `pumpfun_amm_create_pool_event_v2` among `rows`, in order.
pub open spec fn amm_create_pool_rows(rows: Seq<RowView>) -> Seq<AmmCreatePoolRow>
    decreases rows.len(),
{
    if rows.len() == 0 {
        Seq::empty()
    } else {
        match rows.last() {
            RowView::AmmCreatePool(row) => amm_create_pool_rows(rows.drop_last()).push(row),
            _ => amm_create_pool_rows(rows.drop_last()),
        }
    }
}

/// The rows of `pumpfun_amm_deposit_event_v2` among `rows`, in order.
pub open spec fn amm_deposit_rows(rows: Seq<RowView>) -> Seq<AmmDepositRow>
    decreases rows.len(),
{
    if rows.len() == 0 {
        Seq::empty()
    } else {
        match rows.last() {
            RowView::AmmDeposit(row) => amm_deposit_rows(rows.drop_last()).push(row),
            _ => amm_deposit_rows(rows.drop_last()),
        }
    }
}

/// The rows of `pumpfun_amm_withdraw_event_v2` among `rows`, in order.
pub open spec fn amm_withdraw_rows(rows: Seq<RowView>) -> Seq<AmmWithdrawRow>
    decreases rows.len(),
{
    if rows.len() == 0 {
        Seq::empty()
    } else {
        match rows.last() {
            RowView::AmmWithdraw(row) => amm_withdraw_rows(rows.drop_last()).push(row),
            _ => amm_withdraw_rows(rows.drop_last()),
        }
    }
}

/// The rows of `rows`, each in the table of its kind.
pub open spec fn tables_of(rows: Seq<RowView>) -> Tables {
    Tables {
        pumpfun_trade_event: trade_rows(rows),
        pumpfun_create_event: create_rows(rows),
        pumpfun_migrate_event: migrate_rows(rows),
        pumpfun_amm_buy_event: amm_buy_rows(rows),
        pumpfun_amm_sell_event: amm_sell_rows(rows),
        pumpfun_amm_create_pool_event: amm_create_pool_rows(rows),
        pumpfun_amm_deposit_event: amm_deposit_rows(rows),
        pumpfun_amm_withdraw_event: amm_withdraw_rows(rows),
    }
}

/// The tables of two runs of rows, one after the other, are the tables of the
/// first with the tables of the second after them.
pub proof fn lemma_tables_of_concat(a: Seq<RowView>, b: Seq<RowView>)
    ensures
        tables_of(a + b) == tables_of(a).concat(tables_of(b)),
    decreases b.len(),
{
    if b.len() == 0 {
        assert(a + b =~= a);
        assert(trade_rows(a) + trade_rows(b) =~= trade_rows(a));
        assert(create_rows(a) + create_rows(b) =~= create_rows(a));
        assert(migrate_rows(a) + migrate_rows(b) =~= migrate_rows(a));
        assert(amm_buy_rows(a) + amm_buy_rows(b) =~= amm_buy_rows(a));
        assert(amm_sell_rows(a) + amm_sell_rows(b) =~= amm_sell_rows(a));
        assert(amm_create_pool_rows(a) + amm_create_pool_rows(b) =~= amm_create_pool_rows(a));
        assert(amm_deposit_rows(a) + amm_deposit_rows(b) =~= amm_deposit_rows(a));
        assert(amm_withdraw_rows(a) + amm_withdraw_rows(b) =~= amm_withdraw_rows(a));
    } else {
        lemma_tables_of_concat(a, b.drop_last());
        assert((a + b).drop_last() =~= a + b.drop_last());
        assert((a + b).last() == b.last());
        assert(trade_rows(a + b) =~= trade_rows(a) + trade_rows(b));
        assert(create_rows(a + b) =~= create_rows(a) + create_rows(b));
        assert(migrate_rows(a + b) =~= migrate_rows(a) + migrate_rows(b));
        assert(amm_buy_rows(a + b) =~= amm_buy_rows(a) + amm_buy_rows(b));
        assert(amm_sell_rows(a + b) =~= amm_sell_rows(a) + amm_sell_rows(b));
        assert(amm_create_pool_rows(a + b) =~= amm_create_pool_rows(a) + amm_create_pool_rows(b));
        assert(amm_deposit_rows(a + b) =~= amm_deposit_rows(a) + amm_deposit_rows(b));
        assert(amm_withdraw_rows(a + b) =~= amm_withdraw_rows(a) + amm_withdraw_rows(b));
    }
}

/// How many of `rows` are of the given kind.
pub open spec fn count_kind(rows: Seq<RowView>, kind: EventKind) -> nat
    decreases rows.len(),
{
    if rows.len() == 0 {
        0
    } else if rows.last().kind() == kind {
        count_kind(rows.drop_last(), kind) + 1
    } else {
        count_kind(rows.drop_last(), kind)
    }
}

/// The part of each table in `rows` has as many rows as `rows` has of its kind.
pub proof fn lemma_table_lengths(rows: Seq<RowView>)
    ensures
        trade_rows(rows).len() == count_kind(rows, EventKind::Trade),
        create_rows(rows).len() == count_kind(rows, EventKind::Create),
        migrate_rows(rows).len() == count_kind(rows, EventKind::Migrate),
        amm_buy_rows(rows).len() == count_kind(rows, EventKind::AmmBuy),
        amm_sell_rows(rows).len() == count_kind(rows, EventKind::AmmSell),
        amm_create_pool_rows(rows).len() == count_kind(rows, EventKind::AmmCreatePool),
        amm_deposit_rows(rows).len() == count_kind(rows, EventKind::AmmDeposit),
        amm_withdraw_rows(rows).len() == count_kind(rows, EventKind::AmmWithdraw),
    decreases rows.len(),
{
    if rows.len() > 0 {
        lemma_table_lengths(rows.drop_last());
    }
}

proof fn lemma_tables_push(rows: Seq<RowView>, row: RowView)
    ensures
        trade_rows(rows.push(row)) == (match row {
            RowView::Trade(r) => trade_rows(rows).push(r),
            _ => trade_rows(rows),
        }),
        create_rows(rows.push(row)) == (match row {
            RowView::Create(r) => create_rows(rows).push(r),
            _ => create_rows(rows),
        }),
        migrate_rows(rows.push(row)) == (match row {
            RowView::Migrate(r) => migrate_rows(rows).push(r),
            _ => migrate_rows(rows),
        }),
        amm_buy_rows(rows.push(row)) == (match row {
            RowView::AmmBuy(r) => amm_buy_rows(rows).push(r),
            _ => amm_buy_rows(rows),
        }),
        amm_sell_rows(rows.push(row)) == (match row {
            RowView::AmmSell(r) => amm_sell_rows(rows).push(r),
            _ => amm_sell_rows(rows),
        }),
        amm_create_pool_rows(rows.push(row)) == (match row {
            RowView::AmmCreatePool(r) => amm_create_pool_rows(rows).push(r),
            _ => amm_create_pool_rows(rows),
        }),
        amm_deposit_rows(rows.push(row)) == (match row {
            RowView::AmmDeposit(r) => amm_deposit_rows(rows).push(r),
            _ => amm_deposit_rows(rows),
        }),
        amm_withdraw_rows(rows.push(row)) == (match row {
            RowView::AmmWithdraw(r) => amm_withdraw_rows(rows).push(r),
            _ => amm_withdraw_rows(rows),
        }),
{
    assert(rows.push(row).drop_last() =~= rows);
    assert(rows.push(row).last() == row);
}

/// The extractor.
pub struct TransactionConverter;

impl TransactionConverter {
    /// Appends to each table the rows that `tx` yields for it, in the order of
    /// the instructions, and leaves what the tables held in place.
    pub fn convert(
        tx: &Transaction,
        pumpfun_trade_event_rows: &mut Vec<PumpfunTradeEventV2>,
        pumpfun_create_event_rows: &mut Vec<PumpfunCreateEventV2>,
        pumpfun_migrate_event_rows: &mut Vec<PumpfunMigrateEventV2>,
        pumpfun_amm_buy_event_rows: &mut Vec<PumpfunAmmBuyEventV2>,
        pumpfun_amm_sell_event_rows: &mut Vec<PumpfunAmmSellEventV2>,
        pumpfun_amm_create_pool_event_rows: &mut Vec<PumpfunAmmCreatePoolEventV2>,
        pumpfun_amm_deposit_event_rows: &mut Vec<PumpfunAmmDepositEventV2>,
        pumpfun_amm_withdraw_event_rows: &mut Vec<PumpfunAmmWithdrawEventV2>,
    )
        ensures
            views(final(pumpfun_trade_event_rows)@) == views(old(pumpfun_trade_event_rows)@)
                + trade_rows(rows_of(*tx)),
            views(final(pumpfun_create_event_rows)@) == views(old(pumpfun_create_event_rows)@)
                + create_rows(rows_of(*tx)),
            views(final(pumpfun_migrate_event_rows)@) == views(old(pumpfun_migrate_event_rows)@)
                + migrate_rows(rows_of(*tx)),
            views(final(pumpfun_amm_buy_event_rows)@) == views(old(pumpfun_amm_buy_event_rows)@)
                + amm_buy_rows(rows_of(*tx)),
            views(final(pumpfun_amm_sell_event_rows)@) == views(old(pumpfun_amm_sell_event_rows)@)
                + amm_sell_rows(rows_of(*tx)),
            views(final(pumpfun_amm_create_pool_event_rows)@) == views(
                old(pumpfun_amm_create_pool_event_rows)@,
            ) + amm_create_pool_rows(rows_of(*tx)),
            views(final(pumpfun_amm_deposit_event_rows)@) == views(
                old(pumpfun_amm_deposit_event_rows)@,
            ) + amm_deposit_rows(rows_of(*tx)),
            views(final(pumpfun_amm_withdraw_event_rows)@) == views(
                old(pumpfun_amm_withdraw_event_rows)@,
            ) + amm_withdraw_rows(rows_of(*tx)),
    {
        let n = tx.instructions.len();
        // Whether the instruction just before position `i` is a call that
        // waits for its event.
        let mut pending = false;
        let mut i: usize = 0;
        proof {
            assert(views(pumpfun_trade_event_rows@) + trade_rows(rows_before(*tx, 0)) =~= views(
                pumpfun_trade_event_rows@,
            ));
            assert(views(pumpfun_create_event_rows@) + create_rows(rows_before(*tx, 0)) =~= views(
                pumpfun_create_event_rows@,
            ));
            assert(views(pumpfun_migrate_event_rows@) + migrate_rows(rows_before(*tx, 0))
                =~= views(pumpfun_migrate_event_rows@));
            assert(views(pumpfun_amm_buy_event_rows@) + amm_buy_rows(rows_before(*tx, 0))
                =~= views(pumpfun_amm_buy_event_rows@));
            assert(views(pumpfun_amm_sell_event_rows@) + amm_sell_rows(rows_before(*tx, 0))
                =~= views(pumpfun_amm_sell_event_rows@));
            assert(views(pumpfun_amm_create_pool_event_rows@) + amm_create_pool_rows(
                rows_before(*tx, 0),
            ) =~= views(pumpfun_amm_create_pool_event_rows@));
            assert(views(pumpfun_amm_deposit_event_rows@) + amm_deposit_rows(rows_before(*tx, 0))
                =~= views(pumpfun_amm_deposit_event_rows@));
            assert(views(pumpfun_amm_withdraw_event_rows@) + amm_withdraw_rows(
                rows_before(*tx, 0),
            ) =~= views(pumpfun_amm_withdraw_event_rows@));
        }
        while i < n
            invariant
                n == tx.instructions@.len(),
                i <= n,
                pending == (i >= 1 && !is_event(tx.instructions@[i - 1])),
                views(pumpfun_trade_event_rows@) == views(old(pumpfun_trade_event_rows)@)
                    + trade_rows(rows_before(*tx, i as int)),
                views(pumpfun_create_event_rows@) == views(old(pumpfun_create_event_rows)@)
                    + create_rows(rows_before(*tx, i as int)),
                views(pumpfun_migrate_event_rows@) == views(old(pumpfun_migrate_event_rows)@)
                    + migrate_rows(rows_before(*tx, i as int)),
                views(pumpfun_amm_buy_event_rows@) == views(old(pumpfun_amm_buy_event_rows)@)
                    + amm_buy_rows(rows_before(*tx, i as int)),
                views(pumpfun_amm_sell_event_rows@) == views(old(pumpfun_amm_sell_event_rows)@)
                    + amm_sell_rows(rows_before(*tx, i as int)),
                views(pumpfun_amm_create_pool_event_rows@) == views(
                    old(pumpfun_amm_create_pool_event_rows)@,
                ) + amm_create_pool_rows(rows_before(*tx, i as int)),
                views(pumpfun_amm_deposit_event_rows@) == views(
                    old(pumpfun_amm_deposit_event_rows)@,
                ) + amm_deposit_rows(rows_before(*tx, i as int)),
                views(pumpfun_amm_withdraw_event_rows@) == views(
                    old(pumpfun_amm_withdraw_event_rows)@,
                ) + amm_withdraw_rows(rows_before(*tx, i as int)),
            decreases n - i,
        {
            let instruction = &tx.instructions[i];
            let ghost before = rows_before(*tx, i as int);
            match classify(instruction.type_tag.as_str()) {
                Some(kind) => {
                    let row = if pending {
                        pair(tx, i, kind, instruction, &tx.instructions[i - 1])
                    } else {
                        None
                    };
                    assert(row_view(row) == row_at(*tx, i as int));
                    match row {
                        Some(row) => {
                            proof {
                                lemma_tables_push(before, row@);
                                assert(rows_before(*tx, i + 1) == before.push(row@));
                            }
                            match row {
                                EventRow::Trade(r) => {
                                    let ghost v = pumpfun_trade_event_rows@;
                                    pumpfun_trade_event_rows.push(r);
                                    assert(views(v.push(r)) =~= views(v).push(r@));
                                    assert(views(pumpfun_trade_event_rows@) =~= views(
                                        old(pumpfun_trade_event_rows)@,
                                    ) + trade_rows(before).push(r@));
                                },
                                EventRow::Create(r) => {
                                    let ghost v = pumpfun_create_event_rows@;
                                    pumpfun_create_event_rows.push(r);
                                    assert(views(v.push(r)) =~= views(v).push(r@));
                                    assert(views(pumpfun_create_event_rows@) =~= views(
                                        old(pumpfun_create_event_rows)@,
                                    ) + create_rows(before).push(r@));
                                },
                                EventRow::Migrate(r) => {
                                    let ghost v = pumpfun_migrate_event_rows@;
                                    pumpfun_migrate_event_rows.push(r);
                                    assert(views(v.push(r)) =~= views(v).push(r@));
                                    assert(views(pumpfun_migrate_event_rows@) =~= views(
                                        old(pumpfun_migrate_event_rows)@,
                                    ) + migrate_rows(before).push(r@));
                                },
                                EventRow::AmmBuy(r) => {
                                    let ghost v = pumpfun_amm_buy_event_rows@;
                                    pumpfun_amm_buy_event_rows.push(r);
                                    assert(views(v.push(r)) =~= views(v).push(r@));
                                    assert(views(pumpfun_amm_buy_event_rows@) =~= views(
                                        old(pumpfun_amm_buy_event_rows)@,
                                    ) + amm_buy_rows(before).push(r@));
                                },
                                EventRow::AmmSell(r) => {
                                    let ghost v = pumpfun_amm_sell_event_rows@;
                                    pumpfun_amm_sell_event_rows.push(r);
                                    assert(views(v.push(r)) =~= views(v).push(r@));
                                    assert(views(pumpfun_amm_sell_event_rows@) =~= views(
                                        old(pumpfun_amm_sell_event_rows)@,
                                    ) + amm_sell_rows(before).push(r@));
                                },
                                EventRow::AmmCreatePool(r) => {
                                    let ghost v = pumpfun_amm_create_pool_event_rows@;
                                    pumpfun_amm_create_pool_event_rows.push(r);
                                    assert(views(v.push(r)) =~= views(v).push(r@));
                                    assert(views(pumpfun_amm_create_pool_event_rows@) =~= views(
                                        old(pumpfun_amm_create_pool_event_rows)@,
                                    ) + amm_create_pool_rows(before).push(r@));
                                },
                                EventRow::AmmDeposit(r) => {
                                    let ghost v = pumpfun_amm_deposit_event_rows@;
                                    pumpfun_amm_deposit_event_rows.push(r);
                                    assert(views(v.push(r)) =~= views(v).push(r@));
                                    assert(views(pumpfun_amm_deposit_event_rows@) =~= views(
                                        old(pumpfun_amm_deposit_event_rows)@,
                                    ) + amm_deposit_rows(before).push(r@));
                                },
                                EventRow::AmmWithdraw(r) => {
                                    let ghost v = pumpfun_amm_withdraw_event_rows@;
                                    pumpfun_amm_withdraw_event_rows.push(r);
                                    assert(views(v.push(r)) =~= views(v).push(r@));
                                    assert(views(pumpfun_amm_withdraw_event_rows@) =~= views(
                                        old(pumpfun_amm_withdraw_event_rows)@,
                                    ) + amm_withdraw_rows(before).push(r@));
                                },
                            }
                        },
                        None => {
                            assert(rows_before(*tx, i + 1) == before);
                        },
                    }
                    pending = false;
                },
                None => {
                    assert(row_at(*tx, i as int) is None);
                    assert(rows_before(*tx, i + 1) == before);
                    pending = true;
                },
            }
            i = i + 1;
        }
    }
}

/// The positions below `n` at which `tx` holds an event that makes a pair of
/// the given kind with the call just before it.
pub open spec fn pair_positions_before(tx: Transaction, kind: EventKind, n: int) -> Set<int> {
    Set::new(
        |i: int|
            1 <= i < n && i < tx.instructions@.len() && is_pair(
                kind,
                tx.instructions@[i],
                tx.instructions@[i - 1],
            ),
    )
}

/// The positions at which `tx` holds an event that makes a pair of the given
/// kind with the call just before it.
pub open spec fn pair_positions(tx: Transaction, kind: EventKind) -> Set<int> {
    pair_positions_before(tx, kind, tx.instructions@.len() as int)
}

/// A position yields a row of a kind exactly where the event there and the
/// call just before it make a pair of that kind.
pub proof fn lemma_row_iff_pair(tx: Transaction, kind: EventKind, i: int)
    ensures
        (row_at(tx, i) matches Some(row) && row.kind() == kind) <==> (1 <= i
            < tx.instructions@.len() && is_pair(kind, tx.instructions@[i],
                tx.instructions@[i - 1])),
{
}

/// For each kind of event, a transaction yields as many rows as it holds pairs
/// of that kind: positions `i` where the instruction at `i` is an event of the
/// kind and the one at `i - 1` the call that matches it.
pub proof fn lemma_rows_count_pairs(tx: Transaction, kind: EventKind)
    ensures
        pair_positions(tx, kind).finite(),
        count_kind(rows_of(tx), kind) == pair_positions(tx, kind).len(),
{
    lemma_rows_count_pairs_before(tx, kind, tx.instructions@.len() as int);
}

proof fn lemma_rows_count_pairs_before(tx: Transaction, kind: EventKind, n: int)
    requires
        0 <= n <= tx.instructions@.len(),
    ensures
        pair_positions_before(tx, kind, n).finite(),
        count_kind(rows_before(tx, n), kind) == pair_positions_before(tx, kind, n).len(),
    decreases n,
{
    if n == 0 {
        assert(pair_positions_before(tx, kind, 0) =~= Set::<int>::empty());
    } else {
        lemma_rows_count_pairs_before(tx, kind, n - 1);
        lemma_row_iff_pair(tx, kind, n - 1);
        let earlier = pair_positions_before(tx, kind, n - 1);
        let rows = rows_before(tx, n - 1);
        match row_at(tx, n - 1) {
            Some(row) => {
                assert(rows.push(row).drop_last() =~= rows);
                if row.kind() == kind {
                    assert(pair_positions_before(tx, kind, n) =~= earlier.insert(n - 1));
                } else {
                    assert(pair_positions_before(tx, kind, n) =~= earlier);
                }
            },
            None => {
                assert(pair_positions_before(tx, kind, n) =~= earlier);
            },
        }
    }
}

/// Each table gets as many rows from a transaction as the transaction holds
/// pairs of the table's kind.
pub proof fn lemma_each_table_counts_its_pairs(tx: Transaction)
    ensures
        trade_rows(rows_of(tx)).len() == pair_positions(tx, EventKind::Trade).len(),
        create_rows(rows_of(tx)).len() == pair_positions(tx, EventKind::Create).len(),
        migrate_rows(rows_of(tx)).len() == pair_positions(tx, EventKind::Migrate).len(),
        amm_buy_rows(rows_of(tx)).len() == pair_positions(tx, EventKind::AmmBuy).len(),
        amm_sell_rows(rows_of(tx)).len() == pair_positions(tx, EventKind::AmmSell).len(),
        amm_create_pool_rows(rows_of(tx)).len() == pair_positions(
            tx,
            EventKind::AmmCreatePool,
        ).len(),
        amm_deposit_rows(rows_of(tx)).len() == pair_positions(tx, EventKind::AmmDeposit).len(),
        amm_withdraw_rows(rows_of(tx)).len() == pair_positions(tx, EventKind::AmmWithdraw).len(),
{
    lemma_table_lengths(rows_of(tx));
    lemma_rows_count_pairs(tx, EventKind::Trade);
    lemma_rows_count_pairs(tx, EventKind::Create);
    lemma_rows_count_pairs(tx, EventKind::Migrate);
    lemma_rows_count_pairs(tx, EventKind::AmmBuy);
    lemma_rows_count_pairs(tx, EventKind::AmmSell);
    lemma_rows_count_pairs(tx, EventKind::AmmCreatePool);
    lemma_rows_count_pairs(tx, EventKind::AmmDeposit);
    lemma_rows_count_pairs(tx, EventKind::AmmWithdraw);
}

/// An event at the head of a transaction yields no row: no call stands before
/// it.
pub proof fn lemma_leading_event_yields_nothing(tx: Transaction)
    ensures
        row_at(tx, 0) is None,
        tx.instructions@.len() <= 1 ==> rows_of(tx) == Seq::<RowView>::empty(),
{
    if tx.instructions@.len() == 1 {
        assert(rows_before(tx, 1) == rows_before(tx, 0));
    }
}

/// Of two events in a row the second yields no row: the call that came before
/// them went to the first, or was never there.
pub proof fn lemma_second_event_yields_nothing(tx: Transaction, i: int)
    requires
        1 <= i < tx.instructions@.len(),
        is_event(tx.instructions@[i - 1]),
        is_event(tx.instructions@[i]),
    ensures
        row_at(tx, i) is None,
{
}

/// A transaction without instructions yields no row, for any table.
pub proof fn lemma_no_instructions_no_rows(tx: Transaction)
    requires
        tx.instructions@.len() == 0,
    ensures
        rows_of(tx) == Seq::<RowView>::empty(),
        trade_rows(rows_of(tx)).len() == 0,
        create_rows(rows_of(tx)).len() == 0,
        migrate_rows(rows_of(tx)).len() == 0,
        amm_buy_rows(rows_of(tx)).len() == 0,
        amm_sell_rows(rows_of(tx)).len() == 0,
        amm_create_pool_rows(rows_of(tx)).len() == 0,
        amm_deposit_rows(rows_of(tx)).len() == 0,
        amm_withdraw_rows(rows_of(tx)).len() == 0,
{
}

/// A row carries the position of its event.
pub proof fn lemma_row_carries_position(tx: Transaction, i: int)
    requires
        row_at(tx, i) is Some,
    ensures
        row_at(tx, i)->0.instruction_index() == (i as usize) as u32,
{
}

/// In a transaction of at most 2^32 instructions the rows come in the order of
/// their events, so no two rows of one transaction carry the same position.
pub proof fn lemma_rows_in_instruction_order(tx: Transaction, j: int, k: int)
    requires
        tx.instructions@.len() <= 0x1_0000_0000,
        0 <= j < k < rows_of(tx).len(),
    ensures
        rows_of(tx)[j].instruction_index() < rows_of(tx)[k].instruction_index(),
{
    lemma_rows_ordered_before(tx, tx.instructions@.len() as int);
}

/// In a transaction of at most 2^32 instructions no row carries position 0:
/// what stands at the head of a transaction has no call before it.
pub proof fn lemma_no_row_at_the_head(tx: Transaction, j: int)
    requires
        tx.instructions@.len() <= 0x1_0000_0000,
        0 <= j < rows_of(tx).len(),
    ensures
        rows_of(tx)[j].instruction_index() >= 1,
{
    lemma_rows_ordered_before(tx, tx.instructions@.len() as int);
}

proof fn lemma_rows_ordered_before(tx: Transaction, n: int)
    requires
        0 <= n <= tx.instructions@.len() <= 0x1_0000_0000,
    ensures
        forall|j: int|
            0 <= j < rows_before(tx, n).len() ==> 1 <= (#[trigger] rows_before(
                tx,
                n,
            )[j]).instruction_index() < n,
        forall|j: int, k: int|
            0 <= j < k < rows_before(tx, n).len() ==> (#[trigger] rows_before(
                tx,
                n,
            )[j]).instruction_index() < (#[trigger] rows_before(tx, n)[k]).instruction_index(),
    decreases n,
{
    if n > 0 {
        lemma_rows_ordered_before(tx, n - 1);
        let earlier = rows_before(tx, n - 1);
        let rows = rows_before(tx, n);
        match row_at(tx, n - 1) {
            Some(row) => {
                lemma_row_carries_position(tx, n - 1);
                assert(row.instruction_index() == n - 1);
                assert(rows == earlier.push(row));
                assert forall|j: int| 0 <= j < rows.len()
                    implies 1 <= (#[trigger] rows[j]).instruction_index() < n by {
                    if j < earlier.len() {
                        assert(rows[j] == earlier[j]);
                    }
                }
                assert forall|j: int, k: int| 0 <= j < k < rows.len()
                    implies (#[trigger] rows[j]).instruction_index()
                    < (#[trigger] rows[k]).instruction_index() by {
                    assert(rows[j] == earlier[j]);
                    if k < earlier.len() {
                        assert(rows[k] == earlier[k]);
                    }
                }
            },
            None => {
                assert(rows == earlier);
            },
        }
    }
}

} // verus!
