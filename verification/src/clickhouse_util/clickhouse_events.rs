//! The eight event rows, one flat record per table of the store, and their
//! mathematical views.

use vstd::prelude::*;

verus! {

/// A row of `pumpfun_trade_event_v2`: a trade on a bonding curve.
#[derive(Debug, Clone, PartialEq, Eq)]
pub struct PumpfunTradeEventV2 {
    pub signature: String,
    pub slot: u64,
    pub transaction_index: u32,
    pub instruction_index: u32,
    pub mint: String,
    pub sol_amount: u64,
    pub token_amount: u64,
    pub is_buy: u8,
    pub user: String,
    pub timestamp: u32,
    pub virtual_sol_reserves: u64,
    pub virtual_token_reserves: u64,
    pub real_sol_reserves: u64,
    pub real_token_reserves: u64,
    pub fee_recipient: String,
    pub fee_basis_points: u64,
    pub fee: u64,
    pub creator: String,
    pub creator_fee_basis_points: u64,
    pub creator_fee: u64,
    pub track_volume: u8,
    pub total_unclaimed_tokens: u64,
    pub total_claimed_tokens: u64,
    pub current_sol_volume: u64,
    pub last_update_timestamp: i64,
}

/// What a row of `pumpfun_trade_event_v2` holds.
pub struct TradeRow {
    pub signature: Seq<char>,
    pub slot: u64,
    pub transaction_index: u32,
    pub instruction_index: u32,
    pub mint: Seq<char>,
    pub sol_amount: u64,
    pub token_amount: u64,
    pub is_buy: u8,
    pub user: Seq<char>,
    pub timestamp: u32,
    pub virtual_sol_reserves: u64,
    pub virtual_token_reserves: u64,
    pub real_sol_reserves: u64,
    pub real_token_reserves: u64,
    pub fee_recipient: Seq<char>,
    pub fee_basis_points: u64,
    pub fee: u64,
    pub creator: Seq<char>,
    pub creator_fee_basis_points: u64,
    pub creator_fee: u64,
    pub track_volume: u8,
    pub total_unclaimed_tokens: u64,
    pub total_claimed_tokens: u64,
    pub current_sol_volume: u64,
    pub last_update_timestamp: i64,
}

impl View for PumpfunTradeEventV2 {
    type V = TradeRow;

    open spec fn view(&self) -> TradeRow {
        TradeRow {
            signature: self.signature@,
            slot: self.slot,
            transaction_index: self.transaction_index,
            instruction_index: self.instruction_index,
            mint: self.mint@,
            sol_amount: self.sol_amount,
            token_amount: self.token_amount,
            is_buy: self.is_buy,
            user: self.user@,
            timestamp: self.timestamp,
            virtual_sol_reserves: self.virtual_sol_reserves,
            virtual_token_reserves: self.virtual_token_reserves,
            real_sol_reserves: self.real_sol_reserves,
            real_token_reserves: self.real_token_reserves,
            fee_recipient: self.fee_recipient@,
            fee_basis_points: self.fee_basis_points,
            fee: self.fee,
            creator: self.creator@,
            creator_fee_basis_points: self.creator_fee_basis_points,
            creator_fee: self.creator_fee,
            track_volume: self.track_volume,
            total_unclaimed_tokens: self.total_unclaimed_tokens,
            total_claimed_tokens: self.total_claimed_tokens,
            current_sol_volume: self.current_sol_volume,
            last_update_timestamp: self.last_update_timestamp,
        }
    }
}

/// A row of `pumpfun_create_event_v2`: the creation of a token.
#[derive(Debug, Clone, PartialEq, Eq)]
pub struct PumpfunCreateEventV2 {
    pub signature: String,
    pub slot: u64,
    pub transaction_index: u32,
    pub instruction_index: u32,
    pub name: String,
    pub symbol: String,
    pub uri: String,
    pub mint: String,
    pub bonding_curve: String,
    pub user: String,
    pub creator: String,
    pub timestamp: u32,
    pub virtual_token_reserves: u64,
    pub virtual_sol_reserves: u64,
    pub real_token_reserves: u64,
    pub token_total_supply: u64,
}

/// What a row of `pumpfun_create_event_v2` holds.
pub struct CreateRow {
    pub signature: Seq<char>,
    pub slot: u64,
    pub transaction_index: u32,
    pub instruction_index: u32,
    pub name: Seq<char>,
    pub symbol: Seq<char>,
    pub uri: Seq<char>,
    pub mint: Seq<char>,
    pub bonding_curve: Seq<char>,
    pub user: Seq<char>,
    pub creator: Seq<char>,
    pub timestamp: u32,
    pub virtual_token_reserves: u64,
    pub virtual_sol_reserves: u64,
    pub real_token_reserves: u64,
    pub token_total_supply: u64,
}

impl View for PumpfunCreateEventV2 {
    type V = CreateRow;

    open spec fn view(&self) -> CreateRow {
        CreateRow {
            signature: self.signature@,
            slot: self.slot,
            transaction_index: self.transaction_index,
            instruction_index: self.instruction_index,
            name: self.name@,
            symbol: self.symbol@,
            uri: self.uri@,
            mint: self.mint@,
            bonding_curve: self.bonding_curve@,
            user: self.user@,
            creator: self.creator@,
            timestamp: self.timestamp,
            virtual_token_reserves: self.virtual_token_reserves,
            virtual_sol_reserves: self.virtual_sol_reserves,
            real_token_reserves: self.real_token_reserves,
            token_total_supply: self.token_total_supply,
        }
    }
}

/// A row of `pumpfun_migrate_event_v2`: the migration of a bonding curve to a pool.
#[derive(Debug, Clone, PartialEq, Eq)]
pub struct PumpfunMigrateEventV2 {
    pub signature: String,
    pub slot: u64,
    pub transaction_index: u32,
    pub instruction_index: u32,
    pub user: String,
    pub mint: String,
    pub mint_amount: u64,
    pub sol_amount: u64,
    pub pool_migration_fee: u64,
    pub bonding_curve: String,
    pub timestamp: u32,
    pub pool: String,
}

/// What a row of `pumpfun_migrate_event_v2` holds.
pub struct MigrateRow {
    pub signature: Seq<char>,
    pub slot: u64,
    pub transaction_index: u32,
    pub instruction_index: u32,
    pub user: Seq<char>,
    pub mint: Seq<char>,
    pub mint_amount: u64,
    pub sol_amount: u64,
    pub pool_migration_fee: u64,
    pub bonding_curve: Seq<char>,
    pub timestamp: u32,
    pub pool: Seq<char>,
}

impl View for PumpfunMigrateEventV2 {
    type V = MigrateRow;

    open spec fn view(&self) -> MigrateRow {
        MigrateRow {
            signature: self.signature@,
            slot: self.slot,
            transaction_index: self.transaction_index,
            instruction_index: self.instruction_index,
            user: self.user@,
            mint: self.mint@,
            mint_amount: self.mint_amount,
            sol_amount: self.sol_amount,
            pool_migration_fee: self.pool_migration_fee,
            bonding_curve: self.bonding_curve@,
            timestamp: self.timestamp,
            pool: self.pool@,
        }
    }
}

/// A row of `pumpfun_amm_buy_event_v2`: a purchase from a pool.
#[derive(Debug, Clone, PartialEq, Eq)]
pub struct PumpfunAmmBuyEventV2 {
    pub signature: String,
    pub slot: u64,
    pub transaction_index: u32,
    pub instruction_index: u32,
    pub base_mint: String,
    pub quote_mint: String,
    pub timestamp: u32,
    pub base_amount_out: u64,
    pub max_quote_amount_in: u64,
    pub user_base_token_reserves: u64,
    pub user_quote_token_reserves: u64,
    pub pool_base_token_reserves: u64,
    pub pool_quote_token_reserves: u64,
    pub quote_amount_in: u64,
    pub lp_fee_basis_points: u64,
    pub lp_fee: u64,
    pub protocol_fee_basis_points: u64,
    pub protocol_fee: u64,
    pub quote_amount_in_with_lp_fee: u64,
    pub user_quote_amount_in: u64,
    pub pool: String,
    pub user: String,
    pub user_base_token_account: String,
    pub user_quote_token_account: String,
    pub protocol_fee_recipient: String,
    pub protocol_fee_recipient_token_account: String,
    pub coin_creator: String,
    pub coin_creator_fee_basis_points: u64,
    pub coin_creator_fee: u64,
    pub track_volume: u8,
    pub total_unclaimed_tokens: u64,
    pub total_claimed_tokens: u64,
    pub current_sol_volume: u64,
    pub last_update_timestamp: i64,
    pub is_main_pool: u8,
}

/// What a row of `pumpfun_amm_buy_event_v2` holds.
pub struct AmmBuyRow {
    pub signature: Seq<char>,
    pub slot: u64,
    pub transaction_index: u32,
    pub instruction_index: u32,
    pub base_mint: Seq<char>,
    pub quote_mint: Seq<char>,
    pub timestamp: u32,
    pub base_amount_out: u64,
    pub max_quote_amount_in: u64,
    pub user_base_token_reserves: u64,
    pub user_quote_token_reserves: u64,
    pub pool_base_token_reserves: u64,
    pub pool_quote_token_reserves: u64,
    pub quote_amount_in: u64,
    pub lp_fee_basis_points: u64,
    pub lp_fee: u64,
    pub protocol_fee_basis_points: u64,
    pub protocol_fee: u64,
    pub quote_amount_in_with_lp_fee: u64,
    pub user_quote_amount_in: u64,
    pub pool: Seq<char>,
    pub user: Seq<char>,
    pub user_base_token_account: Seq<char>,
    pub user_quote_token_account: Seq<char>,
    pub protocol_fee_recipient: Seq<char>,
    pub protocol_fee_recipient_token_account: Seq<char>,
    pub coin_creator: Seq<char>,
    pub coin_creator_fee_basis_points: u64,
    pub coin_creator_fee: u64,
    pub track_volume: u8,
    pub total_unclaimed_tokens: u64,
    pub total_claimed_tokens: u64,
    pub current_sol_volume: u64,
    pub last_update_timestamp: i64,
    pub is_main_pool: u8,
}

impl View for PumpfunAmmBuyEventV2 {
    type V = AmmBuyRow;

    open spec fn view(&self) -> AmmBuyRow {
        AmmBuyRow {
            signature: self.signature@,
            slot: self.slot,
            transaction_index: self.transaction_index,
            instruction_index: self.instruction_index,
            base_mint: self.base_mint@,
            quote_mint: self.quote_mint@,
            timestamp: self.timestamp,
            base_amount_out: self.base_amount_out,
            max_quote_amount_in: self.max_quote_amount_in,
            user_base_token_reserves: self.user_base_token_reserves,
            user_quote_token_reserves: self.user_quote_token_reserves,
            pool_base_token_reserves: self.pool_base_token_reserves,
            pool_quote_token_reserves: self.pool_quote_token_reserves,
            quote_amount_in: self.quote_amount_in,
            lp_fee_basis_points: self.lp_fee_basis_points,
            lp_fee: self.lp_fee,
            protocol_fee_basis_points: self.protocol_fee_basis_points,
            protocol_fee: self.protocol_fee,
            quote_amount_in_with_lp_fee: self.quote_amount_in_with_lp_fee,
            user_quote_amount_in: self.user_quote_amount_in,
            pool: self.pool@,
            user: self.user@,
            user_base_token_account: self.user_base_token_account@,
            user_quote_token_account: self.user_quote_token_account@,
            protocol_fee_recipient: self.protocol_fee_recipient@,
            protocol_fee_recipient_token_account: self.protocol_fee_recipient_token_account@,
            coin_creator: self.coin_creator@,
            coin_creator_fee_basis_points: self.coin_creator_fee_basis_points,
            coin_creator_fee: self.coin_creator_fee,
            track_volume: self.track_volume,
            total_unclaimed_tokens: self.total_unclaimed_tokens,
            total_claimed_tokens: self.total_claimed_tokens,
            current_sol_volume: self.current_sol_volume,
            last_update_timestamp: self.last_update_timestamp,
            is_main_pool: self.is_main_pool,
        }
    }
}

/// A row of `pumpfun_amm_sell_event_v2`: a sale to a pool.
#[derive(Debug, Clone, PartialEq, Eq)]
pub struct PumpfunAmmSellEventV2 {
    pub signature: String,
    pub slot: u64,
    pub transaction_index: u32,
    pub instruction_index: u32,
    pub base_mint: String,
    pub quote_mint: String,
    pub timestamp: u32,
    pub base_amount_in: u64,
    pub min_quote_amount_out: u64,
    pub user_base_token_reserves: u64,
    pub user_quote_token_reserves: u64,
    pub pool_base_token_reserves: u64,
    pub pool_quote_token_reserves: u64,
    pub quote_amount_out: u64,
    pub lp_fee_basis_points: u64,
    pub lp_fee: u64,
    pub protocol_fee_basis_points: u64,
    pub protocol_fee: u64,
    pub quote_amount_out_without_lp_fee: u64,
    pub user_quote_amount_out: u64,
    pub pool: String,
    pub user: String,
    pub user_base_token_account: String,
    pub user_quote_token_account: String,
    pub protocol_fee_recipient: String,
    pub protocol_fee_recipient_token_account: String,
    pub coin_creator: String,
    pub coin_creator_fee_basis_points: u64,
    pub coin_creator_fee: u64,
    pub is_main_pool: u8,
}

/// What a row of `pumpfun_amm_sell_event_v2` holds.
pub struct AmmSellRow {
    pub signature: Seq<char>,
    pub slot: u64,
    pub transaction_index: u32,
    pub instruction_index: u32,
    pub base_mint: Seq<char>,
    pub quote_mint: Seq<char>,
    pub timestamp: u32,
    pub base_amount_in: u64,
    pub min_quote_amount_out: u64,
    pub user_base_token_reserves: u64,
    pub user_quote_token_reserves: u64,
    pub pool_base_token_reserves: u64,
    pub pool_quote_token_reserves: u64,
    pub quote_amount_out: u64,
    pub lp_fee_basis_points: u64,
    pub lp_fee: u64,
    pub protocol_fee_basis_points: u64,
    pub protocol_fee: u64,
    pub quote_amount_out_without_lp_fee: u64,
    pub user_quote_amount_out: u64,
    pub pool: Seq<char>,
    pub user: Seq<char>,
    pub user_base_token_account: Seq<char>,
    pub user_quote_token_account: Seq<char>,
    pub protocol_fee_recipient: Seq<char>,
    pub protocol_fee_recipient_token_account: Seq<char>,
    pub coin_creator: Seq<char>,
    pub coin_creator_fee_basis_points: u64,
    pub coin_creator_fee: u64,
    pub is_main_pool: u8,
}

impl View for PumpfunAmmSellEventV2 {
    type V = AmmSellRow;

    open spec fn view(&self) -> AmmSellRow {
        AmmSellRow {
            signature: self.signature@,
            slot: self.slot,
            transaction_index: self.transaction_index,
            instruction_index: self.instruction_index,
            base_mint: self.base_mint@,
            quote_mint: self.quote_mint@,
            timestamp: self.timestamp,
            base_amount_in: self.base_amount_in,
            min_quote_amount_out: self.min_quote_amount_out,
            user_base_token_reserves: self.user_base_token_reserves,
            user_quote_token_reserves: self.user_quote_token_reserves,
            pool_base_token_reserves: self.pool_base_token_reserves,
            pool_quote_token_reserves: self.pool_quote_token_reserves,
            quote_amount_out: self.quote_amount_out,
            lp_fee_basis_points: self.lp_fee_basis_points,
            lp_fee: self.lp_fee,
            protocol_fee_basis_points: self.protocol_fee_basis_points,
            protocol_fee: self.protocol_fee,
            quote_amount_out_without_lp_fee: self.quote_amount_out_without_lp_fee,
            user_quote_amount_out: self.user_quote_amount_out,
            pool: self.pool@,
            user: self.user@,
            user_base_token_account: self.user_base_token_account@,
            user_quote_token_account: self.user_quote_token_account@,
            protocol_fee_recipient: self.protocol_fee_recipient@,
            protocol_fee_recipient_token_account: self.protocol_fee_recipient_token_account@,
            coin_creator: self.coin_creator@,
            coin_creator_fee_basis_points: self.coin_creator_fee_basis_points,
            coin_creator_fee: self.coin_creator_fee,
            is_main_pool: self.is_main_pool,
        }
    }
}

/// A row of `pumpfun_amm_create_pool_event_v2`: the creation of a pool.
#[derive(Debug, Clone, PartialEq, Eq)]
pub struct PumpfunAmmCreatePoolEventV2 {
    pub signature: String,
    pub slot: u64,
    pub transaction_index: u32,
    pub instruction_index: u32,
    pub timestamp: u32,
    pub index: u32,
    pub creator: String,
    pub base_mint: String,
    pub quote_mint: String,
    pub base_mint_decimals: u32,
    pub quote_mint_decimals: u32,
    pub base_amount_in: u64,
    pub quote_amount_in: u64,
    pub pool_base_amount: u64,
    pub pool_quote_amount: u64,
    pub minimum_liquidity: u64,
    pub initial_liquidity: u64,
    pub lp_token_amount_out: u64,
    pub pool_bump: u32,
    pub pool: String,
    pub lp_mint: String,
    pub user_base_token_account: String,
    pub user_quote_token_account: String,
    pub coin_creator: String,
    pub is_main_pool: u8,
}

/// What a row of `pumpfun_amm_create_pool_event_v2` holds.
pub struct AmmCreatePoolRow {
    pub signature: Seq<char>,
    pub slot: u64,
    pub transaction_index: u32,
    pub instruction_index: u32,
    pub timestamp: u32,
    pub index: u32,
    pub creator: Seq<char>,
    pub base_mint: Seq<char>,
    pub quote_mint: Seq<char>,
    pub base_mint_decimals: u32,
    pub quote_mint_decimals: u32,
    pub base_amount_in: u64,
    pub quote_amount_in: u64,
    pub pool_base_amount: u64,
    pub pool_quote_amount: u64,
    pub minimum_liquidity: u64,
    pub initial_liquidity: u64,
    pub lp_token_amount_out: u64,
    pub pool_bump: u32,
    pub pool: Seq<char>,
    pub lp_mint: Seq<char>,
    pub user_base_token_account: Seq<char>,
    pub user_quote_token_account: Seq<char>,
    pub coin_creator: Seq<char>,
    pub is_main_pool: u8,
}

impl View for PumpfunAmmCreatePoolEventV2 {
    type V = AmmCreatePoolRow;

    open spec fn view(&self) -> AmmCreatePoolRow {
        AmmCreatePoolRow {
            signature: self.signature@,
            slot: self.slot,
            transaction_index: self.transaction_index,
            instruction_index: self.instruction_index,
            timestamp: self.timestamp,
            index: self.index,
            creator: self.creator@,
            base_mint: self.base_mint@,
            quote_mint: self.quote_mint@,
            base_mint_decimals: self.base_mint_decimals,
            quote_mint_decimals: self.quote_mint_decimals,
            base_amount_in: self.base_amount_in,
            quote_amount_in: self.quote_amount_in,
            pool_base_amount: self.pool_base_amount,
            pool_quote_amount: self.pool_quote_amount,
            minimum_liquidity: self.minimum_liquidity,
            initial_liquidity: self.initial_liquidity,
            lp_token_amount_out: self.lp_token_amount_out,
            pool_bump: self.pool_bump,
            pool: self.pool@,
            lp_mint: self.lp_mint@,
            user_base_token_account: self.user_base_token_account@,
            user_quote_token_account: self.user_quote_token_account@,
            coin_creator: self.coin_creator@,
            is_main_pool: self.is_main_pool,
        }
    }
}

/// A row of `pumpfun_amm_deposit_event_v2`: a deposit of liquidity into a pool.
#[derive(Debug, Clone, PartialEq, Eq)]
pub struct PumpfunAmmDepositEventV2 {
    pub signature: String,
    pub slot: u64,
    pub transaction_index: u32,
    pub instruction_index: u32,
    pub base_mint: String,
    pub quote_mint: String,
    pub timestamp: u32,
    pub lp_token_amount_out: u64,
    pub max_base_amount_in: u64,
    pub max_quote_amount_in: u64,
    pub user_base_token_reserves: u64,
    pub user_quote_token_reserves: u64,
    pub pool_base_token_reserves: u64,
    pub pool_quote_token_reserves: u64,
    pub base_amount_in: u64,
    pub quote_amount_in: u64,
    pub lp_mint_supply: u64,
    pub pool: String,
    pub user: String,
    pub user_base_token_account: String,
    pub user_quote_token_account: String,
    pub user_pool_token_account: String,
    pub is_main_pool: u8,
}

/// What a row of `pumpfun_amm_deposit_event_v2` holds.
pub struct AmmDepositRow {
    pub signature: Seq<char>,
    pub slot: u64,
    pub transaction_index: u32,
    pub instruction_index: u32,
    pub base_mint: Seq<char>,
    pub quote_mint: Seq<char>,
    pub timestamp: u32,
    pub lp_token_amount_out: u64,
    pub max_base_amount_in: u64,
    pub max_quote_amount_in: u64,
    pub user_base_token_reserves: u64,
    pub user_quote_token_reserves: u64,
    pub pool_base_token_reserves: u64,
    pub pool_quote_token_reserves: u64,
    pub base_amount_in: u64,
    pub quote_amount_in: u64,
    pub lp_mint_supply: u64,
    pub pool: Seq<char>,
    pub user: Seq<char>,
    pub user_base_token_account: Seq<char>,
    pub user_quote_token_account: Seq<char>,
    pub user_pool_token_account: Seq<char>,
    pub is_main_pool: u8,
}

impl View for PumpfunAmmDepositEventV2 {
    type V = AmmDepositRow;

    open spec fn view(&self) -> AmmDepositRow {
        AmmDepositRow {
            signature: self.signature@,
            slot: self.slot,
            transaction_index: self.transaction_index,
            instruction_index: self.instruction_index,
            base_mint: self.base_mint@,
            quote_mint: self.quote_mint@,
            timestamp: self.timestamp,
            lp_token_amount_out: self.lp_token_amount_out,
            max_base_amount_in: self.max_base_amount_in,
            max_quote_amount_in: self.max_quote_amount_in,
            user_base_token_reserves: self.user_base_token_reserves,
            user_quote_token_reserves: self.user_quote_token_reserves,
            pool_base_token_reserves: self.pool_base_token_reserves,
            pool_quote_token_reserves: self.pool_quote_token_reserves,
            base_amount_in: self.base_amount_in,
            quote_amount_in: self.quote_amount_in,
            lp_mint_supply: self.lp_mint_supply,
            pool: self.pool@,
            user: self.user@,
            user_base_token_account: self.user_base_token_account@,
            user_quote_token_account: self.user_quote_token_account@,
            user_pool_token_account: self.user_pool_token_account@,
            is_main_pool: self.is_main_pool,
        }
    }
}

/// A row of `pumpfun_amm_withdraw_event_v2`: a withdrawal of liquidity from a pool.
#[derive(Debug, Clone, PartialEq, Eq)]
pub struct PumpfunAmmWithdrawEventV2 {
    pub signature: String,
    pub slot: u64,
    pub transaction_index: u32,
    pub instruction_index: u32,
    pub base_mint: String,
    pub quote_mint: String,
    pub timestamp: u32,
    pub lp_token_amount_in: u64,
    pub min_base_amount_out: u64,
    pub min_quote_amount_out: u64,
    pub user_base_token_reserves: u64,
    pub user_quote_token_reserves: u64,
    pub pool_base_token_reserves: u64,
    pub pool_quote_token_reserves: u64,
    pub base_amount_out: u64,
    pub quote_amount_out: u64,
    pub lp_mint_supply: u64,
    pub pool: String,
    pub user: String,
    pub user_base_token_account: String,
    pub user_quote_token_account: String,
    pub user_pool_token_account: String,
    pub is_main_pool: u8,
}

/// What a row of `pumpfun_amm_withdraw_event_v2` holds.
pub struct AmmWithdrawRow {
    pub signature: Seq<char>,
    pub slot: u64,
    pub transaction_index: u32,
    pub instruction_index: u32,
    pub base_mint: Seq<char>,
    pub quote_mint: Seq<char>,
    pub timestamp: u32,
    pub lp_token_amount_in: u64,
    pub min_base_amount_out: u64,
    pub min_quote_amount_out: u64,
    pub user_base_token_reserves: u64,
    pub user_quote_token_reserves: u64,
    pub pool_base_token_reserves: u64,
    pub pool_quote_token_reserves: u64,
    pub base_amount_out: u64,
    pub quote_amount_out: u64,
    pub lp_mint_supply: u64,
    pub pool: Seq<char>,
    pub user: Seq<char>,
    pub user_base_token_account: Seq<char>,
    pub user_quote_token_account: Seq<char>,
    pub user_pool_token_account: Seq<char>,
    pub is_main_pool: u8,
}

impl View for PumpfunAmmWithdrawEventV2 {
    type V = AmmWithdrawRow;

    open spec fn view(&self) -> AmmWithdrawRow {
        AmmWithdrawRow {
            signature: self.signature@,
            slot: self.slot,
            transaction_index: self.transaction_index,
            instruction_index: self.instruction_index,
            base_mint: self.base_mint@,
            quote_mint: self.quote_mint@,
            timestamp: self.timestamp,
            lp_token_amount_in: self.lp_token_amount_in,
            min_base_amount_out: self.min_base_amount_out,
            min_quote_amount_out: self.min_quote_amount_out,
            user_base_token_reserves: self.user_base_token_reserves,
            user_quote_token_reserves: self.user_quote_token_reserves,
            pool_base_token_reserves: self.pool_base_token_reserves,
            pool_quote_token_reserves: self.pool_quote_token_reserves,
            base_amount_out: self.base_amount_out,
            quote_amount_out: self.quote_amount_out,
            lp_mint_supply: self.lp_mint_supply,
            pool: self.pool@,
            user: self.user@,
            user_base_token_account: self.user_base_token_account@,
            user_quote_token_account: self.user_quote_token_account@,
            user_pool_token_account: self.user_pool_token_account@,
            is_main_pool: self.is_main_pool,
        }
    }
}

/// The eight kinds of event, one per table.
#[derive(Debug, Clone, Copy, PartialEq, Eq, Structural)]
pub enum EventKind {
    Trade,
    Create,
    Migrate,
    AmmBuy,
    AmmSell,
    AmmCreatePool,
    AmmDeposit,
    AmmWithdraw,
}

/// A row of any of the eight tables.
#[derive(Debug, Clone, PartialEq, Eq)]
pub enum EventRow {
    Trade(PumpfunTradeEventV2),
    Create(PumpfunCreateEventV2),
    Migrate(PumpfunMigrateEventV2),
    AmmBuy(PumpfunAmmBuyEventV2),
    AmmSell(PumpfunAmmSellEventV2),
    AmmCreatePool(PumpfunAmmCreatePoolEventV2),
    AmmDeposit(PumpfunAmmDepositEventV2),
    AmmWithdraw(PumpfunAmmWithdrawEventV2),
}

/// What a row of any of the eight tables holds.
pub enum RowView {
    Trade(TradeRow),
    Create(CreateRow),
    Migrate(MigrateRow),
    AmmBuy(AmmBuyRow),
    AmmSell(AmmSellRow),
    AmmCreatePool(AmmCreatePoolRow),
    AmmDeposit(AmmDepositRow),
    AmmWithdraw(AmmWithdrawRow),
}

impl View for EventRow {
    type V = RowView;

    open spec fn view(&self) -> RowView {
        match *self {
            EventRow::Trade(row) => RowView::Trade(row@),
            EventRow::Create(row) => RowView::Create(row@),
            EventRow::Migrate(row) => RowView::Migrate(row@),
            EventRow::AmmBuy(row) => RowView::AmmBuy(row@),
            EventRow::AmmSell(row) => RowView::AmmSell(row@),
            EventRow::AmmCreatePool(row) => RowView::AmmCreatePool(row@),
            EventRow::AmmDeposit(row) => RowView::AmmDeposit(row@),
            EventRow::AmmWithdraw(row) => RowView::AmmWithdraw(row@),
        }
    }
}

impl RowView {
    /// The table that the row belongs to.
    pub open spec fn kind(self) -> EventKind {
        match self {
            RowView::Trade(_) => EventKind::Trade,
            RowView::Create(_) => EventKind::Create,
            RowView::Migrate(_) => EventKind::Migrate,
            RowView::AmmBuy(_) => EventKind::AmmBuy,
            RowView::AmmSell(_) => EventKind::AmmSell,
            RowView::AmmCreatePool(_) => EventKind::AmmCreatePool,
            RowView::AmmDeposit(_) => EventKind::AmmDeposit,
            RowView::AmmWithdraw(_) => EventKind::AmmWithdraw,
        }
    }

    /// The position, in its transaction, of the event that the row records.
    pub open spec fn instruction_index(self) -> u32 {
        match self {
            RowView::Trade(row) => row.instruction_index,
            RowView::Create(row) => row.instruction_index,
            RowView::Migrate(row) => row.instruction_index,
            RowView::AmmBuy(row) => row.instruction_index,
            RowView::AmmSell(row) => row.instruction_index,
            RowView::AmmCreatePool(row) => row.instruction_index,
            RowView::AmmDeposit(row) => row.instruction_index,
            RowView::AmmWithdraw(row) => row.instruction_index,
        }
    }
}

/// The views of a run of rows, in order.
pub open spec fn views<T: View>(rows: Seq<T>) -> Seq<T::V> {
    rows.map_values(|row: T| row@)
}

} // verus!
