//! A parsed transaction as the extractor reads it: an ordered list of
//! instructions, each with a type tag and, where the parser knew the program, a
//! typed payload.

use vstd::prelude::*;

verus! {

/// The key of an account.
pub type Pubkey = [u8; 32];

/// The log record of a trade on a bonding curve.
#[derive(Debug, Clone, PartialEq, Eq)]
pub struct TradeEvent {
    pub mint: Pubkey,
    pub sol_amount: u64,
    pub token_amount: u64,
    pub is_buy: bool,
    pub user: Pubkey,
    pub timestamp: i64,
    pub virtual_sol_reserves: u64,
    pub virtual_token_reserves: u64,
    pub real_sol_reserves: u64,
    pub real_token_reserves: u64,
    pub fee_recipient: Pubkey,
    pub fee_basis_points: u64,
    pub fee: u64,
    pub creator: Pubkey,
    pub creator_fee_basis_points: u64,
    pub creator_fee: u64,
    pub track_volume: bool,
    pub total_unclaimed_tokens: u64,
    pub total_claimed_tokens: u64,
    pub current_sol_volume: u64,
    pub last_update_timestamp: i64,
}

/// The log record of the creation of a token.
#[derive(Debug, Clone, PartialEq, Eq)]
pub struct CreateEvent {
    pub name: String,
    pub symbol: String,
    pub uri: String,
    pub mint: Pubkey,
    pub bonding_curve: Pubkey,
    pub user: Pubkey,
    pub creator: Pubkey,
    pub timestamp: i64,
    pub virtual_token_reserves: u64,
    pub virtual_sol_reserves: u64,
    pub real_token_reserves: u64,
    pub token_total_supply: u64,
}

/// The log record of the migration of a bonding curve to a pool.
#[derive(Debug, Clone, PartialEq, Eq)]
pub struct MigrationEvent {
    pub user: Pubkey,
    pub mint: Pubkey,
    pub mint_amount: u64,
    pub sol_amount: u64,
    pub pool_migration_fee: u64,
    pub bonding_curve: Pubkey,
    pub timestamp: i64,
    pub pool: Pubkey,
}

/// The log record of a purchase from a pool.
#[derive(Debug, Clone, PartialEq, Eq)]
pub struct AmmBuyEvent {
    pub timestamp: i64,
    pub base_amount_out: u64,
    pub max_quote_amount_in: u64,
    pub user_base_token_reserves: u64,
    pub user_quote_token_reserves: u64,
    pub pool_base_token_reserves: u64,
    pub pool_quote_token_reserves: u64,
    pub quote_amount_in: u64,
    pub lp_fee_basis_points: u64,
    pub lp_fee: u64,
    pub protocol_fee_basis_points: u64,
    pub protocol_fee: u64,
    pub quote_amount_in_with_lp_fee: u64,
    pub user_quote_amount_in: u64,
    pub coin_creator: Pubkey,
    pub coin_creator_fee_basis_points: u64,
    pub coin_creator_fee: u64,
    pub track_volume: bool,
    pub total_unclaimed_tokens: u64,
    pub total_claimed_tokens: u64,
    pub current_sol_volume: u64,
    pub last_update_timestamp: i64,
}

/// The log record of a sale to a pool.
#[derive(Debug, Clone, PartialEq, Eq)]
pub struct AmmSellEvent {
    pub timestamp: i64,
    pub base_amount_in: u64,
    pub min_quote_amount_out: u64,
    pub user_base_token_reserves: u64,
    pub user_quote_token_reserves: u64,
    pub pool_base_token_reserves: u64,
    pub pool_quote_token_reserves: u64,
    pub quote_amount_out: u64,
    pub lp_fee_basis_points: u64,
    pub lp_fee: u64,
    pub protocol_fee_basis_points: u64,
    pub protocol_fee: u64,
    pub quote_amount_out_without_lp_fee: u64,
    pub user_quote_amount_out: u64,
    pub coin_creator: Pubkey,
    pub coin_creator_fee_basis_points: u64,
    pub coin_creator_fee: u64,
}

/// The log record of the creation of a pool.
#[derive(Debug, Clone, PartialEq, Eq)]
pub struct AmmCreatePoolEvent {
    pub timestamp: i64,
    pub index: u32,
    pub base_mint_decimals: u32,
    pub quote_mint_decimals: u32,
    pub base_amount_in: u64,
    pub quote_amount_in: u64,
    pub pool_base_amount: u64,
    pub pool_quote_amount: u64,
    pub minimum_liquidity: u64,
    pub initial_liquidity: u64,
    pub lp_token_amount_out: u64,
    pub pool_bump: u32,
    pub coin_creator: Pubkey,
}

/// The log record of a deposit of liquidity into a pool.
#[derive(Debug, Clone, PartialEq, Eq)]
pub struct AmmDepositEvent {
    pub timestamp: i64,
    pub lp_token_amount_out: u64,
    pub max_base_amount_in: u64,
    pub max_quote_amount_in: u64,
    pub user_base_token_reserves: u64,
    pub user_quote_token_reserves: u64,
    pub pool_base_token_reserves: u64,
    pub pool_quote_token_reserves: u64,
    pub base_amount_in: u64,
    pub quote_amount_in: u64,
    pub lp_mint_supply: u64,
}

/// The log record of a withdrawal of liquidity from a pool.
#[derive(Debug, Clone, PartialEq, Eq)]
pub struct AmmWithdrawEvent {
    pub timestamp: i64,
    pub lp_token_amount_in: u64,
    pub min_base_amount_out: u64,
    pub min_quote_amount_out: u64,
    pub user_base_token_reserves: u64,
    pub user_quote_token_reserves: u64,
    pub pool_base_token_reserves: u64,
    pub pool_quote_token_reserves: u64,
    pub base_amount_out: u64,
    pub quote_amount_out: u64,
    pub lp_mint_supply: u64,
}

/// The accounts named by the call that made a purchase from a pool.
#[derive(Debug, Clone, PartialEq, Eq)]
pub struct AmmBuyAccounts {
    pub base_mint: Pubkey,
    pub quote_mint: Pubkey,
    pub pool: Pubkey,
    pub user: Pubkey,
    pub user_base_token_account: Pubkey,
    pub user_quote_token_account: Pubkey,
    pub protocol_fee_recipient: Pubkey,
    pub protocol_fee_recipient_token_account: Pubkey,
}

/// The call that made a purchase from a pool.
#[derive(Debug, Clone, PartialEq, Eq)]
pub struct AmmBuy {
    pub accounts: Option<AmmBuyAccounts>,
    pub is_main_pool: bool,
}

/// The accounts named by the call that made a sale to a pool.
#[derive(Debug, Clone, PartialEq, Eq)]
pub struct AmmSellAccounts {
    pub base_mint: Pubkey,
    pub quote_mint: Pubkey,
    pub pool: Pubkey,
    pub user: Pubkey,
    pub user_base_token_account: Pubkey,
    pub user_quote_token_account: Pubkey,
    pub protocol_fee_recipient: Pubkey,
    pub protocol_fee_recipient_token_account: Pubkey,
}

/// The call that made a sale to a pool.
#[derive(Debug, Clone, PartialEq, Eq)]
pub struct AmmSell {
    pub accounts: Option<AmmSellAccounts>,
    pub is_main_pool: bool,
}

/// The accounts named by the call that made the creation of a pool.
#[derive(Debug, Clone, PartialEq, Eq)]
pub struct AmmCreatePoolAccounts {
    pub creator: Pubkey,
    pub base_mint: Pubkey,
    pub quote_mint: Pubkey,
    pub pool: Pubkey,
    pub lp_mint: Pubkey,
    pub user_base_token_account: Pubkey,
    pub user_quote_token_account: Pubkey,
}

/// The call that made the creation of a pool.
#[derive(Debug, Clone, PartialEq, Eq)]
pub struct AmmCreatePool {
    pub accounts: Option<AmmCreatePoolAccounts>,
    pub is_main_pool: bool,
}

/// The accounts named by the call that made a deposit of liquidity into a pool.
#[derive(Debug, Clone, PartialEq, Eq)]
pub struct AmmDepositAccounts {
    pub base_mint: Pubkey,
    pub quote_mint: Pubkey,
    pub pool: Pubkey,
    pub user: Pubkey,
    pub user_base_token_account: Pubkey,
    pub user_quote_token_account: Pubkey,
    pub user_pool_token_account: Pubkey,
}

/// The call that made a deposit of liquidity into a pool.
#[derive(Debug, Clone, PartialEq, Eq)]
pub struct AmmDeposit {
    pub accounts: Option<AmmDepositAccounts>,
    pub is_main_pool: bool,
}

/// The accounts named by the call that made a withdrawal of liquidity from a pool.
#[derive(Debug, Clone, PartialEq, Eq)]
pub struct AmmWithdrawAccounts {
    pub base_mint: Pubkey,
    pub quote_mint: Pubkey,
    pub pool: Pubkey,
    pub user: Pubkey,
    pub user_base_token_account: Pubkey,
    pub user_quote_token_account: Pubkey,
    pub user_pool_token_account: Pubkey,
}

/// The call that made a withdrawal of liquidity from a pool.
#[derive(Debug, Clone, PartialEq, Eq)]
pub struct AmmWithdraw {
    pub accounts: Option<AmmWithdrawAccounts>,
    pub is_main_pool: bool,
}

/// The typed payload of an instruction.
#[derive(Debug, Clone, PartialEq, Eq)]
pub enum Parsed {
    PumpfunTradeEvent(TradeEvent),
    PumpfunCreateEvent(CreateEvent),
    PumpfunMigrationEvent(MigrationEvent),
    PumpfunAmmBuyEvent(AmmBuyEvent),
    PumpfunAmmSellEvent(AmmSellEvent),
    PumpfunAmmCreatePoolEvent(AmmCreatePoolEvent),
    PumpfunAmmDepositEvent(AmmDepositEvent),
    PumpfunAmmWithdrawEvent(AmmWithdrawEvent),
    PumpfunAmmBuy(AmmBuy),
    PumpfunAmmSell(AmmSell),
    PumpfunAmmCreatePool(AmmCreatePool),
    PumpfunAmmDeposit(AmmDeposit),
    PumpfunAmmWithdraw(AmmWithdraw),
    /// The call that buys on a bonding curve; it leaves a trade event.
    PumpfunBuy,
    /// The call that sells on a bonding curve; it leaves a trade event.
    PumpfunSell,
    /// The call that creates a token; it leaves a create event.
    PumpfunCreate,
    /// The call that migrates a bonding curve to a pool; it leaves a migrate
    /// event.
    PumpfunMigrate,
    /// Any other call that the parser decoded; no event pairs with it.
    Other,
}

/// One instruction of a transaction: a call, or the log record that a call left.
#[derive(Debug, Clone, PartialEq, Eq)]
pub struct Instruction {
    /// The type tag, such as `PumpFunTradeEvent`.
    pub type_tag: String,
    pub parsed: Option<Parsed>,
}

/// The key that a run of bytes holds: the bytes themselves where there are
/// 32 of them, and nothing otherwise. Bytes that hold no key are not part of
/// a transaction: what carries them does not decode.
pub fn key_from_bytes(bytes: &[u8]) -> (key: Option<Pubkey>)
    ensures
        bytes@.len() == 32 ==> key is Some && key->0@ == bytes@,
        bytes@.len() != 32 ==> key is None,
{
    if bytes.len() != 32 {
        return None;
    }
    let mut key: Pubkey = [0u8; 32];
    let mut i: usize = 0;
    while i < 32
        invariant
            i <= 32,
            bytes@.len() == 32,
            forall|j: int| 0 <= j < i ==> key@[j] == bytes@[j],
        decreases 32 - i,
    {
        key.set(i, bytes[i]);
        i = i + 1;
    }
    assert(key@ =~= bytes@);
    Some(key)
}

/// The signature that a run of bytes holds: the bytes themselves where there
/// are 64 of them, and nothing otherwise.
pub fn signature_from_bytes(bytes: &[u8]) -> (signature: Option<[u8; 64]>)
    ensures
        bytes@.len() == 64 ==> signature is Some && signature->0@ == bytes@,
        bytes@.len() != 64 ==> signature is None,
{
    if bytes.len() != 64 {
        return None;
    }
    let mut signature: [u8; 64] = [0u8; 64];
    let mut i: usize = 0;
    while i < 64
        invariant
            i <= 64,
            bytes@.len() == 64,
            forall|j: int| 0 <= j < i ==> signature@[j] == bytes@[j],
        decreases 64 - i,
    {
        signature.set(i, bytes[i]);
        i = i + 1;
    }
    assert(signature@ =~= bytes@);
    Some(signature)
}

/// A parsed transaction.
#[derive(Debug, Clone, PartialEq, Eq)]
pub struct Transaction {
    pub signature: [u8; 64],
    pub slot: u64,
    /// The position of the transaction in its slot.
    pub index: u64,
    pub instructions: Vec<Instruction>,
}

} // verus!
