//! Eight parallel sequences of rows, one per table: the model of a batch.

use vstd::prelude::*;
use crate::clickhouse_util::clickhouse_events::{
    AmmBuyRow, AmmCreatePoolRow, AmmDepositRow, AmmSellRow, AmmWithdrawRow, CreateRow,
    MigrateRow, TradeRow,
};

verus! {

/// What a batch holds: for each table its rows, in the order in which they
/// arrived.
pub struct Tables {
    pub pumpfun_trade_event: Seq<TradeRow>,
    pub pumpfun_create_event: Seq<CreateRow>,
    pub pumpfun_migrate_event: Seq<MigrateRow>,
    pub pumpfun_amm_buy_event: Seq<AmmBuyRow>,
    pub pumpfun_amm_sell_event: Seq<AmmSellRow>,
    pub pumpfun_amm_create_pool_event: Seq<AmmCreatePoolRow>,
    pub pumpfun_amm_deposit_event: Seq<AmmDepositRow>,
    pub pumpfun_amm_withdraw_event: Seq<AmmWithdrawRow>,
}

impl Tables {
    /// The batch without rows.
    pub open spec fn empty() -> Tables {
        Tables {
            pumpfun_trade_event: Seq::empty(),
            pumpfun_create_event: Seq::empty(),
            pumpfun_migrate_event: Seq::empty(),
            pumpfun_amm_buy_event: Seq::empty(),
            pumpfun_amm_sell_event: Seq::empty(),
            pumpfun_amm_create_pool_event: Seq::empty(),
            pumpfun_amm_deposit_event: Seq::empty(),
            pumpfun_amm_withdraw_event: Seq::empty(),
        }
    }

    /// This batch with the rows of `other` after its own, table by table.
    pub open spec fn concat(self, other: Tables) -> Tables {
        Tables {
            pumpfun_trade_event: self.pumpfun_trade_event + other.pumpfun_trade_event,
            pumpfun_create_event: self.pumpfun_create_event + other.pumpfun_create_event,
            pumpfun_migrate_event: self.pumpfun_migrate_event + other.pumpfun_migrate_event,
            pumpfun_amm_buy_event: self.pumpfun_amm_buy_event + other.pumpfun_amm_buy_event,
            pumpfun_amm_sell_event: self.pumpfun_amm_sell_event + other.pumpfun_amm_sell_event,
            pumpfun_amm_create_pool_event: self.pumpfun_amm_create_pool_event
                + other.pumpfun_amm_create_pool_event,
            pumpfun_amm_deposit_event: self.pumpfun_amm_deposit_event
                + other.pumpfun_amm_deposit_event,
            pumpfun_amm_withdraw_event: self.pumpfun_amm_withdraw_event
                + other.pumpfun_amm_withdraw_event,
        }
    }

    /// The number of rows in all tables together.
    pub open spec fn total(self) -> nat {
        self.pumpfun_trade_event.len()
            + self.pumpfun_create_event.len()
            + self.pumpfun_migrate_event.len()
            + self.pumpfun_amm_buy_event.len()
            + self.pumpfun_amm_sell_event.len()
            + self.pumpfun_amm_create_pool_event.len()
            + self.pumpfun_amm_deposit_event.len()
            + self.pumpfun_amm_withdraw_event.len()
    }

    /// Whether any one table holds at least `threshold` rows.
    pub open spec fn reaches(self, threshold: int) -> bool {
        self.pumpfun_trade_event.len() >= threshold
            || self.pumpfun_create_event.len() >= threshold
            || self.pumpfun_migrate_event.len() >= threshold
            || self.pumpfun_amm_buy_event.len() >= threshold
            || self.pumpfun_amm_sell_event.len() >= threshold
            || self.pumpfun_amm_create_pool_event.len() >= threshold
            || self.pumpfun_amm_deposit_event.len() >= threshold
            || self.pumpfun_amm_withdraw_event.len() >= threshold
    }

    /// Whether no table holds a row.
    pub open spec fn is_empty(self) -> bool {
        self.total() == 0
    }
}

/// Joining batches is associative, and the empty batch changes nothing.
pub proof fn lemma_concat_laws(a: Tables, b: Tables, c: Tables)
    ensures
        a.concat(b).concat(c) == a.concat(b.concat(c)),
        a.concat(Tables::empty()) == a,
        Tables::empty().concat(a) == a,
        a.concat(b).total() == a.total() + b.total(),
{
    assert((a.pumpfun_trade_event + b.pumpfun_trade_event) + c.pumpfun_trade_event
        =~= a.pumpfun_trade_event + (b.pumpfun_trade_event + c.pumpfun_trade_event));
    assert(a.pumpfun_trade_event + Seq::<TradeRow>::empty() =~= a.pumpfun_trade_event);
    assert(Seq::<TradeRow>::empty() + a.pumpfun_trade_event =~= a.pumpfun_trade_event);
    assert((a.pumpfun_create_event + b.pumpfun_create_event) + c.pumpfun_create_event
        =~= a.pumpfun_create_event + (b.pumpfun_create_event + c.pumpfun_create_event));
    assert(a.pumpfun_create_event + Seq::<CreateRow>::empty() =~= a.pumpfun_create_event);
    assert(Seq::<CreateRow>::empty() + a.pumpfun_create_event =~= a.pumpfun_create_event);
    assert((a.pumpfun_migrate_event + b.pumpfun_migrate_event) + c.pumpfun_migrate_event
        =~= a.pumpfun_migrate_event + (b.pumpfun_migrate_event + c.pumpfun_migrate_event));
    assert(a.pumpfun_migrate_event + Seq::<MigrateRow>::empty() =~= a.pumpfun_migrate_event);
    assert(Seq::<MigrateRow>::empty() + a.pumpfun_migrate_event =~= a.pumpfun_migrate_event);
    assert((a.pumpfun_amm_buy_event + b.pumpfun_amm_buy_event) + c.pumpfun_amm_buy_event
        =~= a.pumpfun_amm_buy_event + (b.pumpfun_amm_buy_event + c.pumpfun_amm_buy_event));
    assert(a.pumpfun_amm_buy_event + Seq::<AmmBuyRow>::empty() =~= a.pumpfun_amm_buy_event);
    assert(Seq::<AmmBuyRow>::empty() + a.pumpfun_amm_buy_event =~= a.pumpfun_amm_buy_event);
    assert((a.pumpfun_amm_sell_event + b.pumpfun_amm_sell_event) + c.pumpfun_amm_sell_event
        =~= a.pumpfun_amm_sell_event + (b.pumpfun_amm_sell_event + c.pumpfun_amm_sell_event));
    assert(a.pumpfun_amm_sell_event + Seq::<AmmSellRow>::empty() =~= a.pumpfun_amm_sell_event);
    assert(Seq::<AmmSellRow>::empty() + a.pumpfun_amm_sell_event =~= a.pumpfun_amm_sell_event);
    assert((a.pumpfun_amm_create_pool_event + b.pumpfun_amm_create_pool_event)
        + c.pumpfun_amm_create_pool_event =~= a.pumpfun_amm_create_pool_event
            + (b.pumpfun_amm_create_pool_event + c.pumpfun_amm_create_pool_event));
    assert(a.pumpfun_amm_create_pool_event + Seq::<AmmCreatePoolRow>::empty()
        =~= a.pumpfun_amm_create_pool_event);
    assert(Seq::<AmmCreatePoolRow>::empty() + a.pumpfun_amm_create_pool_event
        =~= a.pumpfun_amm_create_pool_event);
    assert((a.pumpfun_amm_deposit_event + b.pumpfun_amm_deposit_event)
        + c.pumpfun_amm_deposit_event =~= a.pumpfun_amm_deposit_event
            + (b.pumpfun_amm_deposit_event + c.pumpfun_amm_deposit_event));
    assert(a.pumpfun_amm_deposit_event + Seq::<AmmDepositRow>::empty()
        =~= a.pumpfun_amm_deposit_event);
    assert(Seq::<AmmDepositRow>::empty() + a.pumpfun_amm_deposit_event
        =~= a.pumpfun_amm_deposit_event);
    assert((a.pumpfun_amm_withdraw_event + b.pumpfun_amm_withdraw_event)
        + c.pumpfun_amm_withdraw_event =~= a.pumpfun_amm_withdraw_event
            + (b.pumpfun_amm_withdraw_event + c.pumpfun_amm_withdraw_event));
    assert(a.pumpfun_amm_withdraw_event + Seq::<AmmWithdrawRow>::empty()
        =~= a.pumpfun_amm_withdraw_event);
    assert(Seq::<AmmWithdrawRow>::empty() + a.pumpfun_amm_withdraw_event
        =~= a.pumpfun_amm_withdraw_event);
}

} // verus!
