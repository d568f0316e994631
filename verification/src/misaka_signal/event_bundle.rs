//! What one transaction yields for the signal service: its rows, per table.

use vstd::prelude::*;
use crate::clickhouse_util::clickhouse_events::{
    views, AmmBuyRow, AmmCreatePoolRow, AmmDepositRow, AmmSellRow, AmmWithdrawRow, CreateRow,
    MigrateRow, PumpfunAmmBuyEventV2, PumpfunAmmCreatePoolEventV2, PumpfunAmmDepositEventV2,
    PumpfunAmmSellEventV2, PumpfunAmmWithdrawEventV2, PumpfunCreateEventV2,
    PumpfunMigrateEventV2, PumpfunTradeEventV2, TradeRow,
};
use crate::clickhouse_util::convert_transaction::{
    amm_buy_rows, amm_create_pool_rows, amm_deposit_rows, amm_sell_rows, amm_withdraw_rows,
    create_rows, migrate_rows, rows_of, tables_of, trade_rows, TransactionConverter,
};
use crate::clickhouse_util::tables::Tables;
use crate::common::transaction::Transaction;

verus! {

/// The rows of one transaction, per table, as they travel in a signal.
#[derive(Debug, Clone, PartialEq, Eq)]
pub struct EventBundle {
    pub pumpfun_trade_event: Vec<PumpfunTradeEventV2>,
    pub pumpfun_create_event: Vec<PumpfunCreateEventV2>,
    pub pumpfun_migrate_event: Vec<PumpfunMigrateEventV2>,
    pub pumpfun_amm_buy_event: Vec<PumpfunAmmBuyEventV2>,
    pub pumpfun_amm_sell_event: Vec<PumpfunAmmSellEventV2>,
    pub pumpfun_amm_create_pool_event: Vec<PumpfunAmmCreatePoolEventV2>,
    pub pumpfun_amm_deposit_event: Vec<PumpfunAmmDepositEventV2>,
    pub pumpfun_amm_withdraw_event: Vec<PumpfunAmmWithdrawEventV2>,
}

impl View for EventBundle {
    type V = Tables;

    open spec fn view(&self) -> Tables {
        Tables {
            pumpfun_trade_event: views(self.pumpfun_trade_event@),
            pumpfun_create_event: views(self.pumpfun_create_event@),
            pumpfun_migrate_event: views(self.pumpfun_migrate_event@),
            pumpfun_amm_buy_event: views(self.pumpfun_amm_buy_event@),
            pumpfun_amm_sell_event: views(self.pumpfun_amm_sell_event@),
            pumpfun_amm_create_pool_event: views(self.pumpfun_amm_create_pool_event@),
            pumpfun_amm_deposit_event: views(self.pumpfun_amm_deposit_event@),
            pumpfun_amm_withdraw_event: views(self.pumpfun_amm_withdraw_event@),
        }
    }
}

impl Default for EventBundle {
    fn default() -> (empty: EventBundle)
        ensures
            empty@ == Tables::empty(),
    {
        let empty = EventBundle {
            pumpfun_trade_event: Vec::new(),
            pumpfun_create_event: Vec::new(),
            pumpfun_migrate_event: Vec::new(),
            pumpfun_amm_buy_event: Vec::new(),
            pumpfun_amm_sell_event: Vec::new(),
            pumpfun_amm_create_pool_event: Vec::new(),
            pumpfun_amm_deposit_event: Vec::new(),
            pumpfun_amm_withdraw_event: Vec::new(),
        };
        assert(views(empty.pumpfun_trade_event@) =~= Seq::<TradeRow>::empty());
        assert(views(empty.pumpfun_create_event@) =~= Seq::<CreateRow>::empty());
        assert(views(empty.pumpfun_migrate_event@) =~= Seq::<MigrateRow>::empty());
        assert(views(empty.pumpfun_amm_buy_event@) =~= Seq::<AmmBuyRow>::empty());
        assert(views(empty.pumpfun_amm_sell_event@) =~= Seq::<AmmSellRow>::empty());
        assert(views(empty.pumpfun_amm_create_pool_event@) =~= Seq::<AmmCreatePoolRow>::empty());
        assert(views(empty.pumpfun_amm_deposit_event@) =~= Seq::<AmmDepositRow>::empty());
        assert(views(empty.pumpfun_amm_withdraw_event@) =~= Seq::<AmmWithdrawRow>::empty());
        empty
    }
}

impl EventBundle {
    /// Whether no table holds a row.
    pub fn is_empty(&self) -> (empty: bool)
        ensures
            empty == self@.is_empty(),
    {
        self.pumpfun_trade_event.is_empty()
            && self.pumpfun_create_event.is_empty()
            && self.pumpfun_migrate_event.is_empty()
            && self.pumpfun_amm_buy_event.is_empty()
            && self.pumpfun_amm_sell_event.is_empty()
            && self.pumpfun_amm_create_pool_event.is_empty()
            && self.pumpfun_amm_deposit_event.is_empty()
            && self.pumpfun_amm_withdraw_event.is_empty()
    }

    /// The rows that `tx` yields, each in the table of its kind.
    pub fn from_transaction(tx: &Transaction) -> (events: EventBundle)
        ensures
            events@ == tables_of(rows_of(*tx)),
    {
        let mut events = EventBundle::default();
        TransactionConverter::convert(
            tx,
            &mut events.pumpfun_trade_event,
            &mut events.pumpfun_create_event,
            &mut events.pumpfun_migrate_event,
            &mut events.pumpfun_amm_buy_event,
            &mut events.pumpfun_amm_sell_event,
            &mut events.pumpfun_amm_create_pool_event,
            &mut events.pumpfun_amm_deposit_event,
            &mut events.pumpfun_amm_withdraw_event,
        );
        assert(Seq::<TradeRow>::empty() + trade_rows(rows_of(*tx)) =~= trade_rows(rows_of(*tx)));
        assert(Seq::<CreateRow>::empty() + create_rows(rows_of(*tx)) =~= create_rows(rows_of(*tx)));
        assert(Seq::<MigrateRow>::empty() + migrate_rows(rows_of(*tx))
            =~= migrate_rows(rows_of(*tx)));
        assert(Seq::<AmmBuyRow>::empty() + amm_buy_rows(rows_of(*tx))
            =~= amm_buy_rows(rows_of(*tx)));
        assert(Seq::<AmmSellRow>::empty() + amm_sell_rows(rows_of(*tx))
            =~= amm_sell_rows(rows_of(*tx)));
        assert(Seq::<AmmCreatePoolRow>::empty() + amm_create_pool_rows(rows_of(*tx))
            =~= amm_create_pool_rows(rows_of(*tx)));
        assert(Seq::<AmmDepositRow>::empty() + amm_deposit_rows(rows_of(*tx))
            =~= amm_deposit_rows(rows_of(*tx)));
        assert(Seq::<AmmWithdrawRow>::empty() + amm_withdraw_rows(rows_of(*tx))
            =~= amm_withdraw_rows(rows_of(*tx)));
        events
    }

}

} // verus!
