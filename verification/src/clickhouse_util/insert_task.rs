//! Units of work for the store: the rows of one table, to be written in one
//! streaming insert.

use vstd::prelude::*;
use crate::clickhouse_util::clickhouse_events::{
    views, AmmBuyRow, AmmCreatePoolRow, AmmDepositRow, AmmSellRow, AmmWithdrawRow, CreateRow,
    MigrateRow, PumpfunAmmBuyEventV2, PumpfunAmmCreatePoolEventV2, PumpfunAmmDepositEventV2,
    PumpfunAmmSellEventV2, PumpfunAmmWithdrawEventV2, PumpfunCreateEventV2,
    PumpfunMigrateEventV2, PumpfunTradeEventV2, TradeRow,
};
use crate::clickhouse_util::tables::Tables;

verus! {

/// The names of the eight tables in the store.
#[derive(Debug, Clone)]
pub struct TableNames {
    pub pumpfun_trade_event: String,
    pub pumpfun_create_event: String,
    pub pumpfun_migrate_event: String,
    pub pumpfun_amm_buy_event: String,
    pub pumpfun_amm_sell_event: String,
    pub pumpfun_amm_create_pool_event: String,
    pub pumpfun_amm_deposit_event: String,
    pub pumpfun_amm_withdraw_event: String,
}

/// What a set of table names holds.
pub struct TableNamesView {
    pub pumpfun_trade_event: Seq<char>,
    pub pumpfun_create_event: Seq<char>,
    pub pumpfun_migrate_event: Seq<char>,
    pub pumpfun_amm_buy_event: Seq<char>,
    pub pumpfun_amm_sell_event: Seq<char>,
    pub pumpfun_amm_create_pool_event: Seq<char>,
    pub pumpfun_amm_deposit_event: Seq<char>,
    pub pumpfun_amm_withdraw_event: Seq<char>,
}

impl View for TableNames {
    type V = TableNamesView;

    open spec fn view(&self) -> TableNamesView {
        TableNamesView {
            pumpfun_trade_event: self.pumpfun_trade_event@,
            pumpfun_create_event: self.pumpfun_create_event@,
            pumpfun_migrate_event: self.pumpfun_migrate_event@,
            pumpfun_amm_buy_event: self.pumpfun_amm_buy_event@,
            pumpfun_amm_sell_event: self.pumpfun_amm_sell_event@,
            pumpfun_amm_create_pool_event: self.pumpfun_amm_create_pool_event@,
            pumpfun_amm_deposit_event: self.pumpfun_amm_deposit_event@,
            pumpfun_amm_withdraw_event: self.pumpfun_amm_withdraw_event@,
        }
    }
}

/// The names that the tables have where nothing else is configured.
pub open spec fn default_table_names() -> TableNamesView {
    TableNamesView {
        pumpfun_trade_event: "pumpfun_trade_event_v2"@,
        pumpfun_create_event: "pumpfun_create_event_v2"@,
        pumpfun_migrate_event: "pumpfun_migrate_event_v2"@,
        pumpfun_amm_buy_event: "pumpfun_amm_buy_event_v2"@,
        pumpfun_amm_sell_event: "pumpfun_amm_sell_event_v2"@,
        pumpfun_amm_create_pool_event: "pumpfun_amm_create_pool_event_v2"@,
        pumpfun_amm_deposit_event: "pumpfun_amm_deposit_event_v2"@,
        pumpfun_amm_withdraw_event: "pumpfun_amm_withdraw_event_v2"@,
    }
}

impl Default for TableNames {
    fn default() -> (names: TableNames)
        ensures
            names@ == default_table_names(),
    {
        TableNames {
            pumpfun_trade_event: "pumpfun_trade_event_v2".to_string(),
            pumpfun_create_event: "pumpfun_create_event_v2".to_string(),
            pumpfun_migrate_event: "pumpfun_migrate_event_v2".to_string(),
            pumpfun_amm_buy_event: "pumpfun_amm_buy_event_v2".to_string(),
            pumpfun_amm_sell_event: "pumpfun_amm_sell_event_v2".to_string(),
            pumpfun_amm_create_pool_event: "pumpfun_amm_create_pool_event_v2".to_string(),
            pumpfun_amm_deposit_event: "pumpfun_amm_deposit_event_v2".to_string(),
            pumpfun_amm_withdraw_event: "pumpfun_amm_withdraw_event_v2".to_string(),
        }
    }
}

impl TableNames {
    /// A second set of the same names.
    pub fn duplicate(&self) -> (names: TableNames)
        ensures
            names == *self,
    {
        TableNames {
            pumpfun_trade_event: self.pumpfun_trade_event.clone(),
            pumpfun_create_event: self.pumpfun_create_event.clone(),
            pumpfun_migrate_event: self.pumpfun_migrate_event.clone(),
            pumpfun_amm_buy_event: self.pumpfun_amm_buy_event.clone(),
            pumpfun_amm_sell_event: self.pumpfun_amm_sell_event.clone(),
            pumpfun_amm_create_pool_event: self.pumpfun_amm_create_pool_event.clone(),
            pumpfun_amm_deposit_event: self.pumpfun_amm_deposit_event.clone(),
            pumpfun_amm_withdraw_event: self.pumpfun_amm_withdraw_event.clone(),
        }
    }
}

/// The rows of one table.
#[derive(Debug, Clone, PartialEq, Eq)]
pub enum RowBatch {
    Trade(Vec<PumpfunTradeEventV2>),
    Create(Vec<PumpfunCreateEventV2>),
    Migrate(Vec<PumpfunMigrateEventV2>),
    AmmBuy(Vec<PumpfunAmmBuyEventV2>),
    AmmSell(Vec<PumpfunAmmSellEventV2>),
    AmmCreatePool(Vec<PumpfunAmmCreatePoolEventV2>),
    AmmDeposit(Vec<PumpfunAmmDepositEventV2>),
    AmmWithdraw(Vec<PumpfunAmmWithdrawEventV2>),
}

/// What the rows of one table hold.
pub enum RowsView {
    Trade(Seq<TradeRow>),
    Create(Seq<CreateRow>),
    Migrate(Seq<MigrateRow>),
    AmmBuy(Seq<AmmBuyRow>),
    AmmSell(Seq<AmmSellRow>),
    AmmCreatePool(Seq<AmmCreatePoolRow>),
    AmmDeposit(Seq<AmmDepositRow>),
    AmmWithdraw(Seq<AmmWithdrawRow>),
}

impl RowsView {
    pub open spec fn len(self) -> nat {
        match self {
            RowsView::Trade(rows) => rows.len(),
            RowsView::Create(rows) => rows.len(),
            RowsView::Migrate(rows) => rows.len(),
            RowsView::AmmBuy(rows) => rows.len(),
            RowsView::AmmSell(rows) => rows.len(),
            RowsView::AmmCreatePool(rows) => rows.len(),
            RowsView::AmmDeposit(rows) => rows.len(),
            RowsView::AmmWithdraw(rows) => rows.len(),
        }
    }
}

impl View for RowBatch {
    type V = RowsView;

    open spec fn view(&self) -> RowsView {
        match *self {
            RowBatch::Trade(rows) => RowsView::Trade(views(rows@)),
            RowBatch::Create(rows) => RowsView::Create(views(rows@)),
            RowBatch::Migrate(rows) => RowsView::Migrate(views(rows@)),
            RowBatch::AmmBuy(rows) => RowsView::AmmBuy(views(rows@)),
            RowBatch::AmmSell(rows) => RowsView::AmmSell(views(rows@)),
            RowBatch::AmmCreatePool(rows) => RowsView::AmmCreatePool(views(rows@)),
            RowBatch::AmmDeposit(rows) => RowsView::AmmDeposit(views(rows@)),
            RowBatch::AmmWithdraw(rows) => RowsView::AmmWithdraw(views(rows@)),
        }
    }
}

impl RowBatch {
    /// The number of rows.
    pub fn len(&self) -> (n: usize)
        ensures
            n == self@.len(),
    {
        match self {
            RowBatch::Trade(rows) => rows.len(),
            RowBatch::Create(rows) => rows.len(),
            RowBatch::Migrate(rows) => rows.len(),
            RowBatch::AmmBuy(rows) => rows.len(),
            RowBatch::AmmSell(rows) => rows.len(),
            RowBatch::AmmCreatePool(rows) => rows.len(),
            RowBatch::AmmDeposit(rows) => rows.len(),
            RowBatch::AmmWithdraw(rows) => rows.len(),
        }
    }
}

/// One streaming insert: the rows, and the table that takes them.
#[derive(Debug, Clone, PartialEq, Eq)]
pub struct InsertTask {
    pub table: String,
    pub rows: RowBatch,
}

/// What an insert holds.
pub struct TaskView {
    pub table: Seq<char>,
    pub rows: RowsView,
}

impl View for InsertTask {
    type V = TaskView;

    open spec fn view(&self) -> TaskView {
        TaskView { table: self.table@, rows: self.rows@ }
    }
}

/// The insert for `rows` into `table`: none where there are no rows.
pub open spec fn task_if(table: Seq<char>, rows: RowsView) -> Seq<TaskView> {
    if rows.len() == 0 {
        Seq::empty()
    } else {
        seq![TaskView { table, rows }]
    }
}

/// The inserts that flush a batch: one for each table that holds rows, in the
/// fixed order of the tables, each with all the rows of its table.
pub open spec fn tasks_of(tables: Tables, names: TableNamesView) -> Seq<TaskView> {
    task_if(
        names.pumpfun_trade_event,
        RowsView::Trade(tables.pumpfun_trade_event),
    ) + task_if(
        names.pumpfun_create_event,
        RowsView::Create(tables.pumpfun_create_event),
    ) + task_if(
        names.pumpfun_migrate_event,
        RowsView::Migrate(tables.pumpfun_migrate_event),
    ) + task_if(
        names.pumpfun_amm_buy_event,
        RowsView::AmmBuy(tables.pumpfun_amm_buy_event),
    ) + task_if(
        names.pumpfun_amm_sell_event,
        RowsView::AmmSell(tables.pumpfun_amm_sell_event),
    ) + task_if(
        names.pumpfun_amm_create_pool_event,
        RowsView::AmmCreatePool(tables.pumpfun_amm_create_pool_event),
    ) + task_if(
        names.pumpfun_amm_deposit_event,
        RowsView::AmmDeposit(tables.pumpfun_amm_deposit_event),
    ) + task_if(
        names.pumpfun_amm_withdraw_event,
        RowsView::AmmWithdraw(tables.pumpfun_amm_withdraw_event),
    )
}

/// An empty batch needs no insert, and every insert of a flush holds rows.
pub proof fn lemma_tasks_of(tables: Tables, names: TableNamesView)
    ensures
        tables.is_empty() ==> tasks_of(tables, names) == Seq::<TaskView>::empty(),
        forall|k: int|
            0 <= k < tasks_of(tables, names).len() ==> (#[trigger] tasks_of(
                tables,
                names,
            )[k]).rows.len() > 0,
        tasks_of(tables, names).len() <= 8,
{
}

fn push_task(tasks: &mut Vec<InsertTask>, table: &String, rows: RowBatch)
    ensures
        views(final(tasks)@) == views(old(tasks)@) + task_if(table@, rows@),
{
    if rows.len() > 0 {
        let ghost before = tasks@;
        let task = InsertTask { table: table.clone(), rows };
        tasks.push(task);
        assert(views(before.push(task)) =~= views(before) + seq![task@]);
    } else {
        assert(views(tasks@) + Seq::<TaskView>::empty() =~= views(tasks@));
    }
}

/// The inserts that flush the given rows: see `tasks_of`.
pub fn insert_tasks(
    pumpfun_trade_event: Vec<PumpfunTradeEventV2>,
    pumpfun_create_event: Vec<PumpfunCreateEventV2>,
    pumpfun_migrate_event: Vec<PumpfunMigrateEventV2>,
    pumpfun_amm_buy_event: Vec<PumpfunAmmBuyEventV2>,
    pumpfun_amm_sell_event: Vec<PumpfunAmmSellEventV2>,
    pumpfun_amm_create_pool_event: Vec<PumpfunAmmCreatePoolEventV2>,
    pumpfun_amm_deposit_event: Vec<PumpfunAmmDepositEventV2>,
    pumpfun_amm_withdraw_event: Vec<PumpfunAmmWithdrawEventV2>,
    names: &TableNames,
) -> (tasks: Vec<InsertTask>)
    ensures
        views(tasks@) == tasks_of(
            Tables {
                pumpfun_trade_event: views(pumpfun_trade_event@),
                pumpfun_create_event: views(pumpfun_create_event@),
                pumpfun_migrate_event: views(pumpfun_migrate_event@),
                pumpfun_amm_buy_event: views(pumpfun_amm_buy_event@),
                pumpfun_amm_sell_event: views(pumpfun_amm_sell_event@),
                pumpfun_amm_create_pool_event: views(pumpfun_amm_create_pool_event@),
                pumpfun_amm_deposit_event: views(pumpfun_amm_deposit_event@),
                pumpfun_amm_withdraw_event: views(pumpfun_amm_withdraw_event@),
            },
            names@,
        ),
{
    let mut tasks: Vec<InsertTask> = Vec::new();
    assert(views(tasks@) =~= Seq::<TaskView>::empty());
    push_task(&mut tasks, &names.pumpfun_trade_event, RowBatch::Trade(pumpfun_trade_event));
    push_task(&mut tasks, &names.pumpfun_create_event, RowBatch::Create(pumpfun_create_event));
    push_task(&mut tasks, &names.pumpfun_migrate_event, RowBatch::Migrate(pumpfun_migrate_event));
    push_task(&mut tasks, &names.pumpfun_amm_buy_event, RowBatch::AmmBuy(pumpfun_amm_buy_event));
    push_task(&mut tasks, &names.pumpfun_amm_sell_event, RowBatch::AmmSell(pumpfun_amm_sell_event));
    push_task(&mut tasks, &names.pumpfun_amm_create_pool_event,
        RowBatch::AmmCreatePool(pumpfun_amm_create_pool_event));
    push_task(&mut tasks, &names.pumpfun_amm_deposit_event,
        RowBatch::AmmDeposit(pumpfun_amm_deposit_event));
    push_task(&mut tasks, &names.pumpfun_amm_withdraw_event,
        RowBatch::AmmWithdraw(pumpfun_amm_withdraw_event));
    tasks
}

} // verus!
