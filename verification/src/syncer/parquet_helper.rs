//! Where the file of one table and one day lies.

use vstd::prelude::*;
use vstd::string::StringExecFns;
use crate::block_parser::file_scanner::{join_path, joined};
use crate::common::clock::{date_text, format_epoch_day};
use crate::syncer::config::Date;

verus! {

/// The name of the file of `table` for a day of the given text:
/// `<table>_<YYYY-MM-DD>.parquet`.
pub open spec fn daily_name(table: Seq<char>, day: Seq<char>) -> Seq<char> {
    table + "_"@ + day + ".parquet"@
}

/// The file of one table and one day.
#[derive(Debug, Clone, PartialEq, Eq)]
pub struct DailyFile {
    /// The directory of the table: `<root>/<table>`.
    pub table_dir: String,
    pub file_name: String,
    /// The file: `<root>/<table>/<table>_<YYYY-MM-DD>.parquet`.
    pub file_path: String,
}

/// What reading a file has given: the number of batches of rows in it.
#[derive(Debug, Clone, Copy, PartialEq, Eq, Structural)]
pub enum BatchesRead {
    /// The file holds no batch: it is rejected as empty.
    Empty,
    /// The file holds one batch, which is the answer.
    Single,
    /// The file holds several batches, which are joined in their order.
    Several,
}

/// Names and reads the daily files.
#[derive(Debug, Clone, Copy, PartialEq, Eq)]
pub struct ParquetHelper;

impl ParquetHelper {
    pub fn new() -> ParquetHelper {
        ParquetHelper
    }

    /// The file of `table` for the day `date` below `output_dir`, or nothing
    /// where the calendar does not reach the day.
    pub fn daily_file(&self, table: &str, date: Date, output_dir: &str) -> (file: Option<DailyFile>)
        ensures
            date_text(date.days as int) is None ==> file is None,
            date_text(date.days as int) is Some ==> {
                &&& file is Some
                &&& file->0.table_dir@ == joined(output_dir@, table@)
                &&& file->0.file_name@ == daily_name(table@, date_text(date.days as int)->0)
                &&& file->0.file_path@ == joined(file->0.table_dir@, file->0.file_name@)
            },
    {
        match format_epoch_day(date.days) {
            Some(day) => Some(Self::file_for_day(table, day.as_str(), output_dir)),
            None => None,
        }
    }

    /// The file of `table` below `output_dir` for the day whose text is `day`.
    pub fn file_for_day(table: &str, day: &str, output_dir: &str) -> (file: DailyFile)
        ensures
            file.table_dir@ == joined(output_dir@, table@),
            file.file_name@ == daily_name(table@, day@),
            file.file_path@ == joined(file.table_dir@, file.file_name@),
    {
        let table_dir = join_path(output_dir, table);
        let file_name = String::from_str(table).concat("_").concat(day).concat(".parquet");
        let file_path = join_path(table_dir.as_str(), file_name.as_str());
        DailyFile { table_dir, file_name, file_path }
    }

    /// What to make of the batches that a file held.
    pub fn batches_read(count: usize) -> (read: BatchesRead)
        ensures
            count == 0 ==> read == BatchesRead::Empty,
            count == 1 ==> read == BatchesRead::Single,
            count > 1 ==> read == BatchesRead::Several,
    {
        if count == 0 {
            BatchesRead::Empty
        } else if count == 1 {
            BatchesRead::Single
        } else {
            BatchesRead::Several
        }
    }
}

impl Default for ParquetHelper {
    fn default() -> ParquetHelper {
        ParquetHelper::new()
    }
}

} // verus!
