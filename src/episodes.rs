use vstd::prelude::*;

use crate::record::{null_marker, views};
use crate::store::{
    opt_int_param, opt_upsert_view, param_views, row_values, text_param, upsert_of, Param, TableKind, Upsert, Value,
};

verus! {

/// The write for one record of an episode; a record with fewer than 4 fields is
/// dropped.
pub fn ingest(record: &Vec<String>) -> (r: Option<Upsert>)
    ensures
        opt_upsert_view(r) == upsert_of(TableKind::Episodes, views(record@)),
{
    if record.len() >= 4 {
        let mut values: Vec<Param> = Vec::new();
        values.push(text_param(&record[0]));
        values.push(text_param(&record[1]));
        values.push(opt_int_param(&record[2]));
        values.push(opt_int_param(&record[3]));
        proof {
            assert(param_views(values@) =~= row_values(TableKind::Episodes, views(record@)));
        }
        Some(Upsert { table: TableKind::Episodes, values })
    } else {
        None
    }
}

/// The statement that creates the table.
pub fn init_table() -> (r: String)
    ensures
        r@ == TableKind::Episodes.create_sql(),
{
    TableKind::Episodes.create_statement()
}

/// An episode whose season field is the null marker is written with an absent
/// season, not a zero.
pub proof fn lemma_null_season(record: Seq<Seq<char>>)
    requires
        record.len() >= 4,
        record[2] == null_marker(),
    ensures
        upsert_of(TableKind::Episodes, record) matches Some(u) && u.values[2] == Value::Null,
{
}

} // verus!
