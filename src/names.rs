use vstd::prelude::*;

use vstd::string::StringExecFns;

use crate::error::DBError;
use crate::record::{list_items, split_list, views};
use crate::store::{
    opt_int_param, opt_upsert_view, param_views, row_values, text_param, upsert_of, Param, Statement, TableKind, Upsert, Value,
};

verus! {

/// The write for one record of a person; a record with fewer than 6 fields is
/// dropped.
pub fn ingest(record: &Vec<String>) -> (r: Option<Upsert>)
    ensures
        opt_upsert_view(r) == upsert_of(TableKind::Names, views(record@)),
{
    if record.len() >= 6 {
        let mut values: Vec<Param> = Vec::new();
        values.push(text_param(&record[0]));
        values.push(text_param(&record[1]));
        values.push(opt_int_param(&record[2]));
        values.push(opt_int_param(&record[3]));
        values.push(text_param(&record[4]));
        values.push(text_param(&record[5]));
        proof {
            assert(param_views(values@) =~= row_values(TableKind::Names, views(record@)));
        }
        Some(Upsert { table: TableKind::Names, values })
    } else {
        None
    }
}

/// One person.
#[derive(Debug, Clone, PartialEq, Default)]
pub struct Name {
    pub nconst: String,
    pub primary_name: String,
    pub birth_year: Option<i32>,
    pub death_year: Option<i32>,
    pub primary_profession: Vec<String>,
    pub known_for_titles: Vec<String>,
}

impl Name {
    /// A person from their stored columns; the two lists are comma-separated.
    pub fn from_columns(
        nconst: String,
        primary_name: String,
        birth_year: Option<i32>,
        death_year: Option<i32>,
        primary_profession: &String,
        known_for_titles: &String,
    ) -> (r: Name)
        ensures
            r.nconst@ == nconst@,
            r.primary_name@ == primary_name@,
            r.birth_year == birth_year,
            r.death_year == death_year,
            views(r.primary_profession@) == list_items(primary_profession@),
            views(r.known_for_titles@) == list_items(known_for_titles@),
    {
        Name {
            nconst,
            primary_name,
            birth_year,
            death_year,
            primary_profession: split_list(primary_profession),
            known_for_titles: split_list(known_for_titles),
        }
    }
}

/// The statement that creates the table.
pub fn init_table() -> (r: String)
    ensures
        r@ == TableKind::Names.create_sql(),
{
    TableKind::Names.create_statement()
}

/// The statement that looks up one person by identifier; an empty identifier
/// is refused.
pub fn primary_name(id: &String) -> (r: Result<Statement, DBError>)
    ensures
        r is Err <==> id@.len() == 0,
        r matches Err(e) ==> e@ == "empty id"@,
        r matches Ok(s) ==> s.sql@ == "SELECT * FROM names WHERE nconst = ?"@ && param_views(
            s.params@,
        ) == seq![Value::Text(id@)],
{
    if id.as_str().is_empty() {
        Err(DBError::new("empty id"))
    } else {
        let mut params: Vec<Param> = Vec::new();
        params.push(Param::Text(id.clone()));
        assert(param_views(params@) =~= seq![Value::Text(id@)]);
        Ok(Statement { sql: String::from_str("SELECT * FROM names WHERE nconst = ?"), params })
    }
}

} // verus!
