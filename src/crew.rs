use vstd::prelude::*;

use vstd::string::StringExecFns;

use crate::query::{predicate_views, render, statement_params, statement_sql, Predicate};
use crate::record::{list_items, split_list, views};
use crate::titles::{id_clause, opt_pred, opt_view};
use crate::store::{
    opt_upsert_view, param_views, row_values, text_param, upsert_of, Param, Statement, TableKind, Upsert, Value,
};

verus! {

/// The write for one record of the crew of a title; a record with fewer than 3 fields is
/// dropped.
pub fn ingest(record: &Vec<String>) -> (r: Option<Upsert>)
    ensures
        opt_upsert_view(r) == upsert_of(TableKind::Crew, views(record@)),
{
    if record.len() >= 3 {
        let mut values: Vec<Param> = Vec::new();
        values.push(text_param(&record[0]));
        values.push(text_param(&record[1]));
        values.push(text_param(&record[2]));
        proof {
            assert(param_views(values@) =~= row_values(TableKind::Crew, views(record@)));
        }
        Some(Upsert { table: TableKind::Crew, values })
    } else {
        None
    }
}

/// The directors and writers of one title.
#[derive(Debug, Clone, PartialEq, Default)]
pub struct Crew {
    pub tconst: String,
    pub directors: Vec<String>,
    pub writers: Vec<String>,
}

impl Crew {
    /// A crew from its stored columns; the two lists are comma-separated.
    pub fn from_columns(tconst: String, directors: &String, writers: &String) -> (r: Crew)
        ensures
            r.tconst@ == tconst@,
            views(r.directors@) == list_items(directors@),
            views(r.writers@) == list_items(writers@),
    {
        Crew { tconst, directors: split_list(directors), writers: split_list(writers) }
    }
}

/// The statement that creates the table.
pub fn init_table() -> (r: String)
    ensures
        r@ == TableKind::Crew.create_sql(),
{
    TableKind::Crew.create_statement()
}

/// A query on the crew table, filtered on the title identifier when one is
/// given.
pub struct CrewQuery {
    id: Option<String>,
}

impl View for CrewQuery {
    type V = Option<Seq<char>>;

    closed spec fn view(&self) -> Option<Seq<char>> {
        opt_view(self.id)
    }
}

pub open spec fn crew_base_sql() -> Seq<char> {
    "SELECT * FROM crew"@
}

impl CrewQuery {
    pub fn new() -> (r: Self)
        ensures
            r@ is None,
    {
        CrewQuery { id: None }
    }

    /// Filters on the title identifier; an empty one filters nothing.
    pub fn id(self, id: &String) -> (r: Self)
        ensures
            r@ == (if id@.len() == 0 {
                self@
            } else {
                Some(id@)
            }),
    {
        if id.as_str().is_empty() {
            self
        } else {
            CrewQuery { id: Some(id.clone()) }
        }
    }

    /// The statement for this query.
    pub fn build(&self) -> (r: Statement)
        ensures
            r.sql@ == statement_sql(
                crew_base_sql(),
                opt_pred(self@ is Some, id_clause(), Value::Text(self@->0)),
                None,
            ),
            param_views(r.params@) == statement_params(
                opt_pred(self@ is Some, id_clause(), Value::Text(self@->0)),
                None,
            ),
    {
        let mut preds: Vec<Predicate> = Vec::new();
        match &self.id {
            Some(id) => {
                preds.push(Predicate { clause: String::from_str(" tconst = ?"), value: Param::Text(id.clone()) });
            },
            None => {},
        }
        assert(predicate_views(preds@) =~= opt_pred(self@ is Some, id_clause(), Value::Text(self@->0)));
        render(String::from_str("SELECT * FROM crew"), preds, None)
    }
}

} // verus!
