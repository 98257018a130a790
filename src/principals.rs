use vstd::prelude::*;

use vstd::string::StringExecFns;

use crate::query::{predicate_views, render, statement_params, statement_sql, Predicate};
use crate::record::{list_items, split_list, views};
use crate::titles::{id_clause, opt_pred, opt_view};
use crate::store::{
    int_param, opt_upsert_view, param_views, row_values, text_param, upsert_of, Param, Statement, TableKind, Upsert, Value,
};

verus! {

/// The write for one record of a principal; a record with fewer than 6 fields is
/// dropped.
pub fn ingest(record: &Vec<String>) -> (r: Option<Upsert>)
    ensures
        opt_upsert_view(r) == upsert_of(TableKind::Principals, views(record@)),
{
    if record.len() >= 6 {
        let mut values: Vec<Param> = Vec::new();
        values.push(text_param(&record[0]));
        values.push(int_param(&record[1]));
        values.push(text_param(&record[2]));
        values.push(text_param(&record[3]));
        values.push(text_param(&record[4]));
        values.push(text_param(&record[5]));
        proof {
            assert(param_views(values@) =~= row_values(TableKind::Principals, views(record@)));
        }
        Some(Upsert { table: TableKind::Principals, values })
    } else {
        None
    }
}

/// The billing of one person on one title.
#[derive(Debug, Clone, PartialEq, Default)]
pub struct Principal {
    pub tconst: String,
    pub ordering: i64,
    pub nconst: String,
    pub category: String,
    pub job: String,
    pub characters: Vec<String>,
}

impl Principal {
    /// A principal from its stored columns; the characters are a
    /// comma-separated list.
    pub fn from_columns(
        tconst: String,
        ordering: i64,
        nconst: String,
        category: String,
        job: String,
        characters: &String,
    ) -> (r: Principal)
        ensures
            r.tconst@ == tconst@,
            r.ordering == ordering,
            r.nconst@ == nconst@,
            r.category@ == category@,
            r.job@ == job@,
            views(r.characters@) == list_items(characters@),
    {
        Principal { tconst, ordering, nconst, category, job, characters: split_list(characters) }
    }
}

/// The statement that creates the table.
pub fn init_table() -> (r: String)
    ensures
        r@ == TableKind::Principals.create_sql(),
{
    TableKind::Principals.create_statement()
}

/// A query on the principals table, filtered on the title identifier when one is
/// given.
pub struct PrincipalsQuery {
    id: Option<String>,
}

impl View for PrincipalsQuery {
    type V = Option<Seq<char>>;

    closed spec fn view(&self) -> Option<Seq<char>> {
        opt_view(self.id)
    }
}

pub open spec fn principals_base_sql() -> Seq<char> {
    "SELECT * FROM principals"@
}

impl PrincipalsQuery {
    pub fn new() -> (r: Self)
        ensures
            r@ is None,
    {
        PrincipalsQuery { id: None }
    }

    /// Filters on the title identifier; an empty one filters nothing.
    pub fn movie(self, id: &String) -> (r: Self)
        ensures
            r@ == (if id@.len() == 0 {
                self@
            } else {
                Some(id@)
            }),
    {
        if id.as_str().is_empty() {
            self
        } else {
            PrincipalsQuery { id: Some(id.clone()) }
        }
    }

    /// The statement for this query.
    pub fn build(&self) -> (r: Statement)
        ensures
            r.sql@ == statement_sql(
                principals_base_sql(),
                opt_pred(self@ is Some, id_clause(), Value::Text(self@->0)),
                None,
            ),
            param_views(r.params@) == statement_params(
                opt_pred(self@ is Some, id_clause(), Value::Text(self@->0)),
                None,
            ),
    {
        let mut preds: Vec<Predicate> = Vec::new();
        match &self.id {
            Some(id) => {
                preds.push(Predicate { clause: String::from_str(" tconst = ?"), value: Param::Text(id.clone()) });
            },
            None => {},
        }
        assert(predicate_views(preds@) =~= opt_pred(self@ is Some, id_clause(), Value::Text(self@->0)));
        render(String::from_str("SELECT * FROM principals"), preds, None)
    }
}

} // verus!
