use vstd::prelude::*;
use vstd::string::StringExecFns;

use crate::store::{param_views, Param, Statement, Value};

verus! {

/// One filter of a query: its SQL text, holding one `?`, and the value bound
/// to it.
pub struct Predicate {
    pub clause: String,
    pub value: Param,
}

pub open spec fn predicate_views(ps: Seq<Predicate>) -> Seq<(Seq<char>, Value)> {
    ps.map_values(|p: Predicate| (p.clause@, p.value@))
}

/// The filters joined into one clause: `WHERE` before the first, `AND` before
/// every other.
pub open spec fn clauses_sql(ps: Seq<(Seq<char>, Value)>) -> Seq<char>
    decreases ps.len(),
{
    if ps.len() == 0 {
        Seq::empty()
    } else {
        clauses_sql(ps.drop_last()) + (if ps.len() == 1 {
            " WHERE"@
        } else {
            " AND"@
        }) + ps.last().0
    }
}

pub open spec fn limit_sql(limit: Option<u64>) -> Seq<char> {
    if limit is Some {
        " LIMIT ?"@
    } else {
        Seq::empty()
    }
}

/// The text of a statement: the base, the filters, and the cap if any.
pub open spec fn statement_sql(
    base: Seq<char>,
    ps: Seq<(Seq<char>, Value)>,
    limit: Option<u64>,
) -> Seq<char> {
    base + clauses_sql(ps) + limit_sql(limit)
}

/// The values bound by a statement: one per filter, then the cap if any.
pub open spec fn statement_params(ps: Seq<(Seq<char>, Value)>, limit: Option<u64>) -> Seq<Value> {
    ps.map_values(|p: (Seq<char>, Value)| p.1) + match limit {
        Some(n) => seq![Value::Int(n as int)],
        None => Seq::empty(),
    }
}

/// Renders a statement from its base, its filters in order and its cap.
pub fn render(base: String, preds: Vec<Predicate>, limit: Option<u64>) -> (r: Statement)
    requires
        limit matches Some(n) ==> n <= i64::MAX,
    ensures
        r.sql@ == statement_sql(base@, predicate_views(preds@), limit),
        param_views(r.params@) == statement_params(predicate_views(preds@), limit),
{
    let ghost pv = predicate_views(preds@);
    let mut sql = base;
    let mut params: Vec<Param> = Vec::new();
    let mut i: usize = 0;
    while i < preds.len()
        invariant
            i <= preds.len(),
            pv == predicate_views(preds@),
            sql@ == base@ + clauses_sql(pv.take(i as int)),
            param_views(params@) == pv.take(i as int).map_values(|p: (Seq<char>, Value)| p.1),
        decreases preds.len() - i,
    {
        proof {
            assert(pv.take(i as int + 1).drop_last() =~= pv.take(i as int));
        }
        if i == 0 {
            sql.append(" WHERE");
        } else {
            sql.append(" AND");
        }
        sql.append(preds[i].clause.as_str());
        let ghost before = param_views(params@);
        params.push(preds[i].value.duplicate());
        proof {
            assert(param_views(params@) =~= before.push(pv[i as int].1));
            assert(pv.take(i as int + 1).map_values(|p: (Seq<char>, Value)| p.1) =~= pv.take(
                i as int,
            ).map_values(|p: (Seq<char>, Value)| p.1).push(pv[i as int].1));
        }
        i = i + 1;
    }
    assert(pv.take(preds.len() as int) =~= pv);
    match limit {
        Some(n) => {
            sql.append(" LIMIT ?");
            params.push(Param::Int(n as i64));
        },
        None => {},
    }
    assert(param_views(params@) =~= statement_params(pv, limit));
    assert(sql@ =~= statement_sql(base@, pv, limit));
    Statement { sql, params }
}

} // verus!
