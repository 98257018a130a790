use vstd::prelude::*;

use vstd::string::StringExecFns;

use crate::query::{predicate_views, render, statement_params, statement_sql, Predicate};
use crate::record::{chars_of, push_char, views};
use crate::store::{
    int_param, opt_int_param, opt_upsert_view, param_views, row_values, text_param, upsert_of, Param, Statement, TableKind, Upsert, Value,
};

verus! {

/// The write for one record of a title; a record with fewer than 9 fields is
/// dropped.
pub fn ingest(record: &Vec<String>) -> (r: Option<Upsert>)
    ensures
        opt_upsert_view(r) == upsert_of(TableKind::Titles, views(record@)),
{
    if record.len() >= 9 {
        let mut values: Vec<Param> = Vec::new();
        values.push(text_param(&record[0]));
        values.push(text_param(&record[1]));
        values.push(text_param(&record[2]));
        values.push(text_param(&record[3]));
        values.push(int_param(&record[4]));
        values.push(opt_int_param(&record[5]));
        values.push(opt_int_param(&record[6]));
        values.push(opt_int_param(&record[7]));
        values.push(text_param(&record[8]));
        proof {
            assert(param_views(values@) =~= row_values(TableKind::Titles, views(record@)));
        }
        Some(Upsert { table: TableKind::Titles, values })
    } else {
        None
    }
}

/// The write for one record of a title alias; a record with fewer than 8 fields is
/// dropped.
pub fn ingest_aka(record: &Vec<String>) -> (r: Option<Upsert>)
    ensures
        opt_upsert_view(r) == upsert_of(TableKind::TitleAkas, views(record@)),
{
    if record.len() >= 8 {
        let mut values: Vec<Param> = Vec::new();
        values.push(text_param(&record[0]));
        values.push(int_param(&record[1]));
        values.push(text_param(&record[2]));
        values.push(text_param(&record[3]));
        values.push(text_param(&record[4]));
        values.push(text_param(&record[5]));
        values.push(text_param(&record[6]));
        values.push(int_param(&record[7]));
        proof {
            assert(param_views(values@) =~= row_values(TableKind::TitleAkas, views(record@)));
        }
        Some(Upsert { table: TableKind::TitleAkas, values })
    } else {
        None
    }
}


/// One row of the titles table.
#[derive(Debug, Clone, PartialEq, Default)]
pub struct Title {
    pub tconst: String,
    pub title_type: String,
    pub primary_title: String,
    pub original_title: String,
    pub is_adult: i64,
    pub start_year: Option<i64>,
    pub end_year: Option<i64>,
    pub runtime_minutes: Option<i64>,
    pub genres: String,
}

pub struct TitleView {
    pub tconst: Seq<char>,
    pub title_type: Seq<char>,
    pub primary_title: Seq<char>,
    pub original_title: Seq<char>,
    pub is_adult: int,
    pub start_year: Option<int>,
    pub end_year: Option<int>,
    pub runtime_minutes: Option<int>,
    pub genres: Seq<char>,
}

pub open spec fn opt_int(v: Option<i64>) -> Option<int> {
    match v {
        Some(i) => Some(i as int),
        None => None,
    }
}

impl View for Title {
    type V = TitleView;

    open spec fn view(&self) -> TitleView {
        TitleView {
            tconst: self.tconst@,
            title_type: self.title_type@,
            primary_title: self.primary_title@,
            original_title: self.original_title@,
            is_adult: self.is_adult as int,
            start_year: opt_int(self.start_year),
            end_year: opt_int(self.end_year),
            runtime_minutes: opt_int(self.runtime_minutes),
            genres: self.genres@,
        }
    }
}

/// The statements that create the titles and title aliases tables.
pub fn init_table() -> (r: Vec<String>)
    ensures
        views(r@) == seq![TableKind::Titles.create_sql(), TableKind::TitleAkas.create_sql()],
{
    let mut r: Vec<String> = Vec::new();
    r.push(TableKind::Titles.create_statement());
    r.push(TableKind::TitleAkas.create_statement());
    assert(views(r@) =~= seq![TableKind::Titles.create_sql(), TableKind::TitleAkas.create_sql()]);
    r
}

/// The most rows a title search returns.
pub const RESULT_CAP: u64 = 100;

/// The filters of a title query; each is either absent or holds its value.
pub struct TitleQuery {
    id: Option<String>,
    like: Option<String>,
    title_type: Option<String>,
    start_year: Option<i64>,
    limit: Option<u64>,
}

pub struct TitleQueryView {
    pub id: Option<Seq<char>>,
    pub like: Option<Seq<char>>,
    pub title_type: Option<Seq<char>>,
    pub start_year: Option<int>,
    pub limit: Option<u64>,
}

pub open spec fn opt_view(s: Option<String>) -> Option<Seq<char>> {
    match s {
        Some(s) => Some(s@),
        None => None,
    }
}

impl View for TitleQuery {
    type V = TitleQueryView;

    closed spec fn view(&self) -> TitleQueryView {
        TitleQueryView {
            id: opt_view(self.id),
            like: opt_view(self.like),
            title_type: opt_view(self.title_type),
            start_year: match self.start_year {
                Some(y) => Some(y as int),
                None => None,
            },
            limit: self.limit,
        }
    }
}

pub open spec fn title_base_sql() -> Seq<char> {
    "SELECT * FROM titles"@
}

pub open spec fn id_clause() -> Seq<char> {
    " tconst = ?"@
}

pub open spec fn like_clause() -> Seq<char> {
    " original_title LIKE ? COLLATE NOCASE ESCAPE '\\'"@
}

pub open spec fn title_type_clause() -> Seq<char> {
    " title_type = ?"@
}

pub open spec fn start_year_clause() -> Seq<char> {
    " start_year = ?"@
}

/// The pattern that matches every text starting with `prefix`.
pub open spec fn prefix_pattern(prefix: Seq<char>) -> Seq<char> {
    escape_like(prefix).push('%')
}

/// Whether a character means something in a `LIKE` pattern.
pub open spec fn like_special(c: char) -> bool {
    c == '%' || c == '_' || c == '\\'
}

/// One character of a text written into a `LIKE` pattern so that it matches
/// only itself, with `\` as the escape character.
pub open spec fn escape_char(c: char) -> Seq<char> {
    if like_special(c) {
        seq!['\\', c]
    } else {
        seq![c]
    }
}

/// A text written into a `LIKE` pattern that matches only that text.
pub open spec fn escape_like(s: Seq<char>) -> Seq<char>
    decreases s.len(),
{
    if s.len() == 0 {
        Seq::empty()
    } else {
        escape_char(s[0]) + escape_like(s.drop_first())
    }
}

proof fn lemma_escape_push(s: Seq<char>, c: char)
    ensures
        escape_like(s.push(c)) == escape_like(s) + escape_char(c),
    decreases s.len(),
{
    if s.len() == 0 {
        assert(s.push(c).drop_first() =~= Seq::<char>::empty());
        assert(escape_like(s.push(c).drop_first()) == Seq::<char>::empty());
        assert(s.push(c)[0] == c);
        assert(escape_like(s) == Seq::<char>::empty());
        assert(escape_like(s.push(c)) =~= escape_char(c));
    } else {
        assert(s.push(c).drop_first() =~= s.drop_first().push(c));
        lemma_escape_push(s.drop_first(), c);
        assert(escape_like(s.push(c)) =~= escape_like(s) + escape_char(c));
    }
}

/// Escapes a text for use in a `LIKE` pattern.
pub fn escape_like_text(s: &String) -> (r: String)
    ensures
        r@ == escape_like(s@),
{
    let cs = chars_of(s);
    let mut r = String::new();
    let mut i: usize = 0;
    while i < cs.len()
        invariant
            i <= cs.len(),
            cs@ == s@,
            r@ == escape_like(s@.take(i as int)),
        decreases cs.len() - i,
    {
        let c = cs[i];
        proof {
            assert(s@.take(i as int + 1) =~= s@.take(i as int).push(c));
            lemma_escape_push(s@.take(i as int), c);
        }
        if c == '%' || c == '_' || c == '\\' {
            push_char(&mut r, '\\');
        }
        push_char(&mut r, c);
        proof {
            assert(r@ =~= escape_like(s@.take(i as int + 1)));
        }
        i = i + 1;
    }
    assert(s@.take(cs.len() as int) =~= s@);
    r
}

pub open spec fn opt_pred(
    present: bool,
    clause: Seq<char>,
    value: Value,
) -> Seq<(Seq<char>, Value)> {
    if present {
        seq![(clause, value)]
    } else {
        Seq::empty()
    }
}

/// The filters a query applies, always in this order: identifier, title
/// prefix, type, start year.
pub open spec fn title_predicates(q: TitleQueryView) -> Seq<(Seq<char>, Value)> {
    opt_pred(q.id is Some, id_clause(), Value::Text(q.id->0)) + opt_pred(
        q.like is Some,
        like_clause(),
        Value::Text(prefix_pattern(q.like->0)),
    ) + opt_pred(q.title_type is Some, title_type_clause(), Value::Text(q.title_type->0))
        + opt_pred(q.start_year is Some, start_year_clause(), Value::Int(q.start_year->0))
}

impl TitleQuery {
    /// A query with no filter and no cap: every title.
    pub fn new() -> (r: Self)
        ensures
            r@.id is None,
            r@.like is None,
            r@.title_type is None,
            r@.start_year is None,
            r@.limit is None,
    {
        TitleQuery { id: None, like: None, title_type: None, start_year: None, limit: None }
    }

    /// Filters on the identifier; an empty one filters nothing.
    pub fn id(self, id: &String) -> (r: Self)
        ensures
            r@ == (if id@.len() == 0 {
                self@
            } else {
                TitleQueryView { id: Some(id@), ..self@ }
            }),
    {
        if id.as_str().is_empty() {
            self
        } else {
            TitleQuery { id: Some(id.clone()), ..self }
        }
    }

    /// Filters on titles whose original title starts with `title`, ignoring
    /// ASCII case; an empty one filters nothing.
    pub fn like(self, title: String) -> (r: Self)
        ensures
            r@ == (if title@.len() == 0 {
                self@
            } else {
                TitleQueryView { like: Some(title@), ..self@ }
            }),
    {
        if title.as_str().is_empty() {
            self
        } else {
            TitleQuery { like: Some(title), ..self }
        }
    }

    /// Filters on the type tag; an empty one filters nothing.
    pub fn title_type(self, title_type: String) -> (r: Self)
        ensures
            r@ == (if title_type@.len() == 0 {
                self@
            } else {
                TitleQueryView { title_type: Some(title_type@), ..self@ }
            }),
    {
        if title_type.as_str().is_empty() {
            self
        } else {
            TitleQuery { title_type: Some(title_type), ..self }
        }
    }

    /// Filters on the start year, when one is given.
    pub fn start_year(self, year: Option<i64>) -> (r: Self)
        ensures
            r@ == (match year {
                Some(y) => TitleQueryView { start_year: Some(y as int), ..self@ },
                None => self@,
            }),
    {
        match year {
            Some(y) => TitleQuery { start_year: Some(y), ..self },
            None => self,
        }
    }

    /// Caps the number of rows returned.
    pub fn limit(self, n: u64) -> (r: Self)
        requires
            n <= i64::MAX,
        ensures
            r@ == (TitleQueryView { limit: Some(n), ..self@ }),
    {
        TitleQuery { limit: Some(n), ..self }
    }

    /// The statement for this query: its filters in their fixed order, then
    /// the cap.
    pub fn build(&self) -> (r: Statement)
        requires
            self@.limit matches Some(n) ==> n <= i64::MAX,
        ensures
            r.sql@ == statement_sql(title_base_sql(), title_predicates(self@), self@.limit),
            param_views(r.params@) == statement_params(title_predicates(self@), self@.limit),
    {
        let mut preds: Vec<Predicate> = Vec::new();
        let ghost q = self@;
        match &self.id {
            Some(id) => {
                preds.push(Predicate { clause: String::from_str(" tconst = ?"), value: Param::Text(id.clone()) });
            },
            None => {},
        }
        let ghost after_id = predicate_views(preds@);
        match &self.like {
            Some(t) => {
                let mut pattern = escape_like_text(t);
                pattern.append("%");
                proof {
                    reveal_strlit("%");
                    assert(pattern@ =~= prefix_pattern(t@));
                }
                preds.push(
                    Predicate {
                        clause: String::from_str(" original_title LIKE ? COLLATE NOCASE ESCAPE '\\'"),
                        value: Param::Text(pattern),
                    },
                );
            },
            None => {},
        }
        let ghost after_like = predicate_views(preds@);
        match &self.title_type {
            Some(t) => {
                preds.push(Predicate { clause: String::from_str(" title_type = ?"), value: Param::Text(t.clone()) });
            },
            None => {},
        }
        let ghost after_type = predicate_views(preds@);
        match self.start_year {
            Some(y) => {
                preds.push(Predicate { clause: String::from_str(" start_year = ?"), value: Param::Int(y) });
            },
            None => {},
        }
        proof {
            assert(after_id =~= opt_pred(q.id is Some, id_clause(), Value::Text(q.id->0)));
            assert(after_like =~= after_id + opt_pred(
                q.like is Some,
                like_clause(),
                Value::Text(prefix_pattern(q.like->0)),
            ));
            assert(after_type =~= after_like + opt_pred(
                q.title_type is Some,
                title_type_clause(),
                Value::Text(q.title_type->0),
            ));
            assert(predicate_views(preds@) =~= after_type + opt_pred(
                q.start_year is Some,
                start_year_clause(),
                Value::Int(q.start_year->0),
            ));
        }
        render(String::from_str("SELECT * FROM titles"), preds, self.limit)
    }
}

/// The filter clauses of a query, as they appear in its text.
pub open spec fn title_clauses(q: TitleQueryView) -> Seq<Seq<char>> {
    title_predicates(q).map_values(|p: (Seq<char>, Value)| p.0)
}

/// Every filter clause a title query can hold, in declaration order.
pub open spec fn title_clause_order() -> Seq<Seq<char>> {
    seq![id_clause(), like_clause(), title_type_clause(), start_year_clause()]
}

/// Whether the query supplies the filter of the given clause.
pub open spec fn supplies(q: TitleQueryView, clause: Seq<char>) -> bool {
    ||| clause == id_clause() && q.id is Some
    ||| clause == like_clause() && q.like is Some
    ||| clause == title_type_clause() && q.title_type is Some
    ||| clause == start_year_clause() && q.start_year is Some
}

proof fn lemma_clauses_distinct()
    ensures
        id_clause() != like_clause(),
        id_clause() != title_type_clause(),
        id_clause() != start_year_clause(),
        like_clause() != title_type_clause(),
        like_clause() != start_year_clause(),
        title_type_clause() != start_year_clause(),
{
    reveal_strlit(" tconst = ?");
    reveal_strlit(" original_title LIKE ? COLLATE NOCASE ESCAPE '\\'");
    reveal_strlit(" title_type = ?");
    reveal_strlit(" start_year = ?");
    assert(id_clause().len() != like_clause().len());
    assert(id_clause().len() != title_type_clause().len());
    assert(like_clause().len() != title_type_clause().len());
    assert(id_clause().len() != start_year_clause().len());
    assert(like_clause().len() != start_year_clause().len());
    assert(title_type_clause()[1] != start_year_clause()[1]);
}

proof fn lemma_clauses_in_order(q: TitleQueryView)
    ensures
        title_clauses(q) == title_clause_order().filter(|c: Seq<char>| supplies(q, c)),
{
    lemma_clauses_distinct();
    let o = title_clause_order();
    let f = |c: Seq<char>| supplies(q, c);
    reveal_with_fuel(Seq::filter, 5);
    assert(o.drop_last().drop_last().drop_last().drop_last() =~= Seq::<Seq<char>>::empty());
    assert(o.drop_last().drop_last().drop_last() =~= seq![id_clause()]);
    assert(o.drop_last().drop_last() =~= seq![id_clause(), like_clause()]);
    assert(o.drop_last() =~= seq![id_clause(), like_clause(), title_type_clause()]);
    assert(title_clauses(q) =~= o.filter(f));
}

/// The filters of a query appear in the declaration order, each supplied one
/// once and no other; two queries that supply the same filters hold the same
/// clauses in the same order.
pub proof fn lemma_title_filter_order(q: TitleQueryView, q2: TitleQueryView)
    ensures
        title_clauses(q) == title_clause_order().filter(|c: Seq<char>| supplies(q, c)),
        (q.id is Some <==> q2.id is Some) && (q.like is Some <==> q2.like is Some) && (
        q.title_type is Some <==> q2.title_type is Some) && (q.start_year is Some
            <==> q2.start_year is Some) ==> title_clauses(q) == title_clauses(q2),
{
    lemma_clauses_in_order(q);
    lemma_clauses_in_order(q2);
    if (q.id is Some <==> q2.id is Some) && (q.like is Some <==> q2.like is Some) && (
    q.title_type is Some <==> q2.title_type is Some) && (q.start_year is Some
        <==> q2.start_year is Some) {
        let f = |c: Seq<char>| supplies(q, c);
        let f2 = |c: Seq<char>| supplies(q2, c);
        assert(f =~= f2);
    }
}

// ---------------------------------------------------------------------------
// What the store returns for a title query.

/// ASCII letters compare without case; every other character as itself.
pub open spec fn fold_case(c: char) -> int {
    if 'A' <= c <= 'Z' {
        c as int + 32
    } else {
        c as int
    }
}

/// SQL `LIKE` with `\` as the escape character: `%` stands for any run of
/// characters, `_` for any one, `\` makes the next character stand for
/// itself, and ASCII letters match without case.
pub open spec fn like_matches(p: Seq<char>, s: Seq<char>) -> bool
    decreases p.len(), s.len(),
{
    if p.len() == 0 {
        s.len() == 0
    } else if p[0] == '\\' && p.len() >= 2 {
        s.len() > 0 && fold_case(p[1]) == fold_case(s[0]) && like_matches(
            p.subrange(2, p.len() as int),
            s.drop_first(),
        )
    } else if p[0] == '%' {
        like_matches(p.drop_first(), s) || (s.len() > 0 && like_matches(p, s.drop_first()))
    } else if p[0] == '_' {
        s.len() > 0 && like_matches(p.drop_first(), s.drop_first())
    } else {
        s.len() > 0 && fold_case(p[0]) == fold_case(s[0]) && like_matches(
            p.drop_first(),
            s.drop_first(),
        )
    }
}

/// Whether `s` starts with `p`, ASCII letters compared without case.
pub open spec fn starts_with_nocase(p: Seq<char>, s: Seq<char>) -> bool {
    p.len() <= s.len() && forall|i: int| 0 <= i < p.len() ==> fold_case(#[trigger] p[i]) == fold_case(s[i])
}

proof fn lemma_percent_matches_all(s: Seq<char>)
    ensures
        like_matches(seq!['%'], s),
    decreases s.len(),
{
    let p = seq!['%'];
    assert(p.drop_first() =~= Seq::<char>::empty());
    assert(p[0] == '%' && p.len() == 1);
    if s.len() > 0 {
        lemma_percent_matches_all(s.drop_first());
        assert(like_matches(p, s.drop_first()));
    } else {
        assert(like_matches(p.drop_first(), s));
    }
}

/// The pattern of a prefix matches exactly the texts that start with it,
/// ASCII letters compared without case; `%`, `_` and `\\` in the prefix stand
/// for themselves.
pub proof fn lemma_prefix_pattern_matches(p: Seq<char>, s: Seq<char>)
    ensures
        like_matches(prefix_pattern(p), s) <==> starts_with_nocase(p, s),
    decreases p.len(),
{
    if p.len() == 0 {
        assert(prefix_pattern(p) =~= seq!['%']);
        lemma_percent_matches_all(s);
    } else {
        let c = p[0];
        let rest = prefix_pattern(p.drop_first());
        let pat = prefix_pattern(p);
        assert(pat =~= escape_char(c) + rest);
        lemma_prefix_pattern_matches(p.drop_first(), s.drop_first());
        if like_special(c) {
            assert(pat[0] == '\\' && pat[1] == c);
            assert(pat.subrange(2, pat.len() as int) =~= rest);
        } else {
            assert(pat[0] == c);
            assert(pat.drop_first() =~= rest);
        }
        if s.len() > 0 {
            if starts_with_nocase(p, s) {
                assert forall|i: int| 0 <= i < p.drop_first().len() implies fold_case(
                    #[trigger] p.drop_first()[i],
                ) == fold_case(s.drop_first()[i]) by {
                    assert(fold_case(p[i + 1]) == fold_case(s[i + 1]));
                }
                assert(fold_case(p[0]) == fold_case(s[0]));
            }
            if fold_case(c) == fold_case(s[0]) && starts_with_nocase(p.drop_first(), s.drop_first()) {
                assert forall|i: int| 0 <= i < p.len() implies fold_case(#[trigger] p[i]) == fold_case(
                    s[i],
                ) by {
                    if i > 0 {
                        assert(fold_case(p.drop_first()[i - 1]) == fold_case(s.drop_first()[i - 1]));
                    }
                }
            }
        }
    }
}

/// Whether a row meets every filter the query supplies.
pub open spec fn admits(q: TitleQueryView, t: TitleView) -> bool {
    &&& q.id matches Some(i) ==> t.tconst == i
    &&& q.like matches Some(l) ==> like_matches(prefix_pattern(l), t.original_title)
    &&& q.title_type matches Some(ty) ==> t.title_type == ty
    &&& q.start_year matches Some(y) ==> t.start_year == Some(y)
}

/// The rows a title query returns from a table held in store order.
pub open spec fn select(q: TitleQueryView, rows: Seq<TitleView>) -> Seq<TitleView> {
    let m = rows.filter(|t: TitleView| admits(q, t));
    match q.limit {
        Some(n) => if n < m.len() {
            m.take(n as int)
        } else {
            m
        },
        None => m,
    }
}

/// No two rows of the titles table share an identifier.
pub open spec fn unique_ids(rows: Seq<TitleView>) -> bool {
    forall|i: int, j: int|
        0 <= i < j < rows.len() ==> #[trigger] rows[i].tconst != #[trigger] rows[j].tconst
}

proof fn lemma_filter_by_id(q: TitleQueryView, rows: Seq<TitleView>)
    requires
        q.id is Some,
        unique_ids(rows),
    ensures
        rows.filter(|t: TitleView| admits(q, t)).len() <= 1,
        rows.filter(|t: TitleView| admits(q, t)).len() == 1 ==> exists|j: int|
            0 <= j < rows.len() && #[trigger] rows[j].tconst == q.id->0,
    decreases rows.len(),
{
    let f = |t: TitleView| admits(q, t);
    if rows.len() > 0 {
        let prev = rows.drop_last();
        assert(unique_ids(prev)) by {
            assert forall|i: int, j: int| 0 <= i < j < prev.len() implies #[trigger] prev[i].tconst
                != #[trigger] prev[j].tconst by {
                assert(prev[i] == rows[i] && prev[j] == rows[j]);
            }
        }
        lemma_filter_by_id(q, prev);
        reveal(Seq::filter);
        assert(rows.filter(f) == if f(rows.last()) {
            prev.filter(f).push(rows.last())
        } else {
            prev.filter(f)
        });
        if f(rows.last()) && prev.filter(f).len() == 1 {
            let j = choose|j: int| 0 <= j < prev.len() && #[trigger] prev[j].tconst == q.id->0;
            assert(rows[j] == prev[j]);
            assert(rows[j].tconst == rows[rows.len() - 1].tconst);
        }
        if prev.filter(f).len() == 1 && !f(rows.last()) {
            let j = choose|j: int| 0 <= j < prev.len() && #[trigger] prev[j].tconst == q.id->0;
            assert(rows[j] == prev[j]);
        }
    }
}

/// A query that filters on an identifier returns at most one row.
pub proof fn lemma_id_selects_at_most_one(q: TitleQueryView, rows: Seq<TitleView>)
    requires
        q.id is Some,
        unique_ids(rows),
    ensures
        select(q, rows).len() <= 1,
{
    lemma_filter_by_id(q, rows);
}

/// A query whose only filter is an identifier returns the row with that
/// identifier when the table has one, and nothing otherwise.
pub proof fn lemma_id_only_selects_match(q: TitleQueryView, rows: Seq<TitleView>)
    requires
        q.id is Some,
        q.like is None,
        q.title_type is None,
        q.start_year is None,
        q.limit matches Some(n) ==> n >= 1,
        unique_ids(rows),
    ensures
        select(q, rows).len() <= 1,
        forall|i: int| 0 <= i < select(q, rows).len() ==> (#[trigger] select(q, rows)[i]).tconst
            == q.id->0,
        select(q, rows).len() == 1 <==> exists|j: int|
            0 <= j < rows.len() && #[trigger] rows[j].tconst == q.id->0,
{
    let f = |t: TitleView| admits(q, t);
    lemma_filter_by_id(q, rows);
    let m = rows.filter(f);
    assert(select(q, rows) == m);
    assert forall|i: int| 0 <= i < m.len() implies (#[trigger] m[i]).tconst == q.id->0 by {
        rows.lemma_filter_pred(f, i);
    }
    if exists|j: int| 0 <= j < rows.len() && #[trigger] rows[j].tconst == q.id->0 {
        let j = choose|j: int| 0 <= j < rows.len() && #[trigger] rows[j].tconst == q.id->0;
        rows.lemma_filter_contains(f, j);
        assert(m.len() >= 1);
    }
}

proof fn lemma_filter_all(q: TitleQueryView, rows: Seq<TitleView>)
    requires
        q.id is None,
        q.like is None,
        q.title_type is None,
        q.start_year is None,
    ensures
        rows.filter(|t: TitleView| admits(q, t)) == rows,
    decreases rows.len(),
{
    let f = |t: TitleView| admits(q, t);
    if rows.len() > 0 {
        lemma_filter_all(q, rows.drop_last());
        reveal(Seq::filter);
        assert(rows.filter(f) == rows.drop_last().filter(f).push(rows.last()));
        assert(rows.drop_last().push(rows.last()) =~= rows);
    } else {
        reveal(Seq::filter);
        assert(rows.filter(f) =~= rows);
    }
}

/// A query with no filter returns the rows in store order, as many as the cap
/// allows.
pub proof fn lemma_unfiltered_selects_up_to_cap(q: TitleQueryView, rows: Seq<TitleView>)
    requires
        q.id is None,
        q.like is None,
        q.title_type is None,
        q.start_year is None,
    ensures
        select(q, rows) == match q.limit {
            Some(n) => if n < rows.len() {
                rows.take(n as int)
            } else {
                rows
            },
            None => rows,
        },
{
    lemma_filter_all(q, rows);
}

} // verus!
