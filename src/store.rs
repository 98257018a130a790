use vstd::prelude::*;
use vstd::set::axiom_set_insert_len;
use vstd::string::StringExecFns;

use crate::record::{int_or_zero, optional_int, optional_int_of, parsed_i32};

verus! {

/// A value bound to a placeholder of a statement.
#[derive(Debug, Clone, PartialEq)]
pub enum Param {
    Text(String),
    Int(i64),
    Null,
}

/// What a bound value stands for.
pub enum Value {
    Text(Seq<char>),
    Int(int),
    Null,
}

impl View for Param {
    type V = Value;

    open spec fn view(&self) -> Value {
        match self {
            Param::Text(s) => Value::Text(s@),
            Param::Int(i) => Value::Int(*i as int),
            Param::Null => Value::Null,
        }
    }
}

impl Param {
    /// A copy of this value.
    pub fn duplicate(&self) -> (r: Param)
        ensures
            r@ == self@,
    {
        match self {
            Param::Text(s) => Param::Text(s.clone()),
            Param::Int(i) => Param::Int(*i),
            Param::Null => Param::Null,
        }
    }
}

pub open spec fn param_views(v: Seq<Param>) -> Seq<Value> {
    v.map_values(|p: Param| p@)
}

/// A statement with `?` placeholders and the values bound to them, in order.
#[derive(Debug, Clone, PartialEq)]
pub struct Statement {
    pub sql: String,
    pub params: Vec<Param>,
}

/// The tables of the store, one per kind of source record.
#[derive(Debug, Clone, Copy, PartialEq, Eq, Structural)]
pub enum TableKind {
    Names,
    TitleAkas,
    Titles,
    Episodes,
    Principals,
    Crew,
}

/// One insert-if-absent write: the values of a row of a table, key columns first.
#[derive(Debug, Clone, PartialEq)]
pub struct Upsert {
    pub table: TableKind,
    pub values: Vec<Param>,
}

pub struct UpsertView {
    pub table: TableKind,
    pub values: Seq<Value>,
}

impl View for Upsert {
    type V = UpsertView;

    open spec fn view(&self) -> UpsertView {
        UpsertView { table: self.table, values: param_views(self.values@) }
    }
}

pub open spec fn upsert_views(v: Seq<Upsert>) -> Seq<UpsertView> {
    v.map_values(|u: Upsert| u@)
}

pub open spec fn opt_upsert_view(u: Option<Upsert>) -> Option<UpsertView> {
    match u {
        Some(u) => Some(u@),
        None => None,
    }
}

/// The number of fields a record of a table must have to be written.
pub open spec fn min_arity(kind: TableKind) -> nat {
    match kind {
        TableKind::Names => 6,
        TableKind::TitleAkas => 8,
        TableKind::Titles => 9,
        TableKind::Episodes => 4,
        TableKind::Principals => 6,
        TableKind::Crew => 3,
    }
}

/// Whether the key of a table is a pair (parent id, ordering).
pub open spec fn composite_key(kind: TableKind) -> bool {
    kind == TableKind::TitleAkas || kind == TableKind::Principals
}

pub open spec fn text_of(f: Seq<char>) -> Value {
    Value::Text(f)
}

/// A best-effort integer column: zero when the field does not parse.
pub open spec fn int_of(f: Seq<char>) -> Value {
    match parsed_i32(f) {
        Some(v) => Value::Int(v as int),
        None => Value::Int(0),
    }
}

/// An optional integer column: null for the null marker or an unparsable field.
pub open spec fn opt_int_of(f: Seq<char>) -> Value {
    match optional_int_of(f) {
        Some(v) => Value::Int(v as int),
        None => Value::Null,
    }
}

/// The row that a well-formed record of a table is written as.
pub open spec fn row_values(kind: TableKind, r: Seq<Seq<char>>) -> Seq<Value> {
    match kind {
        TableKind::Names => seq![
            text_of(r[0]),
            text_of(r[1]),
            opt_int_of(r[2]),
            opt_int_of(r[3]),
            text_of(r[4]),
            text_of(r[5]),
        ],
        TableKind::TitleAkas => seq![
            text_of(r[0]),
            int_of(r[1]),
            text_of(r[2]),
            text_of(r[3]),
            text_of(r[4]),
            text_of(r[5]),
            text_of(r[6]),
            int_of(r[7]),
        ],
        TableKind::Titles => seq![
            text_of(r[0]),
            text_of(r[1]),
            text_of(r[2]),
            text_of(r[3]),
            int_of(r[4]),
            opt_int_of(r[5]),
            opt_int_of(r[6]),
            opt_int_of(r[7]),
            text_of(r[8]),
        ],
        TableKind::Episodes => seq![
            text_of(r[0]),
            text_of(r[1]),
            opt_int_of(r[2]),
            opt_int_of(r[3]),
        ],
        TableKind::Principals => seq![
            text_of(r[0]),
            int_of(r[1]),
            text_of(r[2]),
            text_of(r[3]),
            text_of(r[4]),
            text_of(r[5]),
        ],
        TableKind::Crew => seq![text_of(r[0]), text_of(r[1]), text_of(r[2])],
    }
}

/// What a decoded record becomes: a row when it has enough fields, else nothing.
pub open spec fn upsert_of(kind: TableKind, r: Seq<Seq<char>>) -> Option<UpsertView> {
    if r.len() >= min_arity(kind) {
        Some(UpsertView { table: kind, values: row_values(kind, r) })
    } else {
        None
    }
}

/// The rows written for a sequence of decoded records, in order.
pub open spec fn upserts_of(kind: TableKind, rs: Seq<Seq<Seq<char>>>) -> Seq<UpsertView>
    decreases rs.len(),
{
    if rs.len() == 0 {
        Seq::empty()
    } else {
        let prev = upserts_of(kind, rs.drop_last());
        match upsert_of(kind, rs.last()) {
            Some(u) => prev.push(u),
            None => prev,
        }
    }
}

pub fn text_param(f: &String) -> (r: Param)
    ensures
        r@ == text_of(f@),
{
    Param::Text(f.clone())
}

pub fn int_param(f: &String) -> (r: Param)
    ensures
        r@ == int_of(f@),
{
    Param::Int(int_or_zero(f) as i64)
}

pub fn opt_int_param(f: &String) -> (r: Param)
    ensures
        r@ == opt_int_of(f@),
{
    match optional_int(f) {
        Some(v) => Param::Int(v as i64),
        None => Param::Null,
    }
}


impl TableKind {
    /// The name of the table in the store.
    pub open spec fn table_name(self) -> Seq<char> {
        match self {
            TableKind::Names => "names"@,
            TableKind::TitleAkas => "title_akas"@,
            TableKind::Titles => "titles"@,
            TableKind::Episodes => "episodes"@,
            TableKind::Principals => "principals"@,
            TableKind::Crew => "crew"@,
        }
    }

    /// The statement that creates the table when it is absent.
    pub open spec fn create_sql(self) -> Seq<char> {
        match self {
            TableKind::Names => "CREATE TABLE IF NOT EXISTS names (nconst TEXT PRIMARY KEY, primary_name TEXT, birth_year INTEGER, death_year INTEGER, primary_profession TEXT, known_for_titles TEXT)"@,
            TableKind::TitleAkas => "CREATE TABLE IF NOT EXISTS title_akas (title_id TEXT, ordering INTEGER, title TEXT, region TEXT, language TEXT, types TEXT, attributes TEXT, is_original_title INTEGER, PRIMARY KEY (title_id, ordering))"@,
            TableKind::Titles => "CREATE TABLE IF NOT EXISTS titles (tconst TEXT PRIMARY KEY NOT NULL, title_type TEXT, primary_title TEXT, original_title TEXT, is_adult INTEGER, start_year INTEGER, end_year INTEGER, runtime_minutes INTEGER, genres TEXT)"@,
            TableKind::Episodes => "CREATE TABLE IF NOT EXISTS episodes (tconst TEXT PRIMARY KEY, parentTconst TEXT, seasonNumber INTEGER, episodeNumber INTEGER)"@,
            TableKind::Principals => "CREATE TABLE IF NOT EXISTS principals (tconst TEXT, ordering INTEGER, nconst TEXT, category TEXT, job TEXT, characters TEXT, PRIMARY KEY (tconst, ordering))"@,
            TableKind::Crew => "CREATE TABLE IF NOT EXISTS crew (tconst TEXT PRIMARY KEY, directors TEXT, writers TEXT)"@,
        }
    }

    /// The insert-if-absent statement of the table, one placeholder per column.
    pub open spec fn insert_sql(self) -> Seq<char> {
        match self {
            TableKind::Names => "INSERT OR IGNORE INTO names (nconst, primary_name, birth_year, death_year, primary_profession, known_for_titles) VALUES (?, ?, ?, ?, ?, ?)"@,
            TableKind::TitleAkas => "INSERT OR IGNORE INTO title_akas (title_id, ordering, title, region, language, types, attributes, is_original_title) VALUES (?, ?, ?, ?, ?, ?, ?, ?)"@,
            TableKind::Titles => "INSERT OR IGNORE INTO titles (tconst, title_type, primary_title, original_title, is_adult, start_year, end_year, runtime_minutes, genres) VALUES (?, ?, ?, ?, ?, ?, ?, ?, ?)"@,
            TableKind::Episodes => "INSERT OR IGNORE INTO episodes (tconst, parentTconst, seasonNumber, episodeNumber) VALUES (?, ?, ?, ?)"@,
            TableKind::Principals => "INSERT OR IGNORE INTO principals (tconst, ordering, nconst, category, job, characters) VALUES (?, ?, ?, ?, ?, ?)"@,
            TableKind::Crew => "INSERT OR IGNORE INTO crew (tconst, directors, writers) VALUES (?, ?, ?)"@,
        }
    }

    pub fn name(&self) -> (r: String)
        ensures
            r@ == self.table_name(),
    {
        match self {
            TableKind::Names => String::from_str("names"),
            TableKind::TitleAkas => String::from_str("title_akas"),
            TableKind::Titles => String::from_str("titles"),
            TableKind::Episodes => String::from_str("episodes"),
            TableKind::Principals => String::from_str("principals"),
            TableKind::Crew => String::from_str("crew"),
        }
    }

    pub fn create_statement(&self) -> (r: String)
        ensures
            r@ == self.create_sql(),
    {
        match self {
            TableKind::Names => String::from_str("CREATE TABLE IF NOT EXISTS names (nconst TEXT PRIMARY KEY, primary_name TEXT, birth_year INTEGER, death_year INTEGER, primary_profession TEXT, known_for_titles TEXT)"),
            TableKind::TitleAkas => String::from_str("CREATE TABLE IF NOT EXISTS title_akas (title_id TEXT, ordering INTEGER, title TEXT, region TEXT, language TEXT, types TEXT, attributes TEXT, is_original_title INTEGER, PRIMARY KEY (title_id, ordering))"),
            TableKind::Titles => String::from_str("CREATE TABLE IF NOT EXISTS titles (tconst TEXT PRIMARY KEY NOT NULL, title_type TEXT, primary_title TEXT, original_title TEXT, is_adult INTEGER, start_year INTEGER, end_year INTEGER, runtime_minutes INTEGER, genres TEXT)"),
            TableKind::Episodes => String::from_str("CREATE TABLE IF NOT EXISTS episodes (tconst TEXT PRIMARY KEY, parentTconst TEXT, seasonNumber INTEGER, episodeNumber INTEGER)"),
            TableKind::Principals => String::from_str("CREATE TABLE IF NOT EXISTS principals (tconst TEXT, ordering INTEGER, nconst TEXT, category TEXT, job TEXT, characters TEXT, PRIMARY KEY (tconst, ordering))"),
            TableKind::Crew => String::from_str("CREATE TABLE IF NOT EXISTS crew (tconst TEXT PRIMARY KEY, directors TEXT, writers TEXT)"),
        }
    }

    pub fn insert_statement(&self) -> (r: String)
        ensures
            r@ == self.insert_sql(),
    {
        match self {
            TableKind::Names => String::from_str("INSERT OR IGNORE INTO names (nconst, primary_name, birth_year, death_year, primary_profession, known_for_titles) VALUES (?, ?, ?, ?, ?, ?)"),
            TableKind::TitleAkas => String::from_str("INSERT OR IGNORE INTO title_akas (title_id, ordering, title, region, language, types, attributes, is_original_title) VALUES (?, ?, ?, ?, ?, ?, ?, ?)"),
            TableKind::Titles => String::from_str("INSERT OR IGNORE INTO titles (tconst, title_type, primary_title, original_title, is_adult, start_year, end_year, runtime_minutes, genres) VALUES (?, ?, ?, ?, ?, ?, ?, ?, ?)"),
            TableKind::Episodes => String::from_str("INSERT OR IGNORE INTO episodes (tconst, parentTconst, seasonNumber, episodeNumber) VALUES (?, ?, ?, ?)"),
            TableKind::Principals => String::from_str("INSERT OR IGNORE INTO principals (tconst, ordering, nconst, category, job, characters) VALUES (?, ?, ?, ?, ?, ?)"),
            TableKind::Crew => String::from_str("INSERT OR IGNORE INTO crew (tconst, directors, writers) VALUES (?, ?, ?)"),
        }
    }
}

impl Upsert {
    /// The statement that performs this write.
    pub fn statement(self) -> (r: Statement)
        ensures
            r.sql@ == self.table.insert_sql(),
            r.params@ == self.values@,
    {
        Statement { sql: self.table.insert_statement(), params: self.values }
    }
}

// ---------------------------------------------------------------------------
// The store, as the statements above change it.

/// The key of a row: its table, its id, and its ordering for a composite key.
pub struct RowKey {
    pub table: TableKind,
    pub id: Value,
    pub ordering: Value,
}

pub open spec fn key_of(u: UpsertView) -> RowKey {
    RowKey {
        table: u.table,
        id: u.values[0],
        ordering: if composite_key(u.table) {
            u.values[1]
        } else {
            Value::Null
        },
    }
}

/// The contents of the store: each key holds one row.
pub type Store = Map<RowKey, Seq<Value>>;

/// One insert-if-absent write: a row whose key is already there is ignored.
pub open spec fn write(s: Store, u: UpsertView) -> Store {
    if s.contains_key(key_of(u)) {
        s
    } else {
        s.insert(key_of(u), u.values)
    }
}

/// The store after a sequence of writes, applied in order.
pub open spec fn write_all(s: Store, us: Seq<UpsertView>) -> Store
    decreases us.len(),
{
    if us.len() == 0 {
        s
    } else {
        write(write_all(s, us.drop_last()), us.last())
    }
}

/// The number of rows of one table.
pub open spec fn row_count(s: Store, kind: TableKind) -> nat {
    s.dom().filter(|k: RowKey| k.table == kind).len()
}

proof fn lemma_write_all_keeps(s: Store, us: Seq<UpsertView>)
    ensures
        forall|k: RowKey| s.contains_key(k) ==> #[trigger] write_all(s, us).contains_key(k),
        forall|i: int| 0 <= i < us.len() ==> write_all(s, us).contains_key(#[trigger] key_of(us[i])),
    decreases us.len(),
{
    if us.len() > 0 {
        lemma_write_all_keeps(s, us.drop_last());
        let prev = write_all(s, us.drop_last());
        assert forall|k: RowKey| s.contains_key(k) implies #[trigger] write_all(
            s,
            us,
        ).contains_key(k) by {
            assert(prev.contains_key(k));
        }
        assert forall|i: int| 0 <= i < us.len() implies write_all(s, us).contains_key(
            #[trigger] key_of(us[i]),
        ) by {
            if i < us.len() - 1 {
                assert(us.drop_last()[i] == us[i]);
            }
        }
    }
}

proof fn lemma_write_all_present(s: Store, us: Seq<UpsertView>)
    requires
        forall|i: int| 0 <= i < us.len() ==> s.contains_key(#[trigger] key_of(us[i])),
    ensures
        write_all(s, us) == s,
    decreases us.len(),
{
    if us.len() > 0 {
        assert forall|i: int| 0 <= i < us.len() - 1 implies s.contains_key(
            #[trigger] key_of(us.drop_last()[i]),
        ) by {
            assert(us.drop_last()[i] == us[i]);
        }
        lemma_write_all_present(s, us.drop_last());
        assert(s.contains_key(key_of(us[us.len() - 1])));
    }
}

/// Writing the same rows a second time changes nothing: the store, and so the
/// row count of every table, is what one pass left.
pub proof fn lemma_ingest_twice(s: Store, kind: TableKind, records: Seq<Seq<Seq<char>>>)
    ensures
        write_all(write_all(s, upserts_of(kind, records)), upserts_of(kind, records)) == write_all(
            s,
            upserts_of(kind, records),
        ),
        forall|t: TableKind|
            row_count(
                write_all(write_all(s, upserts_of(kind, records)), upserts_of(kind, records)),
                t,
            ) == #[trigger] row_count(write_all(s, upserts_of(kind, records)), t),
{
    let us = upserts_of(kind, records);
    lemma_write_all_keeps(s, us);
    lemma_write_all_present(write_all(s, us), us);
}

/// A record with fewer fields than its table needs is written as nothing, and
/// leaves the store as it was.
pub proof fn lemma_short_record_dropped(s: Store, kind: TableKind, record: Seq<Seq<char>>)
    requires
        record.len() < min_arity(kind),
    ensures
        upsert_of(kind, record) is None,
        upserts_of(kind, seq![record]).len() == 0,
        write_all(s, upserts_of(kind, seq![record])) == s,
{
    let rs = seq![record];
    assert(rs.drop_last() =~= Seq::<Seq<Seq<char>>>::empty());
    assert(rs.last() == record);
    assert(upserts_of(kind, rs.drop_last()) == Seq::<UpsertView>::empty());
    assert(upserts_of(kind, rs) == upserts_of(kind, rs.drop_last()));
    assert(write_all(s, Seq::<UpsertView>::empty()) == s);
}

/// The number of records with enough fields for their table.
pub open spec fn well_formed_count(kind: TableKind, rs: Seq<Seq<Seq<char>>>) -> nat
    decreases rs.len(),
{
    if rs.len() == 0 {
        0
    } else {
        well_formed_count(kind, rs.drop_last()) + if rs.last().len() >= min_arity(kind) {
            1nat
        } else {
            0nat
        }
    }
}

proof fn lemma_upserts_shape(kind: TableKind, rs: Seq<Seq<Seq<char>>>)
    ensures
        upserts_of(kind, rs).len() == well_formed_count(kind, rs),
        forall|i: int|
            0 <= i < upserts_of(kind, rs).len() ==> (#[trigger] upserts_of(kind, rs)[i]).table
                == kind,
    decreases rs.len(),
{
    if rs.len() > 0 {
        lemma_upserts_shape(kind, rs.drop_last());
    }
}

/// Whether the rows have pairwise distinct keys, none of them in the store.
pub open spec fn fresh_keys(s: Store, us: Seq<UpsertView>) -> bool {
    &&& forall|i: int, j: int|
        0 <= i < j < us.len() ==> key_of(#[trigger] us[i]) != key_of(#[trigger] us[j])
    &&& forall|i: int| 0 <= i < us.len() ==> !s.contains_key(key_of(#[trigger] us[i]))
}

proof fn lemma_write_all_fresh(s: Store, us: Seq<UpsertView>, kind: TableKind)
    requires
        s.dom().finite(),
        fresh_keys(s, us),
        forall|i: int| 0 <= i < us.len() ==> (#[trigger] us[i]).table == kind,
    ensures
        write_all(s, us).dom().finite(),
        row_count(write_all(s, us), kind) == row_count(s, kind) + us.len(),
        forall|t: TableKind| t != kind ==> #[trigger] row_count(write_all(s, us), t) == row_count(s, t),
        forall|k: RowKey|
            #[trigger] write_all(s, us).contains_key(k) ==> s.contains_key(k) || exists|i: int|
                0 <= i < us.len() && key_of(#[trigger] us[i]) == k,
    decreases us.len(),
{
    if us.len() > 0 {
        let pre = us.drop_last();
        assert forall|i: int, j: int| 0 <= i < j < pre.len() implies key_of(#[trigger] pre[i])
            != key_of(#[trigger] pre[j]) by {
            assert(pre[i] == us[i] && pre[j] == us[j]);
        }
        assert forall|i: int| 0 <= i < pre.len() implies !s.contains_key(key_of(#[trigger] pre[i])) by {
            assert(pre[i] == us[i]);
        }
        assert forall|i: int| 0 <= i < pre.len() implies (#[trigger] pre[i]).table == kind by {
            assert(pre[i] == us[i]);
        }
        lemma_write_all_fresh(s, pre, kind);
        let prev = write_all(s, pre);
        let u = us.last();
        let k = key_of(u);
        assert(!prev.contains_key(k)) by {
            if prev.contains_key(k) {
                assert(!s.contains_key(key_of(us[us.len() - 1])));
                let i = choose|i: int| 0 <= i < pre.len() && key_of(#[trigger] pre[i]) == k;
                assert(pre[i] == us[i]);
                assert(key_of(us[i]) != key_of(us[us.len() - 1]));
            }
        }
        let next = write_all(s, us);
        assert(next == prev.insert(k, u.values));
        assert(next.dom() =~= prev.dom().insert(k));
        let fk = |x: RowKey| x.table == kind;
        prev.dom().lemma_len_filter(fk);
        assert(next.dom().filter(fk) =~= prev.dom().filter(fk).insert(k));
        axiom_set_insert_len(prev.dom().filter(fk), k);
        assert forall|t: TableKind| t != kind implies #[trigger] row_count(next, t) == row_count(
            s,
            t,
        ) by {
            let ft = |x: RowKey| x.table == t;
            assert(next.dom().filter(ft) =~= prev.dom().filter(ft));
            assert(row_count(prev, t) == row_count(s, t));
            assert(row_count(next, t) == next.dom().filter(ft).len());
            assert(row_count(prev, t) == prev.dom().filter(ft).len());
        }
        assert forall|x: RowKey| #[trigger] next.contains_key(x) implies s.contains_key(x) || exists|
            i: int,
        | 0 <= i < us.len() && key_of(#[trigger] us[i]) == x by {
            if x == k {
                assert(key_of(us[us.len() - 1]) == x);
            } else {
                assert(prev.contains_key(x));
                if !s.contains_key(x) {
                    let i = choose|i: int| 0 <= i < pre.len() && key_of(#[trigger] pre[i]) == x;
                    assert(pre[i] == us[i]);
                }
            }
        }
    } else {
        assert(write_all(s, us) == s);
    }
}

/// Batch completeness in the store: ingesting a file whose well-formed
/// records carry new, distinct keys adds exactly one row per well-formed
/// record to its table; malformed records add nothing, and every other table
/// keeps its rows.
pub proof fn lemma_file_row_count(s: Store, kind: TableKind, records: Seq<Seq<Seq<char>>>)
    requires
        s.dom().finite(),
        fresh_keys(s, upserts_of(kind, records)),
    ensures
        row_count(write_all(s, upserts_of(kind, records)), kind) == row_count(s, kind)
            + well_formed_count(kind, records),
        forall|t: TableKind|
            t != kind ==> #[trigger] row_count(write_all(s, upserts_of(kind, records)), t)
                == row_count(s, t),
{
    lemma_upserts_shape(kind, records);
    lemma_write_all_fresh(s, upserts_of(kind, records), kind);
}

} // verus!
