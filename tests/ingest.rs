use movies::ingest::{ingest_batch, ingest_record, source_files, Batcher, INGEST_BATCH_SIZE};
use movies::record::{decode, int_or_zero, is_null_marker, optional_int, split_list};
use movies::store::{Param, TableKind, Upsert};
use movies::{crew, episodes, init_tables, names, principals, titles, DBError};

fn rec(fields: &[&str]) -> Vec<String> {
    fields.iter().map(|s| s.to_string()).collect()
}

fn text(s: &str) -> Param {
    Param::Text(s.to_string())
}

#[test]
fn decode_splits_on_tabs() {
    assert_eq!(decode(&"a\tb\t\tc".to_string()), rec(&["a", "b", "", "c"]));
    assert_eq!(decode(&"".to_string()), rec(&[""]));
    assert_eq!(decode(&"one".to_string()), rec(&["one"]));
    assert_eq!(decode(&"x\t".to_string()), rec(&["x", ""]));
}

#[test]
fn split_list_of_empty_is_empty() {
    assert_eq!(split_list(&"".to_string()), Vec::<String>::new());
    assert_eq!(split_list(&"nm1,nm2".to_string()), rec(&["nm1", "nm2"]));
    assert_eq!(split_list(&"a,,b".to_string()), rec(&["a", "", "b"]));
}

#[test]
fn numbers_parse_best_effort() {
    assert_eq!(int_or_zero(&"1972".to_string()), 1972);
    assert_eq!(int_or_zero(&"+5".to_string()), 5);
    assert_eq!(int_or_zero(&"-3".to_string()), -3);
    assert_eq!(int_or_zero(&"\\N".to_string()), 0);
    assert_eq!(int_or_zero(&"12a".to_string()), 0);
    assert_eq!(int_or_zero(&"2147483648".to_string()), 0);
    assert_eq!(int_or_zero(&"".to_string()), 0);
    assert_eq!(optional_int(&"\\N".to_string()), None);
    assert_eq!(optional_int(&"7".to_string()), Some(7));
    assert_eq!(optional_int(&"seven".to_string()), None);
    assert!(is_null_marker(&"\\N".to_string()));
    assert!(!is_null_marker(&"\\NN".to_string()));
    assert!(!is_null_marker(&"N".to_string()));
}

#[test]
fn title_record_becomes_row() {
    let r = rec(&["tt0068646", "movie", "The Godfather", "The Godfather", "0", "1972", "\\N", "175", "Crime,Drama"]);
    let u = titles::ingest(&r).unwrap();
    assert_eq!(u.table, TableKind::Titles);
    assert_eq!(
        u.values,
        vec![
            text("tt0068646"),
            text("movie"),
            text("The Godfather"),
            text("The Godfather"),
            Param::Int(0),
            Param::Int(1972),
            Param::Null,
            Param::Int(175),
            text("Crime,Drama"),
        ]
    );
    let s = u.statement();
    assert_eq!(
        s.sql,
        "INSERT OR IGNORE INTO titles (tconst, title_type, primary_title, original_title, is_adult, start_year, end_year, runtime_minutes, genres) VALUES (?, ?, ?, ?, ?, ?, ?, ?, ?)"
    );
    assert_eq!(s.params.len(), 9);
}

#[test]
fn title_null_years_are_absent() {
    let r = rec(&["tt1", "short", "A", "A", "\\N", "\\N", "\\N", "x", "\\N"]);
    let u = titles::ingest(&r).unwrap();
    assert_eq!(u.values[4], Param::Int(0));
    assert_eq!(u.values[5], Param::Null);
    assert_eq!(u.values[6], Param::Null);
    assert_eq!(u.values[7], Param::Null);
    assert_eq!(u.values[8], text("\\N"));
}

#[test]
fn alias_record_becomes_row() {
    let r = rec(&["tt0068646", "3", "Le Parrain", "FR", "fr", "imdbDisplay", "\\N", "0"]);
    let u = titles::ingest_aka(&r).unwrap();
    assert_eq!(u.table, TableKind::TitleAkas);
    assert_eq!(u.values[1], Param::Int(3));
    assert_eq!(u.values[6], text("\\N"));
    assert_eq!(u.values[7], Param::Int(0));
}

#[test]
fn name_record_keeps_marker_in_text() {
    let r = rec(&["nm0000008", "Marlon Brando", "1924", "\\N", "actor,director", "\\N"]);
    let u = names::ingest(&r).unwrap();
    assert_eq!(
        u.values,
        vec![
            text("nm0000008"),
            text("Marlon Brando"),
            Param::Int(1924),
            Param::Null,
            text("actor,director"),
            text("\\N"),
        ]
    );
}

#[test]
fn episode_null_season_is_absent() {
    let r = rec(&["tt0000001", "tt0000002", "\\N", "4"]);
    let u = episodes::ingest(&r).unwrap();
    assert_eq!(u.values[2], Param::Null);
    assert_ne!(u.values[2], Param::Int(0));
    assert_eq!(u.values[3], Param::Int(4));
}

#[test]
fn principal_and_crew_records_become_rows() {
    let p = principals::ingest(&rec(&["tt1", "2", "nm1", "actor", "\\N", "[\"Vito\"]"])).unwrap();
    assert_eq!(p.table, TableKind::Principals);
    assert_eq!(p.values[1], Param::Int(2));
    let c = crew::ingest(&rec(&["tt1", "nm1,nm2", "nm3"])).unwrap();
    assert_eq!(c.values, vec![text("tt1"), text("nm1,nm2"), text("nm3")]);
}

#[test]
fn short_records_are_dropped() {
    assert!(titles::ingest(&rec(&["tt1", "movie", "a", "b", "0", "1", "2", "3"])).is_none());
    assert!(titles::ingest_aka(&rec(&["tt1", "1"])).is_none());
    assert!(names::ingest(&rec(&["nm1"])).is_none());
    assert!(episodes::ingest(&rec(&["tt1", "tt2", "1"])).is_none());
    assert!(principals::ingest(&rec(&["tt1", "1", "nm1", "actor", "x"])).is_none());
    assert!(crew::ingest(&rec(&["tt1", "nm1"])).is_none());
    assert!(ingest_record(TableKind::Crew, &rec(&[""])).is_none());
}

#[test]
fn batch_drops_only_malformed() {
    let batch = vec![rec(&["tt1", "a", "b"]), rec(&["tt2"]), rec(&["tt3", "c", "d"])];
    let rows: Vec<Upsert> = ingest_batch(TableKind::Crew, &batch);
    assert_eq!(rows.len(), 2);
    assert_eq!(rows[0].values[0], text("tt1"));
    assert_eq!(rows[1].values[0], text("tt3"));
}

#[test]
fn reingesting_gives_same_rows() {
    let batch = vec![rec(&["tt1", "a", "b"]), rec(&["tt1", "a", "b"])];
    let first = ingest_batch(TableKind::Crew, &batch);
    let second = ingest_batch(TableKind::Crew, &batch);
    assert_eq!(first, second);
}

#[test]
fn batches_number_ceiling() {
    let mut b = Batcher::new(3);
    let mut flushed = 0;
    let mut sizes = Vec::new();
    for i in 0..7 {
        if let Some(batch) = b.push(rec(&[&format!("tt{i}")])) {
            flushed += 1;
            sizes.push(batch.len());
        }
    }
    assert_eq!(b.flushes(), 2);
    assert_eq!(b.records(), 7);
    assert_eq!(b.committed(), 6);
    if let Some(rest) = b.finish() {
        flushed += 1;
        sizes.push(rest.len());
    }
    assert_eq!(flushed, 3);
    assert_eq!(sizes, vec![3, 3, 1]);
}

#[test]
fn exact_multiple_leaves_nothing_to_finish() {
    let mut b = Batcher::new(2);
    assert!(b.push(rec(&["a"])).is_none());
    assert_eq!(b.push(rec(&["b"])).map(|v| v.len()), Some(2));
    assert!(b.finish().is_none());
    let empty = Batcher::new(INGEST_BATCH_SIZE);
    assert!(empty.finish().is_none());
}

#[test]
fn sources_and_tables() {
    let files = source_files();
    assert_eq!(files.len(), 6);
    assert_eq!(files[0].0, "data/name.basics.tsv");
    assert_eq!(files[0].1, TableKind::Names);
    assert_eq!(files[5].1, TableKind::Crew);
    assert_eq!(TableKind::TitleAkas.name(), "title_akas");
    let stmts = init_tables();
    assert_eq!(stmts.len(), 6);
    assert!(stmts[2].starts_with("CREATE TABLE IF NOT EXISTS title_akas"));
    assert_eq!(
        TableKind::Crew.create_statement(),
        "CREATE TABLE IF NOT EXISTS crew (tconst TEXT PRIMARY KEY, directors TEXT, writers TEXT)"
    );
}

#[test]
fn name_lookup_refuses_empty_id() {
    let e = names::primary_name(&"".to_string()).unwrap_err();
    assert_eq!(e.description(), "empty id");
    let s = names::primary_name(&"nm1".to_string()).unwrap();
    assert_eq!(s.sql, "SELECT * FROM names WHERE nconst = ?");
    assert_eq!(s.params, vec![text("nm1")]);
    assert_eq!(DBError::new("boom").description(), "boom");
}
