use movies::api::Request;
use movies::crew::CrewQuery;
use movies::principals::PrincipalsQuery;
use movies::store::Param;
use movies::titles::TitleQuery;

#[test]
fn no_filter_is_base_statement() {
    let s = TitleQuery::new().build();
    assert_eq!(s.sql, "SELECT * FROM titles");
    assert!(s.params.is_empty());
    let capped = TitleQuery::new().limit(100).build();
    assert_eq!(capped.sql, "SELECT * FROM titles LIMIT ?");
    assert_eq!(capped.params, vec![Param::Int(100)]);
}

#[test]
fn filters_in_fixed_order() {
    let a = TitleQuery::new()
        .like("God".to_string())
        .title_type("movie".to_string())
        .start_year(Some(1972))
        .limit(100)
        .build();
    assert_eq!(
        a.sql,
        "SELECT * FROM titles WHERE original_title LIKE ? COLLATE NOCASE ESCAPE '\\' AND title_type = ? AND start_year = ? LIMIT ?"
    );
    assert_eq!(
        a.params,
        vec![
            Param::Text("God%".to_string()),
            Param::Text("movie".to_string()),
            Param::Int(1972),
            Param::Int(100),
        ]
    );
    let b = TitleQuery::new()
        .start_year(Some(1972))
        .limit(100)
        .title_type("movie".to_string())
        .like("God".to_string())
        .build();
    assert_eq!(a, b);
}

#[test]
fn empty_filters_are_skipped() {
    let s = TitleQuery::new()
        .like(String::new())
        .title_type("short".to_string())
        .start_year(None)
        .build();
    assert_eq!(s.sql, "SELECT * FROM titles WHERE title_type = ?");
    assert_eq!(s.params, vec![Param::Text("short".to_string())]);
}

#[test]
fn identifier_filter() {
    let id = "tt0317705".to_string();
    let s = TitleQuery::new().id(&id).build();
    assert_eq!(s.sql, "SELECT * FROM titles WHERE tconst = ?");
    assert_eq!(s.params, vec![Param::Text(id.clone())]);
    let c = CrewQuery::new().id(&id).build();
    assert_eq!(c.sql, "SELECT * FROM crew WHERE tconst = ?");
    let p = PrincipalsQuery::new().movie(&id).build();
    assert_eq!(p.sql, "SELECT * FROM principals WHERE tconst = ?");
    assert_eq!(p.params, vec![Param::Text(id)]);
    let all = PrincipalsQuery::new().movie(&String::new()).build();
    assert_eq!(all.sql, "SELECT * FROM principals");
}

#[test]
fn search_request_is_capped() {
    let req = Request { title: "Incred".to_string(), title_type: String::new(), year: Some(2004) };
    let s = req.query().build();
    assert_eq!(
        s.sql,
        "SELECT * FROM titles WHERE original_title LIKE ? COLLATE NOCASE ESCAPE '\\' AND start_year = ? LIMIT ?"
    );
    assert_eq!(
        s.params,
        vec![Param::Text("Incred%".to_string()), Param::Int(2004), Param::Int(100)]
    );
}

#[test]
fn like_prefix_is_escaped() {
    let s = TitleQuery::new().like("50%_off\\".to_string()).build();
    assert_eq!(s.sql, "SELECT * FROM titles WHERE original_title LIKE ? COLLATE NOCASE ESCAPE '\\'");
    assert_eq!(s.params, vec![Param::Text("50\\%\\_off\\\\%".to_string())]);
    assert_eq!(movies::titles::escape_like_text(&"a_b".to_string()), "a\\_b");
}
