use movies::crew::Crew;
use movies::movie::{assemble, role_detail, MovieError};
use movies::principals::Principal;
use movies::titles::Title;

fn strings(v: &[&str]) -> Vec<String> {
    v.iter().map(|s| s.to_string()).collect()
}

fn incredibles() -> Title {
    Title {
        tconst: "tt0317705".to_string(),
        title_type: "movie".to_string(),
        primary_title: "The Incredibles".to_string(),
        original_title: "The Incredibles".to_string(),
        is_adult: 0,
        start_year: Some(2004),
        end_year: None,
        runtime_minutes: Some(115),
        genres: "Action,Adventure,Animation".to_string(),
    }
}

fn id() -> String {
    "tt0317705".to_string()
}

fn crew() -> Crew {
    Crew::from_columns("tt0317705".to_string(), &"nm0083348".to_string(), &"nm0083348".to_string())
}

fn cast() -> Vec<Principal> {
    vec![
        Principal::from_columns(
            "tt0317705".to_string(), 1, "nm0000001".to_string(), "actor".to_string(),
            String::new(), &"Mr. Incredible,Bob Parr".to_string(),
        ),
        Principal::from_columns(
            "tt0317705".to_string(), 2, "nm0000002".to_string(), "actress".to_string(),
            String::new(), &"Elastigirl".to_string(),
        ),
        Principal::from_columns(
            "tt0317705".to_string(), 3, "nm0083348".to_string(), "director".to_string(),
            "director".to_string(), &"".to_string(),
        ),
    ]
}

#[test]
fn movie_is_assembled() {
    let names = vec![
        Some("Craig T. Nelson".to_string()),
        Some("Holly Hunter".to_string()),
        Some("Brad Bird".to_string()),
    ];
    let m = assemble(&id(), Some(incredibles()), Some(crew()), &cast(), &names).unwrap();
    assert_eq!(m.title, "The Incredibles");
    assert_eq!(m.year, Some(2004));
    assert_eq!(m.crew.directors, strings(&["nm0083348"]));
    assert_eq!(m.principals.len(), 3);
    assert_eq!(m.principals[0], ("Craig T. Nelson".to_string(), strings(&["Mr. Incredible", "Bob Parr"])));
    assert_eq!(m.principals[1], ("Holly Hunter".to_string(), strings(&["Elastigirl"])));
    assert_eq!(m.principals[2], ("Brad Bird".to_string(), strings(&["director"])));
}

#[test]
fn missing_title_is_not_found() {
    let names = vec![Some("a".to_string()), Some("b".to_string()), Some("c".to_string())];
    assert_eq!(assemble(&id(), None, Some(crew()), &cast(), &names), Err(MovieError::TitleNotFound));
    assert_eq!(assemble(&id(), None, None, &Vec::new(), &Vec::new()), Err(MovieError::TitleNotFound));
}

#[test]
fn other_title_is_not_found() {
    let names = vec![Some("a".to_string()), Some("b".to_string()), Some("c".to_string())];
    assert_eq!(
        assemble(&String::new(), Some(incredibles()), Some(crew()), &cast(), &names),
        Err(MovieError::TitleNotFound)
    );
    assert_eq!(
        assemble(&"tt0000001".to_string(), Some(incredibles()), Some(crew()), &cast(), &names),
        Err(MovieError::TitleNotFound)
    );
}

#[test]
fn missing_crew_or_person_fails_whole() {
    let names = vec![Some("a".to_string()), None, Some("c".to_string())];
    assert_eq!(assemble(&id(), Some(incredibles()), None, &cast(), &names), Err(MovieError::CrewNotFound));
    assert_eq!(assemble(&id(), Some(incredibles()), Some(crew()), &cast(), &names), Err(MovieError::PersonNotFound));
}

#[test]
fn role_detail_prefers_job() {
    let c = cast();
    assert_eq!(role_detail(&c[2]), strings(&["director"]));
    assert_eq!(role_detail(&c[1]), strings(&["Elastigirl"]));
    assert!(role_detail(&c[2]).len() == 1);
}

#[test]
fn crew_lists_split() {
    let c = Crew::from_columns("tt1".to_string(), &"nm1,nm2".to_string(), &"".to_string());
    assert_eq!(c.directors, strings(&["nm1", "nm2"]));
    assert!(c.writers.is_empty());
}
