use vstd::prelude::*;

use crate::crew::Crew;
use crate::principals::Principal;
use crate::record::views;
use crate::titles::Title;

verus! {

/// One title with its crew and its cast, each person with what they did.
#[derive(Debug, Clone, PartialEq)]
pub struct Movie {
    pub title: String,
    pub year: Option<i64>,
    pub crew: Crew,
    pub principals: Vec<(String, Vec<String>)>,
}

/// Why a movie could not be assembled.
#[derive(Debug, Clone, Copy, PartialEq, Eq, Structural)]
pub enum MovieError {
    /// No title has the identifier.
    TitleNotFound,
    /// The title has no crew row.
    CrewNotFound,
    /// A principal of the title names a person who is not in the store.
    PersonNotFound,
}

/// What a principal did: the job when there is one, else the characters.
pub open spec fn role_detail_of(job: Seq<char>, characters: Seq<Seq<char>>) -> Seq<Seq<char>> {
    if job.len() == 0 {
        characters
    } else {
        seq![job]
    }
}

fn clone_strings(v: &Vec<String>) -> (r: Vec<String>)
    ensures
        r@ == v@,
{
    let mut r: Vec<String> = Vec::new();
    let mut i: usize = 0;
    while i < v.len()
        invariant
            i <= v.len(),
            r@ == v@.take(i as int),
        decreases v.len() - i,
    {
        r.push(v[i].clone());
        assert(r@ =~= v@.take(i as int + 1));
        i = i + 1;
    }
    assert(v@.take(v.len() as int) =~= v@);
    r
}

/// What a principal did, as shown on the movie.
pub fn role_detail(p: &Principal) -> (r: Vec<String>)
    ensures
        views(r@) == role_detail_of(p.job@, views(p.characters@)),
{
    if p.job.as_str().is_empty() {
        clone_strings(&p.characters)
    } else {
        let mut r: Vec<String> = Vec::new();
        r.push(p.job.clone());
        assert(views(r@) =~= seq![p.job@]);
        r
    }
}

/// Whether every person was found.
pub open spec fn all_found(names: Seq<Option<String>>) -> bool {
    forall|i: int| 0 <= i < names.len() ==> #[trigger] names[i] is Some
}

/// Whether the title row looked up is the one requested.
pub open spec fn title_found(title: Option<Title>, tconst: Seq<char>) -> bool {
    title matches Some(t) && t.tconst@ == tconst
}

/// Assembles the movie of title `tconst` from the rows looked up for it: the
/// title, its crew, its principals in order, and the name of each principal's
/// person, in the same order. A title row that is missing, or is not the one
/// requested, fails with `TitleNotFound`; a missing crew or person fails the
/// whole movie too; nothing is returned half-filled.
pub fn assemble(
    tconst: &String,
    title: Option<Title>,
    crew: Option<Crew>,
    principals: &Vec<Principal>,
    names: &Vec<Option<String>>,
) -> (r: Result<Movie, MovieError>)
    requires
        names.len() == principals.len(),
    ensures
        !title_found(title, tconst@) ==> r == Err::<Movie, MovieError>(
            MovieError::TitleNotFound,
        ),
        title_found(title, tconst@) && crew is None ==> r == Err::<Movie, MovieError>(
            MovieError::CrewNotFound,
        ),
        title_found(title, tconst@) && crew is Some && !all_found(names@) ==> r == Err::<Movie, MovieError>(
            MovieError::PersonNotFound,
        ),
        r is Ok <==> title_found(title, tconst@) && crew is Some && all_found(names@),
        r matches Ok(m) ==> {
            &&& m.title@ == title->0.primary_title@
            &&& m.year == title->0.start_year
            &&& m.crew == crew->0
            &&& m.principals.len() == principals.len()
            &&& forall|i: int|
                0 <= i < principals.len() ==> {
                    &&& (#[trigger] m.principals[i]).0@ == names[i]->0@
                    &&& views(m.principals[i].1@) == role_detail_of(
                        principals[i].job@,
                        views(principals[i].characters@),
                    )
                }
        },
{
    let t = match title {
        Some(t) => t,
        None => {
            return Err(MovieError::TitleNotFound);
        },
    };
    if t.tconst != *tconst {
        return Err(MovieError::TitleNotFound);
    }
    let c = match crew {
        Some(c) => c,
        None => {
            return Err(MovieError::CrewNotFound);
        },
    };
    let ghost names0 = names@;
    let mut cast: Vec<(String, Vec<String>)> = Vec::new();
    let mut i: usize = 0;
    while i < principals.len()
        invariant
            i <= principals.len(),
            names0 == names@,
            names0.len() == principals.len(),
            title_found(title, tconst@),
            crew is Some,
            forall|k: int| 0 <= k < i ==> names0[k] is Some,
            cast.len() == i,
            forall|k: int|
                0 <= k < i ==> {
                    &&& (#[trigger] cast@[k]).0@ == names0[k]->0@
                    &&& views(cast@[k].1@) == role_detail_of(
                        principals[k].job@,
                        views(principals[k].characters@),
                    )
                },
        decreases principals.len() - i,
    {
        let name = match &names[i] {
            Some(n) => n.clone(),
            None => {
                assert(!all_found(names0));
                return Err(MovieError::PersonNotFound);
            },
        };
        cast.push((name, role_detail(&principals[i])));
        i = i + 1;
    }
    assert(all_found(names0));
    Ok(Movie { title: t.primary_title, year: t.start_year, crew: c, principals: cast })
}

} // verus!
