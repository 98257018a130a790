use vstd::prelude::*;

use crate::record::views;
use crate::store::TableKind;
use crate::{crew, episodes, names, principals, titles};

verus! {

/// The statements that create every table of the store when absent, in order:
/// people, titles and their aliases, episodes, principals, crews.
pub fn init_tables() -> (r: Vec<String>)
    ensures
        views(r@) == seq![
            TableKind::Names.create_sql(),
            TableKind::Titles.create_sql(),
            TableKind::TitleAkas.create_sql(),
            TableKind::Episodes.create_sql(),
            TableKind::Principals.create_sql(),
            TableKind::Crew.create_sql(),
        ],
{
    let mut r: Vec<String> = Vec::new();
    r.push(names::init_table());
    let mut t = titles::init_table();
    let ghost r0 = r@;
    let ghost t0 = t@;
    r.append(&mut t);
    assert(views(r@) =~= views(r0) + views(t0));
    r.push(episodes::init_table());
    r.push(principals::init_table());
    r.push(crew::init_table());
    assert(views(r@) =~= seq![
        TableKind::Names.create_sql(),
        TableKind::Titles.create_sql(),
        TableKind::TitleAkas.create_sql(),
        TableKind::Episodes.create_sql(),
        TableKind::Principals.create_sql(),
        TableKind::Crew.create_sql(),
    ]);
    r
}

} // verus!
