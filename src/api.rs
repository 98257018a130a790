use vstd::prelude::*;

use crate::titles::{TitleQuery, TitleQueryView, RESULT_CAP};

verus! {

/// A title search: a prefix of the original title, a type tag and a start
/// year, each of which may be left out (empty text, or no year).
#[derive(Debug, Clone, PartialEq, Default)]
pub struct Request {
    pub title: String,
    pub title_type: String,
    pub year: Option<i64>,
}

impl Request {
    /// The query for this search: the filters that are given, capped at
    /// `RESULT_CAP` rows.
    pub fn query(self) -> (r: TitleQuery)
        ensures
            r@ == (TitleQueryView {
                id: None,
                like: if self.title@.len() == 0 {
                    None
                } else {
                    Some(self.title@)
                },
                title_type: if self.title_type@.len() == 0 {
                    None
                } else {
                    Some(self.title_type@)
                },
                start_year: match self.year {
                    Some(y) => Some(y as int),
                    None => None,
                },
                limit: Some(RESULT_CAP),
            }),
    {
        TitleQuery::new().like(self.title).title_type(self.title_type).start_year(self.year).limit(
            RESULT_CAP,
        )
    }
}

} // verus!
