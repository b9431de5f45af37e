use vstd::prelude::*;

verus! {

/// A stored anime record as the database hands it back.
///
/// Timestamps are microseconds since the Unix epoch, in UTC.
#[derive(Debug, Clone)]
pub struct AnimeModel {
    pub id: String,
    pub title: String,
    pub description: Option<String>,
    pub created_at: Option<i64>,
    pub updated_at: Option<i64>,
}

/// A record as it is sent to a client: every field is filled in.
#[allow(non_snake_case)]
#[derive(Debug, Clone)]
pub struct AnimeModelResponse {
    pub id: String,
    pub title: String,
    pub description: String,
    pub createdAt: i64,
    pub updatedAt: i64,
}

/// The mathematical value of a stored record.
pub struct AnimeRow {
    pub id: Seq<char>,
    pub title: Seq<char>,
    pub description: Option<Seq<char>>,
    pub created_at: Option<i64>,
    pub updated_at: Option<i64>,
}

/// A missing text reads as the empty text.
pub open spec fn text_or_empty(t: Option<Seq<char>>) -> Seq<char> {
    match t {
        Some(s) => s,
        None => Seq::empty(),
    }
}

/// A missing timestamp reads as the epoch.
pub open spec fn time_or_epoch(t: Option<i64>) -> i64 {
    match t {
        Some(v) => v,
        None => 0,
    }
}

/// The value of an optional text.
pub open spec fn opt_view(t: Option<String>) -> Option<Seq<char>> {
    match t {
        Some(s) => Some(s@),
        None => None,
    }
}

impl View for AnimeModel {
    type V = AnimeRow;

    open spec fn view(&self) -> AnimeRow {
        AnimeRow {
            id: self.id@,
            title: self.title@,
            description: opt_view(self.description),
            created_at: self.created_at,
            updated_at: self.updated_at,
        }
    }
}

/// `r` is the client form of the stored row `a`.
pub open spec fn shapes(a: AnimeRow, r: AnimeModelResponse) -> bool {
    &&& r.id@ == a.id
    &&& r.title@ == a.title
    &&& r.description@ == text_or_empty(a.description)
    &&& r.createdAt == time_or_epoch(a.created_at)
    &&& r.updatedAt == time_or_epoch(a.updated_at)
}

/// A copy of an optional text, empty where there is none.
pub fn copy_text(t: &Option<String>) -> (r: String)
    ensures
        r@ == text_or_empty(opt_view(*t)),
{
    match t {
        Some(s) => s.clone(),
        None => String::new(),
    }
}

/// Shapes a stored record for a reply. A null description becomes the empty
/// text and a null timestamp becomes the epoch, so that shaping never fails.
pub fn filter_db_record(anime: &AnimeModel) -> (r: AnimeModelResponse)
    ensures
        shapes(anime@, r),
{
    AnimeModelResponse {
        id: anime.id.clone(),
        title: anime.title.clone(),
        description: copy_text(&anime.description),
        createdAt: match anime.created_at {
            Some(t) => t,
            None => 0,
        },
        updatedAt: match anime.updated_at {
            Some(t) => t,
            None => 0,
        },
    }
}

} // verus!
