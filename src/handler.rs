use vstd::prelude::*;
use vstd::string::*;
use crate::ident::{is_canonical_uuid, new_v4_text, parse_uuid_text, uuid_text_of};
use crate::model::{
    filter_db_record, opt_view, shapes, text_or_empty, AnimeModel, AnimeModelResponse, copy_text,
};
use crate::schema::{CreateAnimeSchema, FilterOptions, UpdateAnimeSchema};

verus! {

/// The body of a reply. Its status word is `success` for the first four
/// variants, `fail` for `Fail` and `error` for `Error`.
#[derive(Debug, Clone)]
pub enum ReplyBody {
    Health { message: String },
    AnimeList { results: usize, animes: Vec<AnimeModelResponse> },
    Anime { anime: AnimeModelResponse },
    NoContent,
    Fail { message: String },
    Error { message: String },
}

/// What a route answers: an HTTP status code and a body.
#[derive(Debug, Clone)]
pub struct Reply {
    pub code: u16,
    pub body: ReplyBody,
}

/// How a lookup by id went wrong in storage.
#[derive(Debug, Clone)]
pub enum DbError {
    RowNotFound,
    Other(String),
}

/// The rows that a listing asks storage for.
#[derive(Debug, Clone, Copy)]
pub struct PageWindow {
    pub limit: usize,
    pub offset: usize,
}

/// The values bound to an insertion or an update of one record.
#[derive(Debug, Clone)]
pub struct AnimeWrite {
    pub id: String,
    pub title: String,
    pub description: String,
}

pub const DEFAULT_PAGE: usize = 1;

pub const DEFAULT_LIMIT: usize = 10;

pub open spec fn page_of(opts: FilterOptions) -> int {
    match opts.page {
        Some(p) => p as int,
        None => DEFAULT_PAGE as int,
    }
}

pub open spec fn limit_of(opts: FilterOptions) -> int {
    match opts.limit {
        Some(l) => l as int,
        None => DEFAULT_LIMIT as int,
    }
}

/// Rows skipped before a page: `(page - 1) * limit`.
pub open spec fn offset_of(opts: FilterOptions) -> int {
    (page_of(opts) - 1) * limit_of(opts)
}

pub open spec fn health_message() -> Seq<char> {
    "Build Simple CRUD API with Rust, SQLX, MySQL, and Actix Web"@
}

pub open spec fn not_found_message(id: Seq<char>) -> Seq<char> {
    "Anime with ID: "@ + id + " not found"@
}

/// The text of a failed write, with the storage's own text after it.
pub open spec fn internal_error_message(detail: Seq<char>) -> Seq<char> {
    "Internal server error: "@ + detail
}

pub open spec fn duplicate_message() -> Seq<char> {
    "Anime with that title already exists"@
}

pub open spec fn bad_page_message() -> Seq<char> {
    "page must be at least 1 and the offset must fit in memory"@
}

pub open spec fn bad_id_message(path: Seq<char>) -> Seq<char> {
    "Invalid anime id: "@ + path
}

/// The marker that storage puts in the text of a unique-key violation.
pub open spec fn duplicate_marker() -> Seq<char> {
    "Duplicate entry"@
}

/// `pat` occurs in `s` as a contiguous run.
pub open spec fn contains_text(s: Seq<char>, pat: Seq<char>) -> bool {
    exists|i: int| 0 <= i && i + pat.len() <= s.len() && #[trigger] s.subrange(i, i + pat.len()) == pat
}

/// The status code of a lookup's reply.
pub open spec fn fetch_code(fetched: Result<AnimeModel, DbError>) -> u16 {
    match fetched {
        Ok(_) => 200,
        Err(DbError::RowNotFound) => 404,
        Err(DbError::Other(_)) => 500,
    }
}

/// The status code of a deletion's reply, from the count of rows removed.
pub open spec fn delete_code(affected: u64) -> u16 {
    if affected == 0 {
        404
    } else {
        204
    }
}

pub open spec fn is_fail(r: Reply, code: u16, message: Seq<char>) -> bool {
    &&& r.code == code
    &&& r.body matches ReplyBody::Fail { message: m } && m@ == message
}

pub open spec fn is_error(r: Reply, message: Seq<char>) -> bool {
    &&& r.code == 500
    &&& r.body matches ReplyBody::Error { message: m } && m@ == message
}

pub open spec fn is_record(r: Reply, a: crate::model::AnimeRow) -> bool {
    &&& r.code == 200
    &&& r.body matches ReplyBody::Anime { anime } && shapes(a, anime)
}

fn fail(code: u16, message: String) -> (r: Reply)
    ensures
        is_fail(r, code, message@),
{
    Reply { code, body: ReplyBody::Fail { message } }
}

fn storage_error(message: &String) -> (r: Reply)
    ensures
        is_error(r, message@),
{
    Reply { code: 500, body: ReplyBody::Error { message: message.clone() } }
}

fn internal_error(detail: &str) -> (r: Reply)
    ensures
        is_error(r, internal_error_message(detail@)),
{
    Reply { code: 500, body: ReplyBody::Error { message: String::from_str("Internal server error: ").concat(detail) } }
}

fn not_found(anime_id: &str) -> (r: Reply)
    ensures
        is_fail(r, 404, not_found_message(anime_id@)),
{
    let m = String::from_str("Anime with ID: ").concat(anime_id).concat(" not found");
    fail(404, m)
}

/// The liveness reply.
pub fn health_checker_handler() -> (r: Reply)
    ensures
        r.code == 200,
        r.body matches ReplyBody::Health { message } && message@ == health_message(),
{
    let message = String::from_str("Build Simple CRUD API with Rust, SQLX, MySQL, and Actix Web");
    Reply { code: 200, body: ReplyBody::Health { message } }
}

/// Cuts the page that a listing asks for. The page is 1-based and defaults
/// to 1; the size defaults to 10 and has no upper bound. A page of 0, or an
/// offset past the machine's word, is refused with a client error.
pub fn list_window(opts: &FilterOptions) -> (r: Result<PageWindow, Reply>)
    ensures
        r.is_ok() == (page_of(*opts) >= 1 && offset_of(*opts) <= usize::MAX),
        r matches Ok(w) ==> w.limit == limit_of(*opts) && w.offset == offset_of(*opts),
        r matches Err(e) ==> is_fail(e, 400, bad_page_message()),
{
    let limit: usize = match opts.limit {
        Some(l) => l,
        None => DEFAULT_LIMIT,
    };
    let page: usize = match opts.page {
        Some(p) => p,
        None => DEFAULT_PAGE,
    };
    if page == 0 {
        return Err(fail(400, String::from_str("page must be at least 1 and the offset must fit in memory")));
    }
    match (page - 1).checked_mul(limit) {
        Some(offset) => Ok(PageWindow { limit, offset }),
        None => Err(fail(400, String::from_str("page must be at least 1 and the offset must fit in memory"))),
    }
}

/// The reply to a listing, from the rows that storage returned in id order.
pub fn list_reply(rows: Result<Vec<AnimeModel>, String>) -> (r: Reply)
    ensures
        rows matches Err(e) ==> is_error(r, e@),
        rows matches Ok(v) ==> {
            &&& r.code == 200
            &&& r.body matches ReplyBody::AnimeList { results, animes } && {
                &&& results == v.len()
                &&& animes.len() == v.len()
                &&& forall|i: int| 0 <= i < v.len() ==> shapes(#[trigger] v[i]@, animes[i])
            }
        },
{
    match rows {
        Err(e) => storage_error(&e),
        Ok(v) => {
            let mut animes: Vec<AnimeModelResponse> = Vec::new();
            let mut i: usize = 0;
            while i < v.len()
                invariant
                    i <= v.len(),
                    animes.len() == i,
                    forall|k: int| 0 <= k < i ==> shapes(#[trigger] v[k]@, animes[k]),
                decreases v.len() - i,
            {
                animes.push(filter_db_record(&v[i]));
                i = i + 1;
            }
            Reply { code: 200, body: ReplyBody::AnimeList { results: animes.len(), animes } }
        },
    }
}

/// The row to insert for a creation: a freshly minted id, the title, and the
/// description, empty when none was given.
pub fn new_anime(body: &CreateAnimeSchema) -> (r: AnimeWrite)
    ensures
        is_canonical_uuid(r.id@),
        r.title@ == body.title@,
        r.description@ == text_or_empty(opt_view(body.description)),
{
    AnimeWrite { id: new_v4_text(), title: body.title.clone(), description: copy_text(&body.description) }
}

fn matches_at(s: &str, pat: &str, i: usize, n: usize, m: usize) -> (r: bool)
    requires
        n == s@.len(),
        m == pat@.len(),
        i + m <= n,
    ensures
        r == (s@.subrange(i as int, i + m) == pat@),
{
    let mut j: usize = 0;
    while j < m
        invariant
            j <= m,
            i + m <= n,
            n == s@.len(),
            m == pat@.len(),
            forall|k: int| 0 <= k < j ==> s@[i + k] == pat@[k],
        decreases m - j,
    {
        if s.get_char(i + j) != pat.get_char(j) {
            assert(s@.subrange(i as int, i + m)[j as int] != pat@[j as int]);
            return false;
        }
        j = j + 1;
    }
    assert(s@.subrange(i as int, i + m) =~= pat@);
    true
}

/// Whether `pat` occurs in `s`.
pub fn contains(s: &str, pat: &str) -> (r: bool)
    ensures
        r == contains_text(s@, pat@),
{
    let n = s.unicode_len();
    let m = pat.unicode_len();
    if m > n {
        return false;
    }
    let mut i: usize = 0;
    loop
        invariant
            m <= n,
            i <= n - m,
            n == s@.len(),
            m == pat@.len(),
            forall|k: int| 0 <= k < i ==> #[trigger] s@.subrange(k, k + m) != pat@,
        decreases n - m - i,
    {
        if matches_at(s, pat, i, n, m) {
            return true;
        }
        if i == n - m {
            return false;
        }
        i = i + 1;
    }
}

/// The reply to a failed insertion: a violated unique key is the client's
/// conflict, anything else is a storage failure with its text.
pub fn insert_failure_reply(err: &String) -> (r: Reply)
    ensures
        contains_text(err@, duplicate_marker()) ==> is_fail(r, 400, duplicate_message()),
        !contains_text(err@, duplicate_marker()) ==> is_error(r, err@),
{
    if contains(err.as_str(), "Duplicate entry") {
        fail(400, String::from_str("Anime with that title already exists"))
    } else {
        storage_error(err)
    }
}

/// The reply after a write, from reading the record back: any failure to
/// read it is a storage failure.
pub fn written_reply(fetched: Result<AnimeModel, DbError>) -> (r: Reply)
    ensures
        fetched matches Ok(a) ==> is_record(r, a@),
        fetched matches Err(DbError::Other(e)) ==> is_error(r, e@),
        fetched matches Err(DbError::RowNotFound) ==> is_error(r, "RowNotFound"@),
{
    match fetched {
        Ok(a) => Reply { code: 200, body: ReplyBody::Anime { anime: filter_db_record(&a) } },
        Err(DbError::Other(e)) => storage_error(&e),
        Err(DbError::RowNotFound) => storage_error(&String::from_str("RowNotFound")),
    }
}

/// The reply to a lookup by id.
pub fn get_reply(anime_id: &str, fetched: Result<AnimeModel, DbError>) -> (r: Reply)
    ensures
        fetched matches Ok(a) ==> is_record(r, a@),
        fetched matches Err(DbError::RowNotFound) ==> is_fail(r, 404, not_found_message(anime_id@)),
        fetched matches Err(DbError::Other(e)) ==> is_error(r, e@),
        r.code == fetch_code(fetched),
{
    match fetched {
        Ok(a) => Reply { code: 200, body: ReplyBody::Anime { anime: filter_db_record(&a) } },
        Err(DbError::RowNotFound) => not_found(anime_id),
        Err(DbError::Other(e)) => storage_error(&e),
    }
}

pub open spec fn merged_title(existing: crate::model::AnimeRow, given: Option<Seq<char>>) -> Seq<char> {
    match given {
        Some(t) => t,
        None => existing.title,
    }
}

pub open spec fn merged_description(existing: crate::model::AnimeRow, given: Option<Seq<char>>) -> Seq<char> {
    match given {
        Some(d) => d,
        None => text_or_empty(existing.description),
    }
}

/// The values of a partial update: each given field replaces the stored one,
/// each absent field keeps it (a null description is kept as empty).
pub fn merge_update(anime_id: &String, existing: &AnimeModel, body: &UpdateAnimeSchema) -> (r: AnimeWrite)
    ensures
        r.id@ == anime_id@,
        r.title@ == merged_title(existing@, opt_view(body.title)),
        r.description@ == merged_description(existing@, opt_view(body.description)),
{
    let title = match &body.title {
        Some(t) => t.clone(),
        None => existing.title.clone(),
    };
    let description = match &body.description {
        Some(d) => d.clone(),
        None => copy_text(&existing.description),
    };
    AnimeWrite { id: anime_id.clone(), title, description }
}

/// The first decision of an update, from reading the record: either the
/// values to write, or the reply that ends the request.
pub fn edit_plan(anime_id: &String, fetched: Result<AnimeModel, DbError>, body: &UpdateAnimeSchema) -> (r: Result<AnimeWrite, Reply>)
    ensures
        fetched matches Ok(a) ==> (r matches Ok(w) && {
            &&& w.id@ == anime_id@
            &&& w.title@ == merged_title(a@, opt_view(body.title))
            &&& w.description@ == merged_description(a@, opt_view(body.description))
        }),
        fetched matches Err(DbError::RowNotFound) ==> (r matches Err(e) && is_fail(e, 404, not_found_message(anime_id@))),
        fetched matches Err(DbError::Other(m)) ==> (r matches Err(e) && is_error(e, m@)),
{
    match fetched {
        Ok(a) => Ok(merge_update(anime_id, &a, body)),
        Err(DbError::RowNotFound) => Err(not_found(anime_id.as_str())),
        Err(DbError::Other(m)) => Err(storage_error(&m)),
    }
}

/// The second decision of an update, from the count of rows it changed:
/// `None` to go on and read the record back, or the reply that ends the
/// request. No row changed means the record is gone.
pub fn update_outcome(anime_id: &str, affected: Result<u64, String>) -> (r: Option<Reply>)
    ensures
        affected matches Ok(n) && n > 0 ==> r is None,
        affected matches Ok(n) && n == 0 ==> (r matches Some(e) && is_fail(e, 404, not_found_message(anime_id@))),
        affected matches Err(m) ==> (r matches Some(e) && is_error(e, internal_error_message(m@))),
{
    match affected {
        Ok(n) => if n == 0 { Some(not_found(anime_id)) } else { None },
        Err(m) => Some(internal_error(m.as_str())),
    }
}

/// The reply to a deletion, from the count of rows it removed.
pub fn delete_reply(anime_id: &str, affected: Result<u64, String>) -> (r: Reply)
    ensures
        affected matches Ok(n) && n > 0 ==> r.code == 204 && r.body is NoContent,
        affected matches Ok(n) && n == 0 ==> is_fail(r, 404, not_found_message(anime_id@)),
        affected matches Err(m) ==> is_error(r, internal_error_message(m@)),
        affected matches Ok(n) ==> r.code == delete_code(n),
{
    match affected {
        Ok(n) => if n == 0 {
            not_found(anime_id)
        } else {
            Reply { code: 204, body: ReplyBody::NoContent }
        },
        Err(m) => internal_error(m.as_str()),
    }
}

/// Reads the id of a route's path, or the reply that refuses it.
pub fn path_id(path: &str) -> (r: Result<String, Reply>)
    ensures
        r matches Ok(t) ==> Some(t@) == uuid_text_of(path@) && is_canonical_uuid(t@),
        uuid_text_of(path@) matches Some(t) ==> (r matches Ok(x) && x@ == t),
        uuid_text_of(path@) is None ==> (r matches Err(e) && is_fail(e, 404, bad_id_message(path@))),
        is_canonical_uuid(path@) ==> (r matches Ok(t) && t@ == path@),
{
    match parse_uuid_text(path) {
        Some(t) => Ok(t),
        None => Err(fail(404, String::from_str("Invalid anime id: ").concat(path))),
    }
}

} // verus!
