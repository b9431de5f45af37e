use vstd::prelude::*;

verus! {

/// The query of a listing: a 1-based page number and a page size.
#[derive(Debug, Clone, Copy)]
pub struct FilterOptions {
    pub page: Option<usize>,
    pub limit: Option<usize>,
}

/// The path parameter of the routes that address one record.
#[derive(Debug, Clone)]
pub struct ParamOptions {
    pub id: String,
}

/// The body of a creation.
#[derive(Debug, Clone)]
pub struct CreateAnimeSchema {
    pub title: String,
    pub description: Option<String>,
}

/// The body of a partial update: an absent field keeps its stored value.
#[derive(Debug, Clone)]
pub struct UpdateAnimeSchema {
    pub title: Option<String>,
    pub description: Option<String>,
}

} // verus!
