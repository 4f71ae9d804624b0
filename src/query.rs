use vstd::prelude::*;

verus! {

/// Where a play command puts what it resolved.
#[derive(PartialEq, Eq, Structural, Clone, Copy, Debug)]
pub enum Mode {
    End,
    Next,
    All,
    Reverse,
    Shuffle,
    Jump,
}

/// A resolved query.
#[derive(Debug)]
pub enum QueryType {
    Keywords(String),
    KeywordList(Vec<String>),
    VideoLink(String),
    PlaylistLink(String),
}

/// Two queries of the same variant holding the same text.
pub open spec fn same_query(a: QueryType, b: QueryType) -> bool {
    match (a, b) {
        (QueryType::Keywords(x), QueryType::Keywords(y)) => x == y,
        (QueryType::KeywordList(x), QueryType::KeywordList(y)) => x@ == y@,
        (QueryType::VideoLink(x), QueryType::VideoLink(y)) => x == y,
        (QueryType::PlaylistLink(x), QueryType::PlaylistLink(y)) => x == y,
        _ => false,
    }
}

impl Clone for QueryType {
    fn clone(&self) -> (r: QueryType)
        ensures
            same_query(r, *self),
    {
        match self {
            QueryType::Keywords(s) => QueryType::Keywords(s.clone()),
            QueryType::KeywordList(v) => {
                let c = v.clone();
                assert(c@ =~= v@);
                QueryType::KeywordList(c)
            },
            QueryType::VideoLink(s) => QueryType::VideoLink(s.clone()),
            QueryType::PlaylistLink(s) => QueryType::PlaylistLink(s.clone()),
        }
    }
}

/// Key under which a guild's shared HTTP client is kept.
pub struct HttpClientInstance;

} // verus!
