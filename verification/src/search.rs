//! Search targets: where to search, how many results, and the query, and
//! their rendering as the pseudo-URL the external tool expects.

use vstd::prelude::*;
use crate::text::{dec_digits, dec_string_u64};

verus! {

/// The search providers the external tool supports, with a custom escape
/// hatch in case this library falls behind its feature set.
#[derive(Debug, Clone)]
pub enum SearchType {
    /// Search on youtube.com
    Youtube,
    /// Search with yahoo.com's video search
    Yahoo,
    /// Search with Google's video search
    Google,
    /// Search on SoundCloud
    SoundCloud,
    /// A custom search provider, for forwards compatibility.
    Custom(String),
}

/// The provider prefix a search type renders to.
pub open spec fn search_prefix(t: SearchType) -> Seq<char> {
    match t {
        SearchType::Youtube => "ytsearch"@,
        SearchType::Yahoo => "yvsearch"@,
        SearchType::Google => "gvsearch"@,
        SearchType::SoundCloud => "scsearch"@,
        SearchType::Custom(name) => name@,
    }
}

impl SearchType {
    /// The provider prefix, as the tool's command line wants it.
    pub fn prefix_string(&self) -> (r: String)
        ensures
            r@ == search_prefix(*self),
    {
        match self {
            SearchType::Youtube => String::from_str("ytsearch"),
            SearchType::Yahoo => String::from_str("yvsearch"),
            SearchType::Google => String::from_str("gvsearch"),
            SearchType::SoundCloud => String::from_str("scsearch"),
            SearchType::Custom(name) => name.clone(),
        }
    }
}

/// Where to search, how many results to fetch at most, and the query. The
/// count defaults to one and can be changed with [`SearchOptions::with_count`].
#[derive(Debug, Clone)]
pub struct SearchOptions {
    pub search_type: SearchType,
    pub count: usize,
    pub query: String,
}

/// What a search renders to: `{prefix}{count}:{query}`.
pub open spec fn spec_query_string(o: SearchOptions) -> Seq<char> {
    search_prefix(o.search_type) + dec_digits(o.count as int) + ":"@ + o.query@
}

impl SearchOptions {
    /// Search on youtube.com.
    pub fn youtube(query: &str) -> (r: Self)
        ensures
            r.search_type is Youtube,
            r.count == 1,
            r.query@ == query@,
    {
        SearchOptions { search_type: SearchType::Youtube, count: 1, query: query.to_owned() }
    }

    /// Search with Google's video search.
    pub fn google(query: &str) -> (r: Self)
        ensures
            r.search_type is Google,
            r.count == 1,
            r.query@ == query@,
    {
        SearchOptions { search_type: SearchType::Google, count: 1, query: query.to_owned() }
    }

    /// Search with yahoo.com's video search.
    pub fn yahoo(query: &str) -> (r: Self)
        ensures
            r.search_type is Yahoo,
            r.count == 1,
            r.query@ == query@,
    {
        SearchOptions { search_type: SearchType::Yahoo, count: 1, query: query.to_owned() }
    }

    /// Search on SoundCloud.
    pub fn soundcloud(query: &str) -> (r: Self)
        ensures
            r.search_type is SoundCloud,
            r.count == 1,
            r.query@ == query@,
    {
        SearchOptions { search_type: SearchType::SoundCloud, count: 1, query: query.to_owned() }
    }

    /// Search with a custom provider, in case this library falls behind the
    /// tool's feature set.
    pub fn custom(search_type: &str, query: &str) -> (r: Self)
        ensures
            r.search_type matches SearchType::Custom(name) && name@ == search_type@,
            r.count == 1,
            r.query@ == query@,
    {
        SearchOptions {
            search_type: SearchType::Custom(search_type.to_owned()),
            count: 1,
            query: query.to_owned(),
        }
    }

    /// Sets how many results at most to retrieve.
    pub fn with_count(self, count: usize) -> (r: Self)
        ensures
            r.search_type == self.search_type,
            r.count == count,
            r.query == self.query,
    {
        SearchOptions { search_type: self.search_type, count, query: self.query }
    }

    /// Renders `{prefix}{count}:{query}`, the pseudo-URL the tool takes as
    /// its search target.
    pub fn to_query_string(&self) -> (r: String)
        ensures
            r@ == spec_query_string(*self),
    {
        let mut s = self.search_type.prefix_string();
        let c = dec_string_u64(self.count as u64);
        s.append(c.as_str());
        s.append(":");
        s.append(self.query.as_str());
        s
    }
}

} // verus!
