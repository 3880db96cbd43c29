//! Where a dataset lives: the remote endpoint for a (category, league, type)
//! query, and the cache slot's location under a caller-supplied base
//! directory. The base directory is configuration the surrounding binary
//! injects; nothing here looks it up.
use vstd::prelude::*;

use crate::catalog::league_name;
use crate::catalog::Category;
use crate::catalog::League;

verus! {

/// The provider's API root.
pub open spec fn base_url_text() -> Seq<char> {
    "https://poe.ninja/api/data/"@
}

/// The overview endpoint segment a category queries.
pub open spec fn overview_segment(c: Category) -> Seq<char> {
    match c {
        Category::Currency => "currencyoverview"@,
        Category::Item => "itemoverview"@,
    }
}

/// The cache namespace segment of a category.
pub open spec fn family_segment(c: Category) -> Seq<char> {
    match c {
        Category::Currency => "currency"@,
        Category::Item => "item"@,
    }
}

/// The remote query for one (category, league, type) key.
pub open spec fn endpoint_uri_text(c: Category, l: League, kind_name: Seq<char>) -> Seq<char> {
    base_url_text() + overview_segment(c) + "?league="@ + league_name(l) + "&type="@ + kind_name
}

/// The cache directory of one (league, category) namespace under `base`.
pub open spec fn cache_dir_text(base: Seq<char>, l: League, c: Category) -> Seq<char> {
    base + "/"@ + league_name(l) + "/"@ + family_segment(c)
}

/// The cache slot of one (league, category, type) key under `base`.
pub open spec fn cache_file_text(
    base: Seq<char>,
    l: League,
    c: Category,
    kind_name: Seq<char>,
) -> Seq<char> {
    cache_dir_text(base, l, c) + "/"@ + kind_name + ".json"@
}

/// Builds the remote query for one (category, league, type) key.
pub fn endpoint_uri(category: &Category, league: &League, kind_name: &str) -> (uri: String)
    ensures
        uri@ == endpoint_uri_text(*category, *league, kind_name@),
{
    let mut uri: String = "https://poe.ninja/api/data/".to_owned();
    match category {
        Category::Currency => uri.append("currencyoverview"),
        Category::Item => uri.append("itemoverview"),
    }
    uri.append("?league=");
    let ln = league.to_string();
    uri.append(ln.as_str());
    uri.append("&type=");
    uri.append(kind_name);
    proof {
        assert(uri@ =~= endpoint_uri_text(*category, *league, kind_name@));
    }
    uri
}

/// Builds the cache directory path of one (league, category) namespace.
pub fn cache_dir_path(base: &str, league: &League, category: &Category) -> (path: String)
    ensures
        path@ == cache_dir_text(base@, *league, *category),
{
    let mut path: String = base.to_owned();
    path.append("/");
    let ln = league.to_string();
    path.append(ln.as_str());
    path.append("/");
    match category {
        Category::Currency => path.append("currency"),
        Category::Item => path.append("item"),
    }
    proof {
        assert(path@ =~= cache_dir_text(base@, *league, *category));
    }
    path
}

/// Builds the cache slot path of one (league, category, type) key.
pub fn cache_file_path(base: &str, league: &League, category: &Category, kind_name: &str) -> (path:
    String)
    ensures
        path@ == cache_file_text(base@, *league, *category, kind_name@),
{
    let mut path = cache_dir_path(base, league, category);
    path.append("/");
    path.append(kind_name);
    path.append(".json");
    proof {
        assert(path@ =~= cache_file_text(base@, *league, *category, kind_name@));
    }
    path
}

} // verus!
