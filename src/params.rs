//! Search request parameters and their query-string encoding.
use crate::base62;
use crate::query_string::{decimal, join_pairs, lemma_join_len, pair_text, push_decimal, push_pair};
use crate::text::string_of;
use vstd::prelude::*;
use vstd::string::StringExecFns;

verus! {

/// A project, named by its numeric identifier or by its slug.
#[derive(Debug, Clone, PartialEq, Eq, Hash)]
pub enum ProjectIdentifier {
    Id(u64),
    Slug(String),
}

/// How an identifier appears in a request path.
pub open spec fn identifier_text(p: ProjectIdentifier) -> Seq<char> {
    match p {
        ProjectIdentifier::Id(n) => base62::digits_of(n as nat),
        ProjectIdentifier::Slug(s) => s@,
    }
}

impl ProjectIdentifier {
    /// The base-62 form of an identifier, or the slug itself.
    pub fn render(&self) -> (r: String)
        ensures
            r@ == identifier_text(*self),
    {
        match self {
            ProjectIdentifier::Id(n) => base62::encode(*n),
            ProjectIdentifier::Slug(s) => s.clone(),
        }
    }
}

/// One search constraint.
#[derive(Debug, Clone, PartialEq, Eq, Hash)]
pub enum SearchFacet {
    Category(String),
    Version(String),
    License(String),
    ProjectType(String),
    Custom(String, String),
}

/// A facet as the service reads it: `name:'value'`.
pub open spec fn facet_text(f: SearchFacet) -> Seq<char> {
    match f {
        SearchFacet::Category(v) => "categories:'"@ + v@ + "'"@,
        SearchFacet::Version(v) => "versions:'"@ + v@ + "'"@,
        SearchFacet::License(v) => "license:'"@ + v@ + "'"@,
        SearchFacet::ProjectType(v) => "project_type:'"@ + v@ + "'"@,
        SearchFacet::Custom(n, v) => n@ + ":'"@ + v@ + "'"@,
    }
}

impl SearchFacet {
    pub fn category(value: &str) -> (r: Self)
        ensures
            r matches SearchFacet::Category(v) && v@ == value@,
    {
        SearchFacet::Category(value.to_owned())
    }

    pub fn version(value: &str) -> (r: Self)
        ensures
            r matches SearchFacet::Version(v) && v@ == value@,
    {
        SearchFacet::Version(value.to_owned())
    }

    pub fn license(value: &str) -> (r: Self)
        ensures
            r matches SearchFacet::License(v) && v@ == value@,
    {
        SearchFacet::License(value.to_owned())
    }

    pub fn project_type(value: &str) -> (r: Self)
        ensures
            r matches SearchFacet::ProjectType(v) && v@ == value@,
    {
        SearchFacet::ProjectType(value.to_owned())
    }

    pub fn custom(name: &str, value: &str) -> (r: Self)
        ensures
            r matches SearchFacet::Custom(n, v) && n@ == name@ && v@ == value@,
    {
        SearchFacet::Custom(name.to_owned(), value.to_owned())
    }

    /// The facet as the service reads it.
    pub fn render(&self) -> (r: String)
        ensures
            r@ == facet_text(*self),
    {
        match self {
            SearchFacet::Category(v) => "categories:'".to_owned().concat(v.as_str()).concat("'"),
            SearchFacet::Version(v) => "versions:'".to_owned().concat(v.as_str()).concat("'"),
            SearchFacet::License(v) => "license:'".to_owned().concat(v.as_str()).concat("'"),
            SearchFacet::ProjectType(v) => "project_type:'".to_owned().concat(v.as_str()).concat(
                "'",
            ),
            SearchFacet::Custom(n, v) => n.clone().concat(":'").concat(v.as_str()).concat("'"),
        }
    }
}

/// The order in which search results come back.
#[derive(Debug, Clone, Copy, PartialEq, Eq, Hash)]
pub enum SearchIndex {
    Relevance,
    Downloads,
    Follows,
    Newest,
    Updated,
}

pub open spec fn index_token(i: SearchIndex) -> Seq<char> {
    match i {
        SearchIndex::Relevance => "relevance"@,
        SearchIndex::Downloads => "downloads"@,
        SearchIndex::Follows => "follows"@,
        SearchIndex::Newest => "newest"@,
        SearchIndex::Updated => "updated"@,
    }
}

impl SearchIndex {
    /// The lowercase token that names this order on the wire.
    pub fn as_str(&self) -> (r: &'static str)
        ensures
            r@ == index_token(*self),
    {
        match self {
            SearchIndex::Relevance => "relevance",
            SearchIndex::Downloads => "downloads",
            SearchIndex::Follows => "follows",
            SearchIndex::Newest => "newest",
            SearchIndex::Updated => "updated",
        }
    }
}

/// An AND of ORs: each inner row matches if any of its members does, and
/// the whole matches if every row does.
#[derive(Debug, Clone, PartialEq)]
pub struct SearchFilters<T>(pub Vec<Vec<T>>);

/// The strings of nested rows, as plain sequences.
pub open spec fn rows_view(rows: Seq<Vec<String>>) -> Seq<Seq<Seq<char>>> {
    rows.map_values(|r: Vec<String>| r@.map_values(|s: String| s@))
}

/// The facets of nested rows, each as the service reads it.
pub open spec fn facet_rows(rows: Seq<Vec<SearchFacet>>) -> Seq<Seq<Seq<char>>> {
    rows.map_values(|r: Vec<SearchFacet>| r@.map_values(|f: SearchFacet| facet_text(f)))
}

/// The JSON text (an array of arrays of strings) that serde_json writes for
/// nested string rows.
pub uninterp spec fn json_of_rows(rows: Seq<Seq<Seq<char>>>) -> Seq<char>;

/// Relies on `serde_json::to_string` for `Vec<Vec<String>>`: the text depends
/// on the strings alone, and serializing strings into memory does not fail.
#[verifier::external_body]
fn json_rows(rows: &Vec<Vec<String>>) -> (r: String)
    ensures
        r@ == json_of_rows(rows_view(rows@)),
{
    serde_json::to_string(rows).unwrap()
}

impl SearchFilters<SearchFacet> {
    /// Each facet of each row, rendered.
    pub fn rendered_rows(&self) -> (r: Vec<Vec<String>>)
        ensures
            rows_view(r@) == facet_rows(self.0@),
    {
        let mut out: Vec<Vec<String>> = Vec::new();
        let mut i: usize = 0;
        while i < self.0.len()
            invariant
                i <= self.0@.len(),
                out@.len() == i,
                rows_view(out@) =~= facet_rows(self.0@.take(i as int)),
            decreases self.0@.len() - i,
        {
            let row = &self.0[i];
            let mut line: Vec<String> = Vec::new();
            let mut j: usize = 0;
            while j < row.len()
                invariant
                    j <= row@.len(),
                    line@.len() == j,
                    line@.map_values(|s: String| s@) =~= row@.take(j as int).map_values(
                        |f: SearchFacet| facet_text(f),
                    ),
                decreases row@.len() - j,
            {
                let ghost before = line@;
                line.push(row[j].render());
                proof {
                    let a = line@.map_values(|s: String| s@);
                    let b = row@.take(j + 1).map_values(|f: SearchFacet| facet_text(f));
                    assert(a.len() == b.len());
                    assert forall|k: int| 0 <= k < a.len() implies a[k] == b[k] by {
                        if k < j {
                            assert(line@[k] == before[k]);
                            assert(before.map_values(|s: String| s@)[k] == row@.take(j as int).map_values(
                                |f: SearchFacet| facet_text(f),
                            )[k]);
                        }
                    }
                    assert(a =~= b);
                }
                j = j + 1;
            }
            assert(row@.take(row@.len() as int) =~= row@);
            let ghost before = out@;
            out.push(line);
            proof {
                let a = rows_view(out@);
                let b = facet_rows(self.0@.take(i + 1));
                assert(a.len() == b.len());
                assert forall|k: int| 0 <= k < a.len() implies a[k] == b[k] by {
                    if k < i {
                        assert(out@[k] == before[k]);
                        assert(rows_view(before)[k] == facet_rows(self.0@.take(i as int))[k]);
                    }
                }
                assert(a =~= b);
            }
            i = i + 1;
        }
        assert(self.0@.take(self.0@.len() as int) =~= self.0@);
        out
    }

    /// The facet expression as JSON text.
    pub fn to_json(&self) -> (r: String)
        ensures
            r@ == json_of_rows(facet_rows(self.0@)),
    {
        json_rows(&self.rendered_rows())
    }
}

impl SearchFilters<String> {
    /// The filter expression as JSON text.
    pub fn to_json(&self) -> (r: String)
        ensures
            r@ == json_of_rows(rows_view(self.0@)),
    {
        json_rows(&self.0)
    }
}

/// The parameters of a project search. An absent field is left out of the
/// query entirely.
#[derive(Debug, Clone, PartialEq)]
pub struct ProjectSearchParams {
    pub query: Option<String>,
    pub facets: Option<SearchFilters<SearchFacet>>,
    pub index: Option<SearchIndex>,
    pub offset: Option<usize>,
    pub limit: Option<usize>,
    pub filters: Option<SearchFilters<String>>,
}

/// The parameters of a project search.
pub type SearchParams = ProjectSearchParams;

impl Default for ProjectSearchParams {
    fn default() -> (r: Self)
        ensures
            r.query is None && r.facets is None && r.index is None && r.offset is None
                && r.limit is None && r.filters is None,
    {
        ProjectSearchParams {
            query: None,
            facets: None,
            index: None,
            offset: None,
            limit: None,
            filters: None,
        }
    }
}

/// A pair for a present field, none for an absent one.
pub open spec fn opt_pair(key: Seq<char>, present: bool, value: Seq<char>) -> Seq<Seq<char>> {
    if present {
        seq![pair_text(key, value)]
    } else {
        Seq::empty()
    }
}

pub open spec fn facets_json(f: SearchFilters<SearchFacet>) -> Seq<char> {
    json_of_rows(facet_rows(f.0@))
}

pub open spec fn filters_json(f: SearchFilters<String>) -> Seq<char> {
    json_of_rows(rows_view(f.0@))
}

/// The pairs of a search, in the order query, facets, index, offset, limit,
/// filters, with `limit` standing for the limit field.
pub open spec fn query_pairs(p: ProjectSearchParams, limit: Option<usize>) -> Seq<Seq<char>> {
    opt_pair("query"@, p.query is Some, p.query->0@)
        + opt_pair("facets"@, p.facets is Some, facets_json(p.facets->0))
        + opt_pair("index"@, p.index is Some, index_token(p.index->0))
        + opt_pair("offset"@, p.offset is Some, decimal(p.offset->0 as nat))
        + opt_pair("limit"@, limit is Some, decimal(limit->0 as nat))
        + opt_pair("filters"@, p.filters is Some, filters_json(p.filters->0))
}

/// The query string of a search.
pub open spec fn query_text(p: ProjectSearchParams) -> Seq<char> {
    join_pairs(query_pairs(p, p.limit))
}

/// Encoding is deterministic: equal parameters give the same query string,
/// character for character.
pub proof fn lemma_query_deterministic(a: ProjectSearchParams, b: ProjectSearchParams)
    requires
        a == b,
    ensures
        query_text(a) == query_text(b),
{
}

fn decimal_string(n: usize) -> (r: String)
    ensures
        r@ == decimal(n as nat),
{
    let mut out: Vec<char> = Vec::new();
    push_decimal(&mut out, n);
    assert(out@ =~= decimal(n as nat));
    string_of(out)
}

/// Adds the pair of an optional field to a query of `pairs`.
fn push_opt_pair(
    out: &mut Vec<char>,
    Ghost(pairs): Ghost<Seq<Seq<char>>>,
    key: &str,
    value: Option<String>,
) -> (r: Ghost<Seq<Seq<char>>>)
    requires
        old(out)@ == join_pairs(pairs),
        pairs.len() > 0 ==> pairs[0].len() > 0,
    ensures
        r@ == pairs + opt_pair(key@, value is Some, value->0@),
        final(out)@ == join_pairs(r@),
        r@.len() > 0 ==> r@[0].len() > 0,
{
    proof {
        if pairs.len() > 0 {
            lemma_join_len(pairs);
        }
    }
    match value {
        Some(v) => {
            push_pair(out, Ghost(pairs), out.len() == 0, key, v.as_str());
            assert(pairs.push(pair_text(key@, v@)) =~= pairs + opt_pair(key@, true, v@));
            let ghost r = pairs.push(pair_text(key@, v@));
            assert(r.len() > 0 ==> r[0].len() > 0) by {
                reveal_strlit("=");
                if pairs.len() == 0 {
                    assert(r[0] == pair_text(key@, v@));
                }
            }
            Ghost(r)
        },
        None => {
            assert(pairs + Seq::<Seq<char>>::empty() =~= pairs);
            Ghost(pairs)
        },
    }
}

impl ProjectSearchParams {
    /// The query string, with `limit` in place of the limit field.
    pub fn query_string_with_limit(&self, limit: Option<usize>) -> (r: String)
        ensures
            r@ == join_pairs(query_pairs(*self, limit)),
    {
        let mut out: Vec<char> = Vec::new();
        let ghost g0 = Seq::<Seq<char>>::empty();
        assert(out@ =~= join_pairs(g0));
        let query = match &self.query {
            Some(q) => Some(q.clone()),
            None => None,
        };
        let Ghost(g1) = push_opt_pair(&mut out, Ghost(g0), "query", query);
        let facets = match &self.facets {
            Some(f) => Some(f.to_json()),
            None => None,
        };
        let Ghost(g2) = push_opt_pair(&mut out, Ghost(g1), "facets", facets);
        let index = match &self.index {
            Some(i) => Some(i.as_str().to_owned()),
            None => None,
        };
        let Ghost(g3) = push_opt_pair(&mut out, Ghost(g2), "index", index);
        let offset = match self.offset {
            Some(n) => Some(decimal_string(n)),
            None => None,
        };
        let Ghost(g4) = push_opt_pair(&mut out, Ghost(g3), "offset", offset);
        let lim = match limit {
            Some(n) => Some(decimal_string(n)),
            None => None,
        };
        let Ghost(g5) = push_opt_pair(&mut out, Ghost(g4), "limit", lim);
        let filters = match &self.filters {
            Some(f) => Some(f.to_json()),
            None => None,
        };
        let Ghost(g6) = push_opt_pair(&mut out, Ghost(g5), "filters", filters);
        assert(g6 =~= query_pairs(*self, limit));
        string_of(out)
    }

    /// The query string: each present field as one `key=value` pair.
    pub fn to_query_string(&self) -> (r: String)
        ensures
            r@ == query_text(*self),
    {
        self.query_string_with_limit(self.limit)
    }
}

} // verus!
