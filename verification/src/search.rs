//! Remote search: building the query URL and reading the hosting API's
//! response. The HTTP exchange itself is the caller's business.

use vstd::prelude::*;

verus! {

/// What percent-encoding the query yields: a function of the query alone.
pub uninterp spec fn url_encoded_of(s: Seq<char>) -> Seq<char>;

/// Relies on urlencoding::encode: percent-encodes every byte except the
/// ASCII alphanumerics and `-`, `_`, `.`, `~`; a pure function of its input.
#[verifier::external_body]
fn url_encode(s: &str) -> (r: String)
    ensures
        r@ == url_encoded_of(s@),
{
    urlencoding::encode(s).into_owned()
}

/// The repository-search URL for a query.
pub fn search_url(query: &str) -> (r: String)
    ensures
        r@ == "https://api.github.com/search/repositories?q="@ + url_encoded_of(query@),
{
    let mut r = String::from_str("https://api.github.com/search/repositories?q=");
    let encoded = url_encode(query);
    r.append(encoded.as_str());
    r
}

/// One repository in a search response.
pub struct SearchItem {
    pub full_name: String,
    pub stars: u64,
    pub forks: u64,
}

/// The ghost image of a [`SearchItem`].
pub struct SearchItemView {
    pub full_name: Seq<char>,
    pub stars: u64,
    pub forks: u64,
}

impl DeepView for SearchItem {
    type V = SearchItemView;

    open spec fn deep_view(&self) -> SearchItemView {
        SearchItemView { full_name: self.full_name@, stars: self.stars, forks: self.forks }
    }
}

/// What reading a search response's text yields: `None` where the text is
/// not a JSON document with an `items` array; otherwise, in order, each
/// item carrying a string `full_name`, with its star and fork counts
/// (zero where absent).
pub uninterp spec fn search_items_of(text: Seq<char>) -> Option<Seq<SearchItemView>>;

/// Relies on serde_json::from_str and serde_json::Value's accessors: the
/// items read from a fixed response text are a function of the text alone.
#[verifier::external_body]
fn parse_search_items(text: &str) -> (r: Option<Vec<SearchItem>>)
    ensures
        r.deep_view() == search_items_of(text@),
{
    let v: serde_json::Value = serde_json::from_str(text).ok()?;
    let items = v.get("items")?.as_array()?;
    Some(
        items.iter().filter_map(
            |it| it.get("full_name").and_then(|n| n.as_str()).map(
                |name| SearchItem {
                    full_name: name.to_string(),
                    stars: it.get("stargazers_count").and_then(|x| x.as_u64()).unwrap_or(0),
                    forks: it.get("forks_count").and_then(|x| x.as_u64()).unwrap_or(0),
                },
            ),
        ).collect(),
    )
}

/// The rows shown for a search response: the response's items, at most
/// `limit` of them, in order; nothing where the text is not a search
/// document.
pub fn search_results(text: &str, limit: usize) -> (r: Option<Vec<SearchItem>>)
    ensures
        r is Some <==> search_items_of(text@) is Some,
        r matches Some(rows) ==> rows.deep_view() == ({
            let items = search_items_of(text@)->Some_0;
            if limit <= items.len() {
                items.take(limit as int)
            } else {
                items
            }
        }),
{
    match parse_search_items(text) {
        None => None,
        Some(items) => Some(top_items(items, limit)),
    }
}

/// At most the first `limit` items, in order.
pub fn top_items(items: Vec<SearchItem>, limit: usize) -> (r: Vec<SearchItem>)
    ensures
        r.deep_view() == if limit <= items@.len() {
            items.deep_view().take(limit as int)
        } else {
            items.deep_view()
        },
{
    let ghost orig = items@;
    let ghost orig_deep = items.deep_view();
    let mut rest = items;
    let mut out: Vec<SearchItem> = Vec::new();
    let mut i: usize = 0;
    proof {
        assert(forall|k: int|
            0 <= k < orig.len() ==> #[trigger] orig_deep[k] == orig[k].deep_view());
    }
    while i < limit && rest.len() > 0
        invariant
            orig_deep.len() == orig.len(),
            forall|k: int| 0 <= k < orig.len() ==> #[trigger] orig_deep[k] == orig[k].deep_view(),
            i <= limit,
            i <= orig.len(),
            rest@ == orig.skip(i as int),
            out@ == orig.take(i as int),
            out@.len() == i,
        decreases limit - i,
    {
        let x = rest.remove(0);
        proof {
            assert(x == orig[i as int]);
            assert(rest@ =~= orig.skip(i + 1));
            assert(out@.push(x) =~= orig.take(i + 1));
        }
        out.push(x);
        i += 1;
    }
    proof {
        if i < limit {
            assert(orig.take(i as int) =~= orig);
        }
        assert(forall|k: int|
            0 <= k < out@.len() ==> #[trigger] out.deep_view()[k] == out@[k].deep_view());
        if limit <= orig.len() {
            assert(out.deep_view() =~= orig_deep.take(limit as int));
        } else {
            assert(out.deep_view() =~= orig_deep);
        }
    }
    out
}

} // verus!
