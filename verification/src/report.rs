//! The aggregator: turning probe outcomes into normalized report rows.

use vstd::prelude::*;

use crate::probe::Response;

verus! {

/// One normalized report row, derived from a probe outcome: the URL that
/// resolved (or the bare domain on terminal failure), the HTTP status code,
/// the URL's scheme (`"unknown"` when the string does not parse as an
/// absolute URL), and whether the string contains `www`.
pub struct Row {
    pub domain: String,
    pub code: i32,
    pub protocol: String,
    pub www: bool,
}

/// The scheme of `s` when it parses as an absolute URL, lower-cased and
/// without the `:` delimiter, and `None` when it does not parse.
pub uninterp spec fn url_scheme_of(s: Seq<char>) -> Option<Seq<char>>;

/// Relies on `reqwest::Url::parse` (the `url` crate's parser for absolute
/// URLs) and `reqwest::Url::scheme`: whether a string parses as an absolute
/// URL, and the parsed URL's lower-cased scheme, depend on the input
/// characters alone.
#[verifier::external_body]
fn parse_scheme(url: &str) -> (r: Option<String>)
    ensures
        r is Some <==> url_scheme_of(url@) is Some,
        r matches Some(p) ==> url_scheme_of(url@) == Some(p@),
{
    match reqwest::Url::parse(url) {
        Ok(u) => Some(u.scheme().to_string()),
        Err(_) => None,
    }
}

/// The `protocol` column derived from a resolved URL: its scheme, or
/// `"unknown"` when the string does not parse as an absolute URL.
pub open spec fn spec_protocol(url: Seq<char>) -> Seq<char> {
    match url_scheme_of(url) {
        Some(p) => p,
        None => "unknown"@,
    }
}

/// `row` is the report row the aggregator derives from the outcome `resp`.
pub open spec fn row_for(row: Row, resp: Response) -> bool {
    &&& row.domain@ == resp.url@
    &&& row.code == resp.code
    &&& row.protocol@ == spec_protocol(resp.url@)
    &&& row.www == spec_contains_www(resp.url@)
}

/// Whether `s` contains the substring `www` anywhere.
///
/// This is the textual heuristic the report uses for its `www` column: it is
/// not a structural check on the host's subdomain labels.
pub open spec fn spec_contains_www(s: Seq<char>) -> bool {
    exists|i: int| 0 <= i && i + 3 <= s.len() && #[trigger] s.subrange(i, i + 3) == "www"@
}

/// Substring scan for `www`, character by character.
pub fn contains_www(s: &str) -> (r: bool)
    ensures
        r == spec_contains_www(s@),
{
    let n: usize = s.unicode_len();
    if n < 3 {
        return false;
    }
    let mut i: usize = 0;
    while i <= n - 3
        invariant
            n == s@.len(),
            3 <= n,
            i <= n - 2,
            forall|j: int| 0 <= j < i ==> #[trigger] s@.subrange(j, j + 3) != "www"@,
        decreases n - i,
    {
        proof {
            reveal_strlit("www");
        }
        if s.get_char(i) == 'w' && s.get_char(i + 1) == 'w' && s.get_char(i + 2) == 'w' {
            proof {
                assert(s@.subrange(i as int, i as int + 3) =~= "www"@);
            }
            return true;
        }
        proof {
            assert(s@.subrange(i as int, i as int + 3)[0] == s@[i as int]);
            assert(s@.subrange(i as int, i as int + 3)[1] == s@[i as int + 1]);
            assert(s@.subrange(i as int, i as int + 3)[2] == s@[i as int + 2]);
        }
        i = i + 1;
    }
    false
}

/// Derives the report row for one probe outcome.
///
/// The row's `domain` column carries the outcome's URL itself: on success
/// the candidate URL that answered (which may differ from the caller's bare
/// input), on terminal failure the original domain unchanged.
pub fn report_row(resp: &Response) -> (row: Row)
    ensures
        row_for(row, *resp),
{
    let protocol = match parse_scheme(resp.url.as_str()) {
        Some(p) => p,
        None => String::from_str("unknown"),
    };
    let www = contains_www(resp.url.as_str());
    Row { domain: resp.url.clone(), code: resp.code, protocol, www }
}

/// Converts a batch of probe outcomes into report rows, order-preserving and
/// one-to-one.
///
/// Aggregation is pure data transformation and never fails: an outcome whose
/// URL does not parse degrades to the `"unknown"` protocol instead of
/// raising an error.
pub fn aggregate(responses: &Vec<Response>) -> (rows: Vec<Row>)
    ensures
        rows@.len() == responses@.len(),
        forall|i: int| 0 <= i < rows@.len() ==> row_for(#[trigger] rows@[i], responses@[i]),
{
    let mut rows: Vec<Row> = Vec::new();
    let mut i: usize = 0;
    while i < responses.len()
        invariant
            i <= responses@.len(),
            rows@.len() == i,
            forall|k: int| 0 <= k < i ==> row_for(#[trigger] rows@[k], responses@[k]),
        decreases responses@.len() - i,
    {
        let row = report_row(&responses[i]);
        rows.push(row);
        i = i + 1;
    }
    rows
}

} // verus!
