//! The resolver: candidate URL generation and the ordered fallback strategy.

use vstd::prelude::*;

verus! {

/// The transport-level result of one HTTP GET against a candidate URL.
///
/// Any HTTP status code, including 4xx and 5xx, is a transport success and
/// terminates the fallback; only connection-level failures (DNS, refused
/// connection, TLS, timeout) advance the resolver to the next candidate.
#[derive(Clone, Copy, PartialEq, Eq, Structural, Debug)]
pub enum Transport {
    /// The server answered with this HTTP status code.
    Status(u16),
    /// The request failed below the HTTP layer: no response was obtained.
    Error,
}

/// The outcome of resolving one domain: the HTTP status of the first
/// candidate that answered and the URL that was attempted, or the terminal
/// sentinel `code == 0` with the original domain when every candidate failed.
pub struct Response {
    pub code: i32,
    pub url: String,
}

/// The `i`-th candidate URL derived from a domain, in fixed priority order:
/// `https://www.`, `https://`, `http://www.`, then `http://`.
pub open spec fn candidate(domain: Seq<char>, i: int) -> Seq<char>
    recommends
        0 <= i < 4,
{
    if i == 0 {
        "https://www."@ + domain
    } else if i == 1 {
        "https://"@ + domain
    } else if i == 2 {
        "http://www."@ + domain
    } else {
        "http://"@ + domain
    }
}

/// Builds the four candidate URLs for a domain, in priority order.
pub fn build_urls(domain: &str) -> (urls: Vec<String>)
    ensures
        urls@.len() == 4,
        forall|i: int| 0 <= i < 4 ==> #[trigger] urls@[i]@ == candidate(domain@, i),
{
    let mut urls: Vec<String> = Vec::new();
    urls.push(String::from_str("https://www.").concat(domain));
    urls.push(String::from_str("https://").concat(domain));
    urls.push(String::from_str("http://www.").concat(domain));
    urls.push(String::from_str("http://").concat(domain));
    urls
}

/// The outcome of the fallback, starting at candidate `i`, when the
/// transport-level reply to candidate `j` is `replies[j]`: the first status
/// reply terminates with that status and the candidate's URL; if none comes,
/// the sentinel outcome is status `0` with the bare input domain.
pub open spec fn spec_resolve(domain: Seq<char>, replies: Seq<Transport>, i: int) -> (int, Seq<
    char,
>)
    recommends
        replies.len() == 4,
    decreases 4 - i,
{
    if 0 <= i < 4 && i < replies.len() {
        match replies[i] {
            Transport::Status(code) => (code as int, candidate(domain, i)),
            Transport::Error => spec_resolve(domain, replies, i + 1),
        }
    } else {
        (0, domain)
    }
}

/// `r` is the outcome the fallback strategy assigns to `domain` under the
/// transport replies `replies`.
pub open spec fn resolves_to(r: Response, domain: Seq<char>, replies: Seq<Transport>) -> bool {
    &&& r.code as int == spec_resolve(domain, replies, 0).0
    &&& r.url@ == spec_resolve(domain, replies, 0).1
}

/// Resolves one domain, given the transport-level reply each of the four
/// candidates would receive: candidates are consulted strictly in priority
/// order and the first status reply wins.
pub fn check_domain(domain: &str, replies: &Vec<Transport>) -> (r: Response)
    requires
        replies@.len() == 4,
    ensures
        resolves_to(r, domain@, replies@),
{
    let urls = build_urls(domain);
    let mut i: usize = 0;
    while i < 4
        invariant
            replies@.len() == 4,
            urls@.len() == 4,
            forall|k: int| 0 <= k < 4 ==> #[trigger] urls@[k]@ == candidate(domain@, k),
            i <= 4,
            spec_resolve(domain@, replies@, 0) == spec_resolve(domain@, replies@, i as int),
        decreases 4 - i,
    {
        match replies[i] {
            Transport::Status(code) => {
                return Response { code: code as i32, url: urls[i].clone() };
            },
            Transport::Error => {
                i = i + 1;
            },
        }
    }
    Response { code: 0, url: domain.to_owned() }
}

/// Resolves a batch of domains, one outcome per domain, in input order.
///
/// `replies[i]` holds the transport-level replies for the four candidates of
/// `domains[i]`.
pub fn check_all_domains(domains: &Vec<String>, replies: &Vec<Vec<Transport>>) -> (rs: Vec<
    Response,
>)
    requires
        replies@.len() == domains@.len(),
        forall|i: int| 0 <= i < replies@.len() ==> #[trigger] replies@[i]@.len() == 4,
    ensures
        rs@.len() == domains@.len(),
        forall|i: int|
            0 <= i < rs@.len() ==> resolves_to(#[trigger] rs@[i], domains@[i]@, replies@[i]@),
{
    let mut rs: Vec<Response> = Vec::new();
    let mut i: usize = 0;
    while i < domains.len()
        invariant
            replies@.len() == domains@.len(),
            forall|k: int| 0 <= k < replies@.len() ==> #[trigger] replies@[k]@.len() == 4,
            i <= domains@.len(),
            rs@.len() == i,
            forall|k: int|
                0 <= k < i ==> resolves_to(#[trigger] rs@[k], domains@[k]@, replies@[k]@),
        decreases domains@.len() - i,
    {
        let r = check_domain(domains[i].as_str(), &replies[i]);
        rs.push(r);
        i = i + 1;
    }
    rs
}

/// The index of the first candidate at or after `i` whose reply is a status,
/// if any candidate's reply is one.
pub open spec fn first_success(replies: Seq<Transport>, i: int) -> Option<int>
    decreases replies.len() - i,
{
    if 0 <= i < replies.len() {
        if replies[i] is Status {
            Some(i)
        } else {
            first_success(replies, i + 1)
        }
    } else {
        None
    }
}

/// The URLs the fallback attempts, starting at candidate `i`: every
/// consulted candidate's URL, in order, ending with the first that received
/// a status reply.
pub open spec fn attempted_urls(domain: Seq<char>, replies: Seq<Transport>, i: int) -> Seq<
    Seq<char>,
>
    recommends
        replies.len() == 4,
    decreases 4 - i,
{
    if 0 <= i < 4 && i < replies.len() {
        match replies[i] {
            Transport::Status(_) => seq![candidate(domain, i)],
            Transport::Error => seq![candidate(domain, i)] + attempted_urls(domain, replies, i + 1),
        }
    } else {
        Seq::<Seq<char>>::empty()
    }
}

proof fn lemma_attempted_from(domain: Seq<char>, replies: Seq<Transport>, i: int)
    requires
        replies.len() == 4,
        0 <= i <= 4,
    ensures
        ({
            let a = attempted_urls(domain, replies, i);
            &&& forall|k: int| 0 <= k < a.len() ==> #[trigger] a[k] == candidate(domain, i + k)
            &&& a.len() == match first_success(replies, i) {
                Some(j) => j + 1 - i,
                None => 4 - i,
            }
        }),
    decreases 4 - i,
{
    if i < 4 {
        lemma_attempted_from(domain, replies, i + 1);
    }
}

/// Candidate order invariant: the attempted URLs are exactly the fixed
/// candidate list `[https://www.D, https://D, http://www.D, http://D]`, in
/// that order, cut off just after the first transport success — or the whole
/// list when no candidate succeeds.
pub proof fn lemma_candidate_order(domain: Seq<char>, replies: Seq<Transport>)
    requires
        replies.len() == 4,
    ensures
        ({
            let a = attempted_urls(domain, replies, 0);
            &&& forall|k: int| 0 <= k < a.len() ==> #[trigger] a[k] == candidate(domain, k)
            &&& a.len() == match first_success(replies, 0) {
                Some(j) => j + 1,
                None => 4,
            }
        }),
{
    lemma_attempted_from(domain, replies, 0);
}

proof fn lemma_resolve_skips_errors(domain: Seq<char>, replies: Seq<Transport>, i: int)
    requires
        replies.len() == 4,
        0 <= i <= 4,
        forall|j: int| 0 <= j < i ==> #[trigger] replies[j] is Error,
    ensures
        spec_resolve(domain, replies, 0) == spec_resolve(domain, replies, i),
    decreases i,
{
    if i > 0 {
        lemma_resolve_skips_errors(domain, replies, i - 1);
    }
}

/// Determinism of terminal failure: when every candidate's reply is a
/// transport error, the outcome is exactly the sentinel status `0` with the
/// original domain, unmodified.
pub proof fn lemma_terminal_failure(domain: Seq<char>, replies: Seq<Transport>)
    requires
        replies.len() == 4,
        forall|j: int| 0 <= j < 4 ==> #[trigger] replies[j] is Error,
    ensures
        spec_resolve(domain, replies, 0) == (0int, domain),
{
    lemma_resolve_skips_errors(domain, replies, 4);
}

/// Status passthrough: if candidate `i` is the first to succeed at the
/// transport level, with HTTP status `s`, the outcome records `s` verbatim —
/// whether `s` is 200 or 404 or 500 — together with candidate `i`'s URL.
pub proof fn lemma_status_passthrough(domain: Seq<char>, replies: Seq<Transport>, i: int, s: u16)
    requires
        replies.len() == 4,
        0 <= i < 4,
        replies[i] == Transport::Status(s),
        forall|j: int| 0 <= j < i ==> #[trigger] replies[j] is Error,
    ensures
        spec_resolve(domain, replies, 0) == (s as int, candidate(domain, i)),
{
    lemma_resolve_skips_errors(domain, replies, i);
}

/// Step-driven resolver for one domain, for callers that perform the HTTP
/// transport themselves.
///
/// While [`Self::pending_url`] yields a candidate URL, the caller issues the
/// GET and hands the transport-level result to [`Self::step`]. Once
/// `pending_url` yields `None`, [`Self::result`] carries the outcome. The
/// contracts of `start`, `pending_url` and `step` pin the whole run down: the
/// candidate attempted at each step, the advance on a transport error, and
/// the outcome recorded on the first status reply or on exhaustion.
pub struct Resolver {
    domain: String,
    index: usize,
    outcome: Option<Response>,
}

impl Resolver {
    /// The domain being resolved.
    pub closed spec fn spec_domain(&self) -> Seq<char> {
        self.domain@
    }

    /// The index of the candidate under consideration: how many candidates
    /// have failed so far.
    pub closed spec fn tried(&self) -> int {
        self.index as int
    }

    /// The recorded outcome (status and resolved URL), once the fallback has
    /// terminated.
    pub closed spec fn decided(&self) -> Option<(int, Seq<char>)> {
        match self.outcome {
            Some(o) => Some((o.code as int, o.url@)),
            None => None,
        }
    }

    /// Begins resolving `domain` at the highest-priority candidate.
    pub fn start(domain: &str) -> (r: Resolver)
        ensures
            r.spec_domain() == domain@,
            r.tried() == 0,
            r.decided() is None,
    {
        Resolver { domain: domain.to_owned(), index: 0, outcome: None }
    }

    /// The candidate URL the caller should fetch next, or `None` once the
    /// fallback has terminated.
    pub fn pending_url(&self) -> (u: Option<String>)
        ensures
            u is Some <==> (self.decided() is None && self.tried() < 4),
            u matches Some(url) ==> url@ == candidate(self.spec_domain(), self.tried()),
    {
        match &self.outcome {
            Some(_) => None,
            None => {
                if self.index < 4 {
                    let urls = build_urls(self.domain.as_str());
                    Some(urls[self.index].clone())
                } else {
                    None
                }
            },
        }
    }

    /// Feeds the transport-level result of fetching the pending candidate:
    /// a status reply terminates with that status and the candidate's URL; a
    /// transport error advances to the next candidate, or — after the last
    /// one — terminates with the sentinel status `0` and the bare domain.
    pub fn step(&mut self, t: Transport)
        requires
            old(self).decided() is None,
            old(self).tried() < 4,
        ensures
            final(self).spec_domain() == old(self).spec_domain(),
            t matches Transport::Status(s) ==> final(self).decided() == Some(
                (s as int, candidate(old(self).spec_domain(), old(self).tried())),
            ),
            t is Error && old(self).tried() < 3 ==> final(self).decided() is None
                && final(self).tried() == old(self).tried() + 1,
            t is Error && old(self).tried() == 3 ==> final(self).decided() == Some(
                (0int, old(self).spec_domain()),
            ),
    {
        match t {
            Transport::Status(code) => {
                let urls = build_urls(self.domain.as_str());
                let url = urls[self.index].clone();
                self.outcome = Some(Response { code: code as i32, url });
            },
            Transport::Error => {
                if self.index < 3 {
                    self.index = self.index + 1;
                } else {
                    let url = self.domain.clone();
                    self.index = 4;
                    self.outcome = Some(Response { code: 0, url });
                }
            },
        }
    }

    /// The outcome, once the fallback has terminated; `None` while a
    /// candidate is still pending.
    pub fn result(&self) -> (r: Option<Response>)
        ensures
            r is Some <==> self.decided() is Some,
            r matches Some(resp) ==> self.decided() == Some((resp.code as int, resp.url@)),
    {
        match &self.outcome {
            Some(o) => Some(Response { code: o.code, url: o.url.clone() }),
            None => None,
        }
    }
}

} // verus!
