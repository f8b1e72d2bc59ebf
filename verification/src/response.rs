//! Shaping of transport outcomes into the response value handed back to the
//! script: header collapsing with last-write-wins, content-type extraction,
//! the degraded response for transport failures, and the closed set of
//! transport methods the host performs.

use vstd::prelude::*;
use vstd::string::StringExecFns;

verus! {

/// The mapping a sequence of header pairs denotes: later pairs overwrite
/// earlier pairs with the same name.
pub open spec fn headers_map(hs: Seq<(String, String)>) -> Map<Seq<char>, Seq<char>>
    decreases hs.len(),
{
    if hs.len() == 0 {
        Map::empty()
    } else {
        headers_map(hs.drop_last()).insert(hs.last().0@, hs.last().1@)
    }
}

/// No two pairs carry the same header name.
pub open spec fn keys_unique(hs: Seq<(String, String)>) -> bool {
    forall|i: int, j: int| 0 <= i < j < hs.len() ==> hs[i].0@ != hs[j].0@
}

/// Every header name among the pairs appears in the denoted mapping, and the
/// last pair carrying a name decides its value.
pub proof fn lemma_headers_map_last_write(hs: Seq<(String, String)>, i: int)
    requires
        0 <= i < hs.len(),
        forall|j: int| i < j < hs.len() ==> hs[j].0@ != hs[i].0@,
    ensures
        headers_map(hs).dom().contains(hs[i].0@),
        headers_map(hs)[hs[i].0@] == hs[i].1@,
    decreases hs.len(),
{
    if i == hs.len() - 1 {
        assert(hs.last() == hs[i]);
    } else {
        assert(hs.last().0@ != hs[i].0@);
        assert(hs.drop_last()[i] == hs[i]);
        assert(forall|j: int| i < j < hs.drop_last().len() ==> hs.drop_last()[j].0@ != hs.drop_last()[i].0@);
        lemma_headers_map_last_write(hs.drop_last(), i);
    }
}

/// A name carried by no pair is absent from the denoted mapping.
pub proof fn lemma_headers_map_absent(hs: Seq<(String, String)>, k: Seq<char>)
    requires
        forall|i: int| 0 <= i < hs.len() ==> hs[i].0@ != k,
    ensures
        !headers_map(hs).dom().contains(k),
    decreases hs.len(),
{
    if hs.len() > 0 {
        assert(forall|i: int| 0 <= i < hs.drop_last().len() ==> hs.drop_last()[i].0@ != k);
        lemma_headers_map_absent(hs.drop_last(), k);
        assert(hs.last().0@ != k);
    }
}

/// Appending a pair inserts its name into the denoted mapping.
pub proof fn lemma_headers_map_push(hs: Seq<(String, String)>, p: (String, String))
    ensures
        headers_map(hs.push(p)) == headers_map(hs).insert(p.0@, p.1@),
{
    assert(hs.push(p).drop_last() =~= hs);
    assert(hs.push(p).last() == p);
}

/// Overwriting the one pair that carries a name updates the denoted mapping
/// at that name alone.
pub proof fn lemma_headers_map_update(hs: Seq<(String, String)>, j: int, p: (String, String))
    requires
        keys_unique(hs),
        0 <= j < hs.len(),
        hs[j].0@ == p.0@,
    ensures
        headers_map(hs.update(j, p)) == headers_map(hs).insert(p.0@, p.1@),
    decreases hs.len(),
{
    let hs2 = hs.update(j, p);
    if j == hs.len() - 1 {
        assert(hs2.drop_last() =~= hs.drop_last());
        assert(hs2.last() == p);
        assert(headers_map(hs.drop_last()).insert(hs.last().0@, hs.last().1@).insert(p.0@, p.1@)
            =~= headers_map(hs.drop_last()).insert(p.0@, p.1@));
    } else {
        assert(hs2.drop_last() =~= hs.drop_last().update(j, p));
        assert(hs.drop_last()[j] == hs[j]);
        assert(keys_unique(hs.drop_last())) by {
            assert(forall|a: int, b: int|
                0 <= a < b < hs.drop_last().len() ==> hs.drop_last()[a] == hs[a] && hs.drop_last()[b] == hs[b]);
        }
        lemma_headers_map_update(hs.drop_last(), j, p);
        assert(hs2.last() == hs.last());
        assert(hs.last().0@ != hs[j].0@);
        assert(headers_map(hs.drop_last()).insert(p.0@, p.1@).insert(hs.last().0@, hs.last().1@)
            =~= headers_map(hs.drop_last()).insert(hs.last().0@, hs.last().1@).insert(p.0@, p.1@));
    }
}

/// Installs one header under last-write-wins: the pair carrying the same
/// name is overwritten, a new name is appended.
pub fn insert_header(headers: &mut Vec<(String, String)>, name: String, value: String)
    requires
        keys_unique(old(headers)@),
    ensures
        keys_unique(final(headers)@),
        headers_map(final(headers)@) == headers_map(old(headers)@).insert(name@, value@),
{
    let ghost k: Seq<char> = name@;
    let ghost w: Seq<char> = value@;
    let n = headers.len();
    let mut i: usize = 0;
    while i < n
        invariant
            n == headers@.len(),
            i <= n,
            headers@ == old(headers)@,
            keys_unique(headers@),
            name@ == k,
            value@ == w,
            forall|m: int| 0 <= m < i ==> headers@[m].0@ != k,
        decreases n - i,
    {
        if headers[i].0 == name {
            proof {
                lemma_headers_map_update(headers@, i as int, (name, value));
            }
            headers.set(i, (name, value));
            proof {
                assert(forall|a: int, b: int|
                    0 <= a < b < final(headers)@.len() ==> final(headers)@[a].0@ != final(headers)@[b].0@) by {
                    assert(forall|m: int|
                        0 <= m < final(headers)@.len() ==> final(headers)@[m].0@ == old(headers)@[m].0@);
                }
            }
            return;
        }
        i += 1;
    }
    proof {
        lemma_headers_map_push(headers@, (name, value));
    }
    headers.push((name, value));
    assert(keys_unique(final(headers)@)) by {
        assert(forall|m: int| 0 <= m < old(headers)@.len() ==> final(headers)@[m] == old(headers)@[m]);
        assert(final(headers)@.last().0@ == k);
    }
}

/// Collapses raw header pairs, in arrival order, into a list with unique
/// names denoting the same mapping.
pub fn collapse_headers(pairs: &Vec<(String, String)>) -> (r: Vec<(String, String)>)
    ensures
        keys_unique(r@),
        headers_map(r@) == headers_map(pairs@),
{
    let mut out: Vec<(String, String)> = Vec::new();
    let n = pairs.len();
    let mut i: usize = 0;
    while i < n
        invariant
            n == pairs@.len(),
            i <= n,
            keys_unique(out@),
            headers_map(out@) == headers_map(pairs@.take(i as int)),
        decreases n - i,
    {
        let name = pairs[i].0.clone();
        let value = pairs[i].1.clone();
        proof {
            assert(pairs@.take(i + 1).drop_last() =~= pairs@.take(i as int));
            assert(pairs@.take(i + 1).last() == pairs@[i as int]);
        }
        insert_header(&mut out, name, value);
        i += 1;
    }
    proof {
        assert(pairs@.take(n as int) =~= pairs@);
    }
    out
}

/// Finds the value a header name carries in a unique-keyed list.
pub fn lookup_header(headers: &Vec<(String, String)>, name: &str) -> (r: Option<String>)
    requires
        keys_unique(headers@),
    ensures
        r matches Some(v) ==> headers_map(headers@).dom().contains(name@) && v@ == headers_map(
            headers@,
        )[name@],
        r is None ==> !headers_map(headers@).dom().contains(name@),
{
    let needle = name.to_owned();
    let n = headers.len();
    let mut i: usize = 0;
    while i < n
        invariant
            n == headers@.len(),
            i <= n,
            keys_unique(headers@),
            needle@ == name@,
            forall|m: int| 0 <= m < i ==> headers@[m].0@ != name@,
        decreases n - i,
    {
        if headers[i].0 == needle {
            proof {
                lemma_headers_map_last_write(headers@, i as int);
            }
            return Some(headers[i].1.clone());
        }
        i += 1;
    }
    proof {
        lemma_headers_map_absent(headers@, name@);
    }
    None
}

/// Result of one outbound request, as exposed to the script.
pub struct HostResponse {
    pub status_code: i32,
    pub body: String,
    pub content_type: String,
    pub headers: Vec<(String, String)>,
}

impl HostResponse {
    /// Header names are unique once collapsed.
    pub open spec fn wf(self) -> bool {
        keys_unique(self.headers@)
    }

    /// The header mapping this response carries.
    pub open spec fn headers_model(self) -> Map<Seq<char>, Seq<char>> {
        headers_map(self.headers@)
    }

    /// The response standing in for any transport failure.
    pub open spec fn is_degraded(self) -> bool {
        &&& self.status_code == 500
        &&& self.body@ == "Internal Server Error"@
        &&& self.content_type@ == Seq::<char>::empty()
        &&& self.headers@.len() == 0
    }

    /// Builds the degraded response.
    pub fn degraded() -> (r: HostResponse)
        ensures
            r.is_degraded(),
            r.wf(),
    {
        HostResponse {
            status_code: 500,
            body: "Internal Server Error".to_owned(),
            content_type: String::new(),
            headers: Vec::new(),
        }
    }
}

/// The header whose value becomes the response's content type.
pub open spec fn content_type_name() -> Seq<char> {
    "content-type"@
}

/// The content type a header mapping yields: the value under the
/// content-type name, empty when absent.
pub open spec fn content_type_of(m: Map<Seq<char>, Seq<char>>) -> Seq<char> {
    if m.dom().contains(content_type_name()) {
        m[content_type_name()]
    } else {
        Seq::empty()
    }
}

/// What a successful transport call handed back: status, the raw header
/// pairs in arrival order, and the body text.
pub struct TransportSuccess {
    pub status_code: u16,
    pub headers: Vec<(String, String)>,
    pub body: String,
}

/// Shapes a transport outcome into the response the script observes: a
/// failure degrades to the synthetic 500 response, a success keeps status
/// and body, collapses the headers under last-write-wins, and draws the
/// content type from the collapsed mapping.
pub fn build_response(outcome: Option<TransportSuccess>) -> (r: HostResponse)
    ensures
        r.wf(),
        outcome is None ==> r.is_degraded(),
        outcome matches Some(t) ==> {
            &&& r.status_code == t.status_code as i32
            &&& r.body@ == t.body@
            &&& r.headers_model() == headers_map(t.headers@)
            &&& r.content_type@ == content_type_of(headers_map(t.headers@))
        },
{
    match outcome {
        None => HostResponse::degraded(),
        Some(t) => {
            let headers = collapse_headers(&t.headers);
            let content_type = match lookup_header(&headers, "content-type") {
                Some(v) => v,
                None => String::new(),
            };
            HostResponse { status_code: t.status_code as i32, body: t.body, content_type, headers }
        },
    }
}

/// The closed set of transport methods the host performs.
#[derive(Clone, Copy, Debug, PartialEq, Eq, Structural)]
pub enum HttpMethod {
    Get,
    Post,
}

/// Which transport method, if any, a method string selects.
pub open spec fn method_of(m: Seq<char>) -> Option<HttpMethod> {
    if m == "GET"@ {
        Some(HttpMethod::Get)
    } else if m == "POST"@ {
        Some(HttpMethod::Post)
    } else {
        None
    }
}

/// Classifies a method string against the closed set.
pub fn classify_method(m: &str) -> (r: Option<HttpMethod>)
    ensures
        r == method_of(m@),
{
    let s = m.to_owned();
    if s == "GET".to_owned() {
        Some(HttpMethod::Get)
    } else if s == "POST".to_owned() {
        Some(HttpMethod::Post)
    } else {
        None
    }
}

/// A transport call the host has agreed to perform.
#[derive(Debug)]
pub struct RequestPlan {
    pub url: String,
    pub method: HttpMethod,
}

/// The diagnostic for a method outside the closed set.
pub open spec fn unsupported_method_text(m: Seq<char>) -> Seq<char> {
    "Unsupported method: "@ + m
}

/// Admits a request only for a supported method; any other method string is
/// refused with its diagnostic, never mapped to a silent default.
pub fn plan_request(url: &str, method: &str) -> (r: Result<RequestPlan, String>)
    ensures
        r matches Ok(p) ==> method_of(method@) == Some(p.method) && p.url@ == url@,
        r matches Err(e) ==> method_of(method@) is None && e@ == unsupported_method_text(method@),
        r is Ok <==> method_of(method@) is Some,
{
    match classify_method(method) {
        Some(m) => Ok(RequestPlan { url: url.to_owned(), method: m }),
        None => {
            let mut e = "Unsupported method: ".to_owned();
            e.append(method);
            Err(e)
        },
    }
}

} // verus!
