use vstd::prelude::*;
use crate::header::{Headers, entries_valid, entry_ok, lemma_lower_name_stored, header_error_matches, pairs_view, validate_pair, header_name_ok, header_value_ok, lower_name, set_header};
use crate::request::{ConfigView, Method, Outgoing, build_request, built_from, config_of, sendable};
use crate::response::{body_view, bytes_post, classify_bytes, classify_json, json_post};
use crate::results::{DeltaError, HeaderError};

verus! {

/// Relies on std's `String::push`: the character goes at the end.
#[verifier::external_body]
fn push_char(s: &mut String, c: char)
    ensures
        final(s)@ == old(s)@.push(c),
{
    s.push(c)
}

pub open spec fn digit(d: nat) -> char {
    (48 + d) as char
}

/// The decimal digits of `n`, without leading zeros.
pub open spec fn decimal(n: nat) -> Seq<char>
    decreases n,
{
    if n < 10 {
        seq![digit(n)]
    } else {
        decimal(n / 10).push(digit(n % 10))
    }
}

fn push_decimal(out: &mut String, n: u16)
    ensures
        final(out)@ == old(out)@ + decimal(n as nat),
    decreases n,
{
    if n >= 10 {
        push_decimal(out, n / 10);
    }
    let d = (n % 10) as u8;
    push_char(out, (48u8 + d) as char);
    assert(old(out)@ + decimal(n as nat) =~= if n >= 10 {
        old(out)@ + decimal((n / 10) as nat) + seq![digit((n % 10) as nat)]
    } else {
        old(out)@ + seq![digit(n as nat)]
    });
}

/// A response status; never zero.
#[derive(Debug, Clone, Copy)]
pub struct StatusCode {
    code: u16,
}

impl View for StatusCode {
    type V = u16;

    closed spec fn view(&self) -> u16 {
        self.code
    }
}

impl StatusCode {
    #[verifier::type_invariant]
    spec fn nonzero(self) -> bool {
        self.code != 0
    }

    /// The status with this number; there is none for zero.
    pub fn new(code: u16) -> (r: Option<StatusCode>)
        ensures
            r is Some <==> code != 0,
            r matches Some(s) ==> s@ == code,
    {
        if code == 0 {
            None
        } else {
            Some(StatusCode { code })
        }
    }

    /// 200, the status of a successful response.
    pub fn ok() -> (r: StatusCode)
        ensures
            r@ == 200,
    {
        StatusCode { code: 200 }
    }

    pub fn as_u16(&self) -> (r: u16)
        ensures
            r == self@,
            r != 0,
    {
        proof {
            use_type_invariant(self);
        }
        self.code
    }

    /// The number in decimal.
    pub fn as_str(&self) -> (r: String)
        ensures
            r@ == decimal(self@ as nat),
    {
        let mut s = String::new();
        push_decimal(&mut s, self.code);
        assert(s@ =~= decimal(self@ as nat));
        s
    }
}

/// A response as the transport hands it over: a status and the body, if any.
#[derive(Debug, Clone)]
pub struct DeltaBody {
    pub body: Option<Vec<u8>>,
    pub status: StatusCode,
}

impl DeltaBody {
    /// The body on 200, nothing on 204; otherwise the status and body text as an error.
    pub fn bytes(self) -> (r: Result<Vec<u8>, DeltaError>)
        ensures
            bytes_post(self.status@, body_view(self.body), r),
    {
        let code = self.status.as_u16();
        classify_bytes(code, self.body)
    }

    /// The parsed body on 200, `None` (null) on 204 or an empty 200; otherwise the
    /// status and body text as an error.
    pub fn serde_switch(self) -> (r: Result<Option<serde_json::Value>, DeltaError>)
        ensures
            json_post(self.status@, body_view(self.body), r),
    {
        let code = self.status.as_u16();
        classify_json(code, self.body)
    }
}

} // verus!

verus! {

pub open spec fn str_pairs(v: Seq<(&str, &str)>) -> Seq<(Seq<char>, Seq<char>)> {
    Seq::new(v.len(), |i: int| (v[i].0@, v[i].1@))
}

/// Every pair passes the header grammar.
pub open spec fn pairs_ok(p: Seq<(Seq<char>, Seq<char>)>) -> bool {
    forall|i: int| 0 <= i < p.len() ==> header_name_ok(#[trigger] p[i].0) && header_value_ok(p[i].1)
}

/// `e` is the error of the first pair that the grammar refuses.
pub open spec fn first_refusal(p: Seq<(Seq<char>, Seq<char>)>, e: DeltaError) -> bool {
    exists|i: int|
        0 <= i < p.len() && pairs_ok(p.take(i)) && !(header_name_ok(#[trigger] p[i].0)
            && header_value_ok(p[i].1)) && header_error_matches(p[i].0, p[i].1, e)
}

/// The pairs as they are stored: names in lower case.
pub open spec fn stored_pairs(p: Seq<(Seq<char>, Seq<char>)>) -> Seq<(Seq<char>, Seq<char>)> {
    Seq::new(p.len(), |i: int| (lower_name(p[i].0), p[i].1))
}

proof fn lemma_stored_pairs_valid(p: Seq<(Seq<char>, Seq<char>)>)
    requires
        pairs_ok(p),
    ensures
        entries_valid(stored_pairs(p)),
{
    assert forall|i: int| 0 <= i < stored_pairs(p).len() implies #[trigger] entry_ok(
        stored_pairs(p)[i],
    ) by {
        assert(header_name_ok(p[i].0));
        lemma_lower_name_stored(p[i].0);
    }
}

/// Checks every pair, in order, and gives them as they are stored; the first
/// refusal ends the check.
fn validate_all(pairs: &Vec<(&str, &str)>) -> (r: Result<Vec<(String, String)>, DeltaError>)
    ensures
        match r {
            Ok(v) => pairs_ok(str_pairs(pairs@)) && pairs_view(v@) == stored_pairs(
                str_pairs(pairs@),
            ),
            Err(e) => first_refusal(str_pairs(pairs@), e),
        },
{
    let ghost p = str_pairs(pairs@);
    let mut out: Vec<(String, String)> = Vec::new();
    let mut i: usize = 0;
    while i < pairs.len()
        invariant
            p == str_pairs(pairs@),
            i <= p.len(),
            pairs_ok(p.take(i as int)),
            out@.len() == i,
            pairs_view(out@) =~= stored_pairs(p.take(i as int)),
        decreases p.len() - i,
    {
        let (k, v) = pairs[i];
        match validate_pair(k, v) {
            Ok(pair) => {
                assert(k@ == p[i as int].0 && v@ == p[i as int].1);
                let ghost old_out = out;
                out.push(pair);
                assert(pairs_view(out@)[i as int] == stored_pairs(p.take(i + 1))[i as int]);
                assert forall|j: int| 0 <= j < p.take(i + 1).len() implies header_name_ok(
                    #[trigger] p.take(i + 1)[j].0,
                ) && header_value_ok(p.take(i + 1)[j].1) by {
                    if j < i {
                        assert(p.take(i + 1)[j] == p.take(i as int)[j]);
                    }
                }
                assert forall|j: int| 0 <= j < i implies pairs_view(out@)[j] == stored_pairs(
                    p.take(i + 1),
                )[j] by {
                    assert(pairs_view(out@)[j] == pairs_view(old_out@)[j]);
                    assert(stored_pairs(p.take(i + 1))[j] == stored_pairs(p.take(i as int))[j]);
                }
                i = i + 1;
                assert(pairs_view(out@) =~= stored_pairs(p.take(i as int)));
            },
            Err(e) => {
                assert(k@ == p[i as int].0 && v@ == p[i as int].1);
                assert(!(header_name_ok(p[i as int].0) && header_value_ok(p[i as int].1)));
                assert(header_error_matches(p[i as int].0, p[i as int].1, e));
                assert(first_refusal(p, e));
                return Err(e);
            },
        }
    }
    assert(p.take(p.len() as int) =~= p);
    Ok(out)
}

/// A client on the hyper stack: base URL, timeout in seconds, default headers and
/// the two overrides.
#[derive(Debug, Clone)]
pub struct Delta {
    pub url: String,
    pub timeout: u64,
    pub headers: Headers,
    pub user_agent: Option<String>,
    pub content_type: Option<String>,
}

impl Delta {
    pub open spec fn config(&self) -> ConfigView {
        config_of(self.url, self.user_agent, self.content_type, self.headers)
    }

    /// No base URL, no timeout, no default headers, no overrides.
    pub fn new() -> (r: Delta)
        ensures
            r.config() == ConfigView::empty(),
            r.timeout == 0,
    {
        Delta {
            url: String::new(),
            timeout: 0,
            headers: Headers::new(),
            user_agent: None,
            content_type: None,
        }
    }

    fn duplicate(&self) -> (r: Delta)
        ensures
            r.config() == self.config(),
            r.timeout == self.timeout,
    {
        Delta {
            url: self.url.clone(),
            timeout: self.timeout,
            headers: self.headers.duplicate(),
            user_agent: match &self.user_agent {
                Some(a) => Some(a.clone()),
                None => None,
            },
            content_type: match &self.content_type {
                Some(t) => Some(t.clone()),
                None => None,
            },
        }
    }

    pub fn set_user_agent(&mut self, user_agent: &str) -> (r: Delta)
        ensures
            final(self).config() == old(self).config().with_agent(user_agent@),
            final(self).timeout == old(self).timeout,
            r.config() == final(self).config() && r.timeout == final(self).timeout,
    {
        self.user_agent = Some(user_agent.to_owned());
        self.duplicate()
    }

    pub fn set_url(&mut self, url: &str) -> (r: Delta)
        ensures
            final(self).config() == old(self).config().with_url(url@),
            final(self).timeout == old(self).timeout,
            r.config() == final(self).config() && r.timeout == final(self).timeout,
    {
        self.url = url.to_owned();
        self.duplicate()
    }

    /// Sets the timeout, in seconds.
    pub fn set_timeout(&mut self, timeout: u64) -> (r: Delta)
        ensures
            final(self).config() == old(self).config(),
            final(self).timeout == timeout,
            r.config() == final(self).config() && r.timeout == final(self).timeout,
    {
        self.timeout = timeout;
        self.duplicate()
    }

    /// Replaces the default headers by the given pairs; if one is refused nothing changes.
    pub fn set_headers(&mut self, headers: Vec<(&str, &str)>) -> (r: Result<Delta, DeltaError>)
        ensures
            match r {
                Ok(d) => {
                    &&& pairs_ok(str_pairs(headers@))
                    &&& final(self).config() == old(self).config().with_headers(
                        stored_pairs(str_pairs(headers@)),
                    )
                    &&& final(self).timeout == old(self).timeout
                    &&& d.config() == final(self).config() && d.timeout == final(self).timeout
                },
                Err(e) => first_refusal(str_pairs(headers@), e) && *final(self) == *old(self),
            },
    {
        let stored = match validate_all(&headers) {
            Ok(v) => v,
            Err(e) => return Err(e),
        };
        let mut fresh = Headers::new();
        let mut i: usize = 0;
        let n = stored.len();
        while i < n
            invariant
                n == stored@.len(),
                i <= n,
                pairs_ok(str_pairs(headers@)),
                pairs_view(stored@) == stored_pairs(str_pairs(headers@)),
                fresh@ =~= pairs_view(stored@).take(i as int),
            decreases n - i,
        {
            proof {
                lemma_stored_pairs_valid(str_pairs(headers@));
                assert(entry_ok(pairs_view(stored@)[i as int]));
            }
            fresh.append_valid(stored[i].0.clone(), stored[i].1.clone());
            i = i + 1;
            assert(fresh@ =~= pairs_view(stored@).take(i as int));
        }
        assert(pairs_view(stored@).take(n as int) =~= pairs_view(stored@));
        self.headers = fresh;
        Ok(self.duplicate())
    }

    /// Sets a default header, replacing the values its name had.
    pub fn add_header(&mut self, key: &str, value: &str) -> (r: Result<Delta, DeltaError>)
        ensures
            match r {
                Ok(d) => {
                    &&& header_name_ok(key@) && header_value_ok(value@)
                    &&& final(self).config() == old(self).config().with_headers(
                        set_header(old(self).headers@, lower_name(key@), value@),
                    )
                    &&& final(self).timeout == old(self).timeout
                    &&& d.config() == final(self).config() && d.timeout == final(self).timeout
                },
                Err(e) => header_error_matches(key@, value@, e) && *final(self)
                    == *old(self),
            },
    {
        match validate_pair(key, value) {
            Ok((name, v)) => {
                proof {
                    lemma_lower_name_stored(key@);
                }
                self.headers.insert_valid(name, v);
                Ok(self.duplicate())
            },
            Err(e) => Err(e),
        }
    }

    /// Adds the pairs to the default headers, in order, keeping what each name had;
    /// if one is refused nothing changes.
    pub fn add_headers(&mut self, headers: Vec<(&str, &str)>) -> (r: Result<Delta, DeltaError>)
        ensures
            match r {
                Ok(d) => {
                    &&& pairs_ok(str_pairs(headers@))
                    &&& final(self).config() == old(self).config().with_headers(
                        old(self).headers@ + stored_pairs(str_pairs(headers@)),
                    )
                    &&& final(self).timeout == old(self).timeout
                    &&& d.config() == final(self).config() && d.timeout == final(self).timeout
                },
                Err(e) => first_refusal(str_pairs(headers@), e) && *final(self) == *old(self),
            },
    {
        let stored = match validate_all(&headers) {
            Ok(v) => v,
            Err(e) => return Err(e),
        };
        let ghost start = self.headers@;
        let mut i: usize = 0;
        let n = stored.len();
        while i < n
            invariant
                n == stored@.len(),
                i <= n,
                pairs_ok(str_pairs(headers@)),
                pairs_view(stored@) == stored_pairs(str_pairs(headers@)),
                self.url == old(self).url,
                self.timeout == old(self).timeout,
                self.user_agent == old(self).user_agent,
                self.content_type == old(self).content_type,
                start == old(self).headers@,
                self.headers@ =~= start + pairs_view(stored@).take(i as int),
            decreases n - i,
        {
            proof {
                lemma_stored_pairs_valid(str_pairs(headers@));
                assert(entry_ok(pairs_view(stored@)[i as int]));
            }
            self.headers.append_valid(stored[i].0.clone(), stored[i].1.clone());
            i = i + 1;
            assert(self.headers@ =~= start + pairs_view(stored@).take(i as int));
        }
        assert(pairs_view(stored@).take(n as int) =~= pairs_view(stored@));
        Ok(self.duplicate())
    }

    /// Drops every default header.
    pub fn remove_headers(&mut self) -> (r: Delta)
        ensures
            final(self).config() == old(self).config().with_headers(Seq::empty()),
            final(self).timeout == old(self).timeout,
            r.config() == final(self).config() && r.timeout == final(self).timeout,
    {
        self.headers = Headers::new();
        self.duplicate()
    }

    /// The request this client makes of a method, a route and an optional body: the
    /// URL is the base URL followed by the route.
    pub fn prepare(&self, method: Method, route: &str, data: Option<Vec<u8>>) -> (r: Result<Outgoing, DeltaError>)
        ensures
            match r {
                Ok(o) => entries_valid(self.headers@) && sendable(self.config(), data is Some) && built_from(o, self.config(), method, route@, data),
                Err(e) => !sendable(self.config(), data is Some) && e matches DeltaError::Header(HeaderError::Value(_)),
            },
    {
        build_request(&self.url, &self.user_agent, &self.content_type, &self.headers, method, route, data)
    }
}

/// The second-generation hyper client: the same configuration as `Delta`, with
/// requests addressed by full URL.
#[derive(Debug, Clone)]
pub struct Delta2 {
    pub url: String,
    pub timeout: u64,
    pub headers: Headers,
    pub user_agent: Option<String>,
    pub content_type: Option<String>,
}

impl Delta2 {
    pub open spec fn config(&self) -> ConfigView {
        config_of(self.url, self.user_agent, self.content_type, self.headers)
    }

    /// No base URL, no timeout, no default headers, no overrides.
    pub fn new() -> (r: Delta2)
        ensures
            r.config() == ConfigView::empty(),
            r.timeout == 0,
    {
        Delta2 {
            url: String::new(),
            timeout: 0,
            headers: Headers::new(),
            user_agent: None,
            content_type: None,
        }
    }

    /// The request this client makes of a method, a full URL and an optional body;
    /// the base URL is not used.
    pub fn prepare(&self, method: Method, url: &str, data: Option<Vec<u8>>) -> (r: Result<Outgoing, DeltaError>)
        ensures
            match r {
                Ok(o) => entries_valid(self.headers@) && sendable(self.config(), data is Some) && built_from(
                    o,
                    self.config().with_url(Seq::empty()),
                    method,
                    url@,
                    data,
                ),
                Err(e) => !sendable(self.config(), data is Some) && e matches DeltaError::Header(HeaderError::Value(_)),
            },
    {
        let none = String::new();
        let r = build_request(&none, &self.user_agent, &self.content_type, &self.headers, method, url, data);
        assert(config_of(none, self.user_agent, self.content_type, self.headers) == self.config().with_url(Seq::empty()));
        r
    }
}

} // verus!
