use vstd::prelude::*;
use crate::results::{DeltaError, HeaderError};

verus! {

/// A byte that may stand in a header name, before case folding.
pub open spec fn is_name_char(c: char) -> bool {
    ('a' <= c && c <= 'z') || ('A' <= c && c <= 'Z') || ('0' <= c && c <= '9') || c == '!'
        || c == '"' || c == '#' || c == '$' || c == '%' || c == '&' || c == '\'' || c == '*'
        || c == '+' || c == '-' || c == '.' || c == '^' || c == '_' || c == '`' || c == '|'
        || c == '~'
}

/// The header-name grammar: one to 65535 token characters.
pub open spec fn header_name_ok(s: Seq<char>) -> bool {
    &&& 1 <= s.len() <= 65535
    &&& forall|i: int| 0 <= i < s.len() ==> #[trigger] is_name_char(s[i])
}

/// A character that may stand in a header value: visible, a space, or a tab.
pub open spec fn is_value_char(c: char) -> bool {
    (' ' <= c && c != '\x7f') || c == '\t'
}

/// The header-value grammar.
pub open spec fn header_value_ok(s: Seq<char>) -> bool {
    forall|i: int| 0 <= i < s.len() ==> #[trigger] is_value_char(s[i])
}

pub open spec fn lower_char(c: char) -> char {
    if 'A' <= c && c <= 'Z' {
        ((c as u32) + 32) as char
    } else {
        c
    }
}

/// A header name in the lower-case form under which it is stored and compared.
pub open spec fn lower_name(s: Seq<char>) -> Seq<char> {
    Seq::new(s.len(), |i: int| lower_char(s[i]))
}

} // verus!

verus! {

/// The entries of `h` whose name is not `name`, in their order.
pub open spec fn without(h: Seq<(Seq<char>, Seq<char>)>, name: Seq<char>) -> Seq<
    (Seq<char>, Seq<char>),
>
    decreases h.len(),
{
    if h.len() == 0 {
        h
    } else {
        let rest = without(h.drop_last(), name);
        if h.last().0 == name {
            rest
        } else {
            rest.push(h.last())
        }
    }
}

/// Sets `name` to the one value `value`, dropping the values it had.
pub open spec fn set_header(h: Seq<(Seq<char>, Seq<char>)>, name: Seq<char>, value: Seq<char>) -> Seq<
    (Seq<char>, Seq<char>),
> {
    without(h, name).push((name, value))
}

pub open spec fn pairs_view(v: Seq<(String, String)>) -> Seq<(Seq<char>, Seq<char>)> {
    Seq::new(v.len(), |i: int| (v[i].0@, v[i].1@))
}

/// Relies on hyper's `HeaderName::from_bytes`, which accepts one to 65535 token bytes
/// and stores them in lower case; the name is read back with `HeaderName::as_str`.
#[verifier::external_body]
fn parse_header_name(key: &str) -> (r: Result<String, hyper::header::InvalidHeaderName>)
    ensures
        match r {
            Ok(name) => header_name_ok(key@) && name@ == lower_name(key@),
            Err(_) => !header_name_ok(key@),
        },
{
    hyper::header::HeaderName::from_bytes(key.as_bytes()).map(|name| name.as_str().to_string())
}

/// Relies on hyper's `HeaderValue::from_str`, which accepts a string exactly when
/// every byte is a tab, or is at least 32 and not 127.
#[verifier::external_body]
fn check_header_value(value: &str) -> (r: Result<(), hyper::header::InvalidHeaderValue>)
    ensures
        r is Ok <==> header_value_ok(value@),
{
    hyper::header::HeaderValue::from_str(value).map(|_| ())
}

/// Checks a header name against the transport's grammar and gives its stored form.
pub fn validate_name(key: &str) -> (r: Result<String, HeaderError>)
    ensures
        match r {
            Ok(name) => header_name_ok(key@) && name@ == lower_name(key@),
            Err(e) => !header_name_ok(key@) && e is Name,
        },
{
    match parse_header_name(key) {
        Ok(name) => Ok(name),
        Err(e) => Err(HeaderError::Name(e)),
    }
}

/// Checks a header value against the transport's grammar.
pub fn validate_value(value: &str) -> (r: Result<(), HeaderError>)
    ensures
        match r {
            Ok(_) => header_value_ok(value@),
            Err(e) => !header_value_ok(value@) && e is Value,
        },
{
    match check_header_value(value) {
        Ok(_) => Ok(()),
        Err(e) => Err(HeaderError::Value(e)),
    }
}

/// The error that a refused header gives: the name is checked before the value.
pub open spec fn header_error_matches(key: Seq<char>, value: Seq<char>, e: DeltaError) -> bool {
    if !header_name_ok(key) {
        e matches DeltaError::Header(HeaderError::Name(_))
    } else {
        !header_value_ok(value) && e matches DeltaError::Header(HeaderError::Value(_))
    }
}

/// Checks a key and a value, the key first, and gives the pair as it is sent.
pub fn validate_pair(key: &str, value: &str) -> (r: Result<(String, String), DeltaError>)
    ensures
        match r {
            Ok(p) => header_name_ok(key@) && header_value_ok(value@) && p.0@ == lower_name(key@)
                && p.1@ == value@,
            Err(e) => header_error_matches(key@, value@, e),
        },
{
    let name = match validate_name(key) {
        Ok(n) => n,
        Err(e) => return Err(DeltaError::Header(e)),
    };
    match validate_value(value) {
        Ok(_) => Ok((name, value.to_owned())),
        Err(e) => Err(DeltaError::Header(e)),
    }
}

/// A header key with a space in it is refused, and the refusal is a name error,
/// whatever the value: the header is never stored, so no request carries it.
pub proof fn space_in_name_is_refused(key: Seq<char>, value: Seq<char>, i: int, e: DeltaError)
    requires
        0 <= i < key.len(),
        key[i] == ' ',
        header_error_matches(key, value, e),
    ensures
        !header_name_ok(key),
        e matches DeltaError::Header(HeaderError::Name(_)),
{
    assert(!is_name_char(key[i]));
}

/// The values stored under `name`, in order.
pub open spec fn values_of(h: Seq<(Seq<char>, Seq<char>)>, name: Seq<char>) -> Seq<Seq<char>>
    decreases h.len(),
{
    if h.len() == 0 {
        Seq::empty()
    } else if h.last().0 == name {
        values_of(h.drop_last(), name).push(h.last().1)
    } else {
        values_of(h.drop_last(), name)
    }
}

pub proof fn lemma_values_push(h: Seq<(Seq<char>, Seq<char>)>, e: (Seq<char>, Seq<char>), n: Seq<char>)
    ensures
        values_of(h.push(e), n) == if e.0 == n {
            values_of(h, n).push(e.1)
        } else {
            values_of(h, n)
        },
{
    assert(h.push(e).drop_last() =~= h);
}

pub proof fn lemma_values_without(h: Seq<(Seq<char>, Seq<char>)>, m: Seq<char>, n: Seq<char>)
    ensures
        values_of(without(h, m), n) == if n == m {
            Seq::<Seq<char>>::empty()
        } else {
            values_of(h, n)
        },
    decreases h.len(),
{
    if h.len() > 0 {
        lemma_values_without(h.drop_last(), m, n);
        if h.last().0 != m {
            lemma_values_push(without(h.drop_last(), m), h.last(), n);
        }
    }
}

pub proof fn lemma_values_set(h: Seq<(Seq<char>, Seq<char>)>, m: Seq<char>, v: Seq<char>, n: Seq<char>)
    ensures
        values_of(set_header(h, m, v), n) == if n == m {
            seq![v]
        } else {
            values_of(h, n)
        },
{
    lemma_values_without(h, m, n);
    lemma_values_push(without(h, m), (m, v), n);
    if n == m {
        assert(Seq::<Seq<char>>::empty().push(v) =~= seq![v]);
    }
}

/// A stored entry: the name is valid and in lower case, the value is valid.
pub open spec fn entry_ok(e: (Seq<char>, Seq<char>)) -> bool {
    &&& header_name_ok(e.0)
    &&& e.0 == lower_name(e.0)
    &&& header_value_ok(e.1)
}

/// Every entry of a header list is a stored entry.
pub open spec fn entries_valid(h: Seq<(Seq<char>, Seq<char>)>) -> bool {
    forall|i: int| 0 <= i < h.len() ==> #[trigger] entry_ok(h[i])
}

proof fn lemma_without_valid(h: Seq<(Seq<char>, Seq<char>)>, name: Seq<char>)
    requires
        entries_valid(h),
    ensures
        entries_valid(without(h, name)),
    decreases h.len(),
{
    if h.len() > 0 {
        assert(entries_valid(h.drop_last())) by {
            assert forall|i: int| 0 <= i < h.drop_last().len() implies #[trigger] entry_ok(
                h.drop_last()[i],
            ) by {
                assert(entry_ok(h[i]));
            }
        }
        lemma_without_valid(h.drop_last(), name);
        assert(entry_ok(h[h.len() - 1]));
    }
}

pub proof fn lemma_set_valid(h: Seq<(Seq<char>, Seq<char>)>, m: Seq<char>, v: Seq<char>)
    requires
        entries_valid(h),
        entry_ok((m, v)),
    ensures
        entries_valid(set_header(h, m, v)),
{
    lemma_without_valid(h, m);
    let w = without(h, m);
    assert forall|i: int| 0 <= i < w.push((m, v)).len() implies #[trigger] entry_ok(
        w.push((m, v))[i],
    ) by {
        if i < w.len() {
            assert(entry_ok(w[i]));
        }
    }
}

/// In a list of stored entries nothing is stored under a name that is not in
/// lower case.
pub proof fn lemma_values_lower(h: Seq<(Seq<char>, Seq<char>)>, n: Seq<char>)
    requires
        entries_valid(h),
        n != lower_name(n),
    ensures
        values_of(h, n) == Seq::<Seq<char>>::empty(),
    decreases h.len(),
{
    if h.len() > 0 {
        assert(entries_valid(h.drop_last())) by {
            assert forall|i: int| 0 <= i < h.drop_last().len() implies #[trigger] entry_ok(
                h.drop_last()[i],
            ) by {
                assert(entry_ok(h[i]));
            }
        }
        assert(entry_ok(h[h.len() - 1]));
        lemma_values_lower(h.drop_last(), n);
    }
}

/// A multimap of header names to values; a name may repeat. Every name passes the
/// name grammar and is stored in lower case, and every value passes the value
/// grammar: the only ways in check both.
#[derive(Debug)]
pub struct Headers {
    entries: Vec<(String, String)>,
}

impl View for Headers {
    type V = Seq<(Seq<char>, Seq<char>)>;

    closed spec fn view(&self) -> Seq<(Seq<char>, Seq<char>)> {
        pairs_view(self.entries@)
    }
}

impl Clone for Headers {
    fn clone(&self) -> (r: Headers)
        ensures
            r@ == self@,
    {
        self.duplicate()
    }
}

impl Headers {
    #[verifier::type_invariant]
    spec fn stored_entries_valid(self) -> bool {
        entries_valid(pairs_view(self.entries@))
    }

    /// An empty header list.
    pub fn new() -> (r: Headers)
        ensures
            r@ == Seq::<(Seq<char>, Seq<char>)>::empty(),
    {
        let r = Headers { entries: Vec::new() };
        assert(r@ =~= Seq::<(Seq<char>, Seq<char>)>::empty());
        r
    }

    pub fn len(&self) -> (r: usize)
        ensures
            r == self@.len(),
    {
        self.entries.len()
    }

    /// The `i`-th entry, copied out.
    pub fn entry(&self, i: usize) -> (r: (String, String))
        requires
            i < self@.len(),
        ensures
            (r.0@, r.1@) == self@[i as int],
    {
        let e = &self.entries[i];
        (e.0.clone(), e.1.clone())
    }

    /// A copy with the same entries; both hold stored entries only.
    pub fn duplicate(&self) -> (r: Headers)
        ensures
            r@ == self@,
            entries_valid(self@),
    {
        proof {
            use_type_invariant(self);
        }
        let mut out: Vec<(String, String)> = Vec::new();
        let mut i: usize = 0;
        while i < self.entries.len()
            invariant
                i <= self.entries@.len(),
                out@.len() == i,
                pairs_view(out@) =~= pairs_view(self.entries@).take(i as int),
                entries_valid(pairs_view(self.entries@)),
            decreases self.entries@.len() - i,
        {
            let e = &self.entries[i];
            let k = e.0.clone();
            let v = e.1.clone();
            out.push((k, v));
            i = i + 1;
            assert(pairs_view(out@) =~= pairs_view(self.entries@).take(i as int));
        }
        assert(entries_valid(pairs_view(out@))) by {
            assert forall|j: int| 0 <= j < pairs_view(out@).len() implies #[trigger] entry_ok(
                pairs_view(out@)[j],
            ) by {
                assert(entry_ok(pairs_view(self.entries@)[j]));
            }
        }
        Headers { entries: out }
    }

    /// Adds a stored entry, keeping the values its name already has.
    pub(crate) fn append_valid(&mut self, name: String, value: String)
        requires
            entry_ok((name@, value@)),
        ensures
            final(self)@ == old(self)@.push((name@, value@)),
    {
        proof {
            use_type_invariant(&*self);
        }
        let mut entries: Vec<(String, String)> = Vec::new();
        std::mem::swap(&mut entries, &mut self.entries);
        let ghost before = pairs_view(entries@);
        entries.push((name, value));
        assert(pairs_view(entries@) =~= before.push((name@, value@)));
        assert(entries_valid(pairs_view(entries@))) by {
            assert forall|j: int| 0 <= j < pairs_view(entries@).len() implies #[trigger] entry_ok(
                pairs_view(entries@)[j],
            ) by {
                if j < before.len() {
                    assert(entry_ok(before[j]));
                }
            }
        }
        self.entries = entries;
    }

    /// Checks a key and a value, the key first, and adds the header under its
    /// lower-case name, keeping the values that name already has. A refused header
    /// changes nothing.
    pub fn append(&mut self, key: &str, value: &str) -> (r: Result<(), DeltaError>)
        ensures
            match r {
                Ok(_) => header_name_ok(key@) && header_value_ok(value@) && final(self)@ == old(
                    self,
                )@.push((lower_name(key@), value@)),
                Err(e) => header_error_matches(key@, value@, e) && final(self)@ == old(self)@,
            },
    {
        match validate_pair(key, value) {
            Ok((name, v)) => {
                proof {
                    lemma_lower_name_stored(key@);
                }
                self.append_valid(name, v);
                Ok(())
            },
            Err(e) => Err(e),
        }
    }

    /// Drops every value stored under `name`.
    pub fn remove(&mut self, name: &String)
        ensures
            final(self)@ == without(old(self)@, name@),
    {
        proof {
            use_type_invariant(&*self);
        }
        let mut kept: Vec<(String, String)> = Vec::new();
        let mut i: usize = 0;
        while i < self.entries.len()
            invariant
                i <= self.entries@.len(),
                self@ == old(self)@,
                entries_valid(old(self)@),
                pairs_view(kept@) == without(old(self)@.take(i as int), name@),
            decreases self.entries@.len() - i,
        {
            let e = &self.entries[i];
            assert(old(self)@.take(i + 1).drop_last() =~= old(self)@.take(i as int));
            if e.0 != *name {
                kept.push((e.0.clone(), e.1.clone()));
                assert(pairs_view(kept@) =~= without(old(self)@.take(i as int), name@).push(
                    old(self)@[i as int],
                ));
            }
            i = i + 1;
        }
        assert(old(self)@.take(self.entries@.len() as int) =~= old(self)@);
        proof {
            lemma_without_valid(old(self)@, name@);
        }
        self.entries = kept;
    }

    /// Sets a stored entry's name to that one value: the last write to a name wins.
    pub(crate) fn insert_valid(&mut self, name: String, value: String)
        requires
            entry_ok((name@, value@)),
        ensures
            final(self)@ == set_header(old(self)@, name@, value@),
    {
        self.remove(&name);
        self.append_valid(name, value);
    }

    /// Checks a key and a value, the key first, and sets the lower-case name to that
    /// one value. A refused header changes nothing.
    pub fn insert(&mut self, key: &str, value: &str) -> (r: Result<(), DeltaError>)
        ensures
            match r {
                Ok(_) => header_name_ok(key@) && header_value_ok(value@) && final(self)@
                    == set_header(old(self)@, lower_name(key@), value@),
                Err(e) => header_error_matches(key@, value@, e) && final(self)@ == old(self)@,
            },
    {
        match validate_pair(key, value) {
            Ok((name, v)) => {
                proof {
                    lemma_lower_name_stored(key@);
                }
                self.insert_valid(name, v);
                Ok(())
            },
            Err(e) => Err(e),
        }
    }
}

/// A valid name in lower case is valid and stays as it is.
pub proof fn lemma_lower_name_stored(s: Seq<char>)
    requires
        header_name_ok(s),
    ensures
        header_name_ok(lower_name(s)),
        lower_name(lower_name(s)) == lower_name(s),
{
    assert(lower_name(lower_name(s)) =~= lower_name(s));
    assert forall|i: int| 0 <= i < lower_name(s).len() implies #[trigger] is_name_char(
        lower_name(s)[i],
    ) by {
        assert(is_name_char(s[i]));
    }
}

} // verus!

verus! {

/// One header as the caller wrote it, together with the form it is sent in.
#[derive(Debug)]
pub struct HeaderData {
    key: String,
    given: String,
    name: String,
    value: String,
}

impl View for HeaderData {
    /// The pair as given, then the pair as sent.
    type V = ((Seq<char>, Seq<char>), (Seq<char>, Seq<char>));

    closed spec fn view(&self) -> ((Seq<char>, Seq<char>), (Seq<char>, Seq<char>)) {
        ((self.key@, self.given@), (self.name@, self.value@))
    }
}

impl Clone for HeaderData {
    fn clone(&self) -> (r: HeaderData)
        ensures
            r@ == self@,
    {
        proof {
            use_type_invariant(self);
        }
        HeaderData {
            key: self.key.clone(),
            given: self.given.clone(),
            name: self.name.clone(),
            value: self.value.clone(),
        }
    }
}

impl HeaderData {
    #[verifier::type_invariant]
    spec fn checked(self) -> bool {
        &&& header_name_ok(self.key@)
        &&& self.name@ == lower_name(self.key@)
        &&& header_value_ok(self.given@)
        &&& self.value@ == self.given@
    }

    /// Validates a key and a value; the key is checked first.
    pub fn new(key: &str, value: &str) -> (r: Result<HeaderData, HeaderError>)
        ensures
            match r {
                Ok(d) => {
                    &&& header_name_ok(key@)
                    &&& header_value_ok(value@)
                    &&& d@ == ((key@, value@), (lower_name(key@), value@))
                },
                Err(HeaderError::Name(_)) => !header_name_ok(key@),
                Err(HeaderError::Value(_)) => header_name_ok(key@) && !header_value_ok(value@),
            },
    {
        let name = match validate_name(key) {
            Ok(n) => n,
            Err(e) => return Err(e),
        };
        match validate_value(value) {
            Ok(_) => {},
            Err(e) => return Err(e),
        }
        Ok(HeaderData { key: key.to_owned(), given: value.to_owned(), name, value: value.to_owned() })
    }

    /// The key and value as they were given.
    pub fn as_str(&self) -> (r: (String, String))
        ensures
            (r.0@, r.1@) == self@.0,
    {
        (self.key.clone(), self.given.clone())
    }

    /// The name in lower case and the value, as they go on the wire.
    pub fn as_header_value(&self) -> (r: (String, String))
        ensures
            (r.0@, r.1@) == self@.1,
    {
        (self.name.clone(), self.value.clone())
    }

    /// A header list that holds this header alone.
    pub fn as_header_map(&self) -> (r: Headers)
        ensures
            r@ == seq![self@.1],
    {
        let mut h = Headers::new();
        proof {
            use_type_invariant(self);
            lemma_lower_name_stored(self.key@);
        }
        h.append_valid(self.name.clone(), self.value.clone());
        h
    }
}

} // verus!
