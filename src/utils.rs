use vstd::prelude::*;
use vstd::string::*;
use vstd::utf8::*;

verus! {

/// An element of an array field: a string's content, or the compact JSON text of
/// any other value.
#[derive(Debug, Clone)]
pub enum ItemValue {
    Text(String),
    Scalar(String),
}

/// A field of a flat record, as the query encoder sees it. `Text` holds a string's
/// content (no quotes, no escapes); `Scalar` the compact JSON text of a number or
/// a boolean.
#[derive(Debug, Clone)]
pub enum FieldValue {
    Null,
    Object,
    Text(String),
    Scalar(String),
    Array(Vec<ItemValue>),
}

/// The plain-value form of a `FieldValue`: a value field as the text it stands for.
pub enum FieldView {
    Null,
    Object,
    Value(Seq<char>),
    Array(Seq<Seq<char>>),
}

/// The text an element stands for in a query.
pub open spec fn item_text(i: ItemValue) -> Seq<char> {
    match i {
        ItemValue::Text(s) => s@,
        ItemValue::Scalar(s) => s@,
    }
}

pub open spec fn field_view(v: FieldValue) -> FieldView {
    match v {
        FieldValue::Null => FieldView::Null,
        FieldValue::Object => FieldView::Object,
        FieldValue::Text(t) => FieldView::Value(t@),
        FieldValue::Scalar(t) => FieldView::Value(t@),
        FieldValue::Array(items) => FieldView::Array(
            Seq::new(items@.len(), |i: int| item_text(items@[i])),
        ),
    }
}

pub open spec fn record_view(r: Seq<(String, FieldValue)>) -> Seq<(Seq<char>, FieldView)> {
    Seq::new(r.len(), |i: int| (r[i].0@, field_view(r[i].1)))
}

pub open spec fn hex_digit(d: u8) -> char {
    if d < 10 {
        (48 + d) as char
    } else {
        (55 + d) as char
    }
}

/// Bytes that stand for themselves in a percent-encoded text.
pub open spec fn is_unreserved(b: u8) -> bool {
    (48 <= b <= 57) || (65 <= b <= 90) || (97 <= b <= 122) || b == 45 || b == 46 || b == 95
        || b == 126
}

/// Percent-encoding: each byte but the unreserved ones becomes `%` and two upper-case
/// hex digits.
pub open spec fn percent_encode(b: Seq<u8>) -> Seq<char>
    decreases b.len(),
{
    if b.len() == 0 {
        Seq::empty()
    } else {
        let last = b.last();
        percent_encode(b.drop_last()) + if is_unreserved(last) {
            seq![last as char]
        } else {
            seq!['%', hex_digit(last / 16), hex_digit(last % 16)]
        }
    }
}

/// A value as it appears in the query: percent-encoded only when asked.
pub open spec fn encoded_text(s: Seq<char>, encode: bool) -> Seq<char> {
    if encode {
        percent_encode(encode_utf8(s))
    } else {
        s
    }
}

/// The `key=value` pairs one field contributes: none for null or nested records,
/// one for a scalar, one `key[]` pair per element of an array.
pub open spec fn field_entries(key: Seq<char>, v: FieldView, encode: bool) -> Seq<
    (Seq<char>, Seq<char>),
> {
    match v {
        FieldView::Value(t) => seq![(key, encoded_text(t, encode))],
        FieldView::Array(items) => Seq::new(
            items.len(),
            |i: int| (key + "[]"@, encoded_text(items[i], encode)),
        ),
        _ => Seq::empty(),
    }
}

pub open spec fn query_entries(fields: Seq<(Seq<char>, FieldView)>, encode: bool) -> Seq<
    (Seq<char>, Seq<char>),
>
    decreases fields.len(),
{
    if fields.len() == 0 {
        Seq::empty()
    } else {
        query_entries(fields.drop_last(), encode) + field_entries(
            fields.last().0,
            fields.last().1,
            encode,
        )
    }
}

pub open spec fn separator(first: bool) -> Seq<char> {
    if first {
        "?"@
    } else {
        "&"@
    }
}

/// Pairs joined into a query: `?` before the first, `&` before each other one.
pub open spec fn join_query(e: Seq<(Seq<char>, Seq<char>)>) -> Seq<char>
    decreases e.len(),
{
    if e.len() == 0 {
        Seq::empty()
    } else {
        join_query(e.drop_last()) + separator(e.len() == 1) + e.last().0 + "="@ + e.last().1
    }
}

/// The query string of a record.
pub open spec fn query_string(fields: Seq<(Seq<char>, FieldView)>, encode: bool) -> Seq<char> {
    join_query(query_entries(fields, encode))
}

/// Relies on urlencoding's `encode`: each UTF-8 byte but ASCII letters, digits and
/// `-._~` becomes `%` and two upper-case hex digits.
#[verifier::external_body]
fn url_encode(s: &str) -> (r: String)
    ensures
        r@ == percent_encode(encode_utf8(s@)),
{
    urlencoding::encode(s).into_owned()
}

/// The text, percent-encoded when `encode` is set and unchanged otherwise.
pub fn encode_str(value: &str, encode: bool) -> (r: String)
    ensures
        r@ == encoded_text(value@, encode),
{
    if encode {
        url_encode(value)
    } else {
        value.to_owned()
    }
}

/// An array element as it goes into a query: its text, percent-encoded when
/// `encode` is set.
pub fn encode_value(item: &ItemValue, encode: bool) -> (r: String)
    ensures
        r@ == encoded_text(item_text(*item), encode),
{
    match item {
        ItemValue::Text(s) => encode_str(s.as_str(), encode),
        ItemValue::Scalar(s) => encode_str(s.as_str(), encode),
    }
}

proof fn lemma_join_push(e: Seq<(Seq<char>, Seq<char>)>, x: (Seq<char>, Seq<char>))
    ensures
        join_query(e.push(x)) == join_query(e) + separator(e.len() == 0) + x.0 + "="@ + x.1,
{
    assert(e.push(x).drop_last() =~= e);
}

fn push_entry(
    out: &mut String,
    first: bool,
    key: &str,
    value: &str,
)
    ensures
        final(out)@ == old(out)@ + separator(first) + key@ + "="@ + value@,
{
    if first {
        out.append("?");
    } else {
        out.append("&");
    }
    out.append(key);
    out.append("=");
    out.append(value);
}

/// Turns a flat record into a query string. Null fields and nested records are
/// skipped; an array gives one `key[]=value` pair per element, in order; a string
/// contributes its content, with no surrounding quotes; values are percent-encoded
/// when `encode` is set (keys never are). The first pair follows `?`, each other one `&`; a record with no
/// pair gives the empty string.
pub fn struct_to_url(query: &Vec<(String, FieldValue)>, encode: bool) -> (r: String)
    ensures
        r@ == query_string(record_view(query@), encode),
{
    let ghost fields = record_view(query@);
    let mut out = String::new();
    let mut started = false;
    let ghost mut emitted: Seq<(Seq<char>, Seq<char>)> = Seq::empty();
    let mut i: usize = 0;
    while i < query.len()
        invariant
            i <= query@.len(),
            fields == record_view(query@),
            emitted == query_entries(fields.take(i as int), encode),
            out@ == join_query(emitted),
            started == (emitted.len() > 0),
        decreases query@.len() - i,
    {
        assert(fields.take(i + 1).drop_last() =~= fields.take(i as int));
        let key = &query[i].0;
        match &query[i].1 {
            FieldValue::Text(t) | FieldValue::Scalar(t) => {
                let v = encode_str(t.as_str(), encode);
                proof {
                    lemma_join_push(emitted, (key@, v@));
                }
                push_entry(&mut out, !started, key.as_str(), v.as_str());
                proof {
                    emitted = emitted.push((key@, v@));
                }
                started = true;
            },
            FieldValue::Array(items) => {
                let ghost base = emitted;
                let ghost iv = Seq::new(items@.len(), |k: int| item_text(items@[k]));
                let item_key = key.clone().concat("[]");
                let mut j: usize = 0;
                while j < items.len()
                    invariant
                        j <= items@.len(),
                        iv == Seq::new(items@.len(), |k: int| item_text(items@[k])),
                        item_key@ == key@ + "[]"@,
                        emitted == base + Seq::new(
                            j as nat,
                            |k: int| (key@ + "[]"@, encoded_text(iv[k], encode)),
                        ),
                        out@ == join_query(emitted),
                        started == (emitted.len() > 0),
                    decreases items@.len() - j,
                {
                    let v = encode_value(&items[j], encode);
                    proof {
                        lemma_join_push(emitted, (item_key@, v@));
                    }
                    push_entry(&mut out, !started, item_key.as_str(), v.as_str());
                    proof {
                        emitted = emitted.push((item_key@, v@));
                        assert(emitted =~= base + Seq::new(
                            (j + 1) as nat,
                            |k: int| (key@ + "[]"@, encoded_text(iv[k], encode)),
                        ));
                    }
                    started = true;
                    j = j + 1;
                }
                assert(emitted =~= base + field_entries(key@, fields[i as int].1, encode));
            },
            _ => {
                assert(field_entries(key@, fields[i as int].1, encode) =~= Seq::empty());
                assert(emitted =~= emitted + field_entries(key@, fields[i as int].1, encode));
            },
        }
        i = i + 1;
    }
    assert(fields.take(query@.len() as int) =~= fields);
    out
}

/// The encoder keeps no state between calls: equal records and switches give equal
/// query strings.
pub proof fn query_is_deterministic(
    a: Seq<(Seq<char>, FieldView)>,
    b: Seq<(Seq<char>, FieldView)>,
    encode: bool,
    ra: Seq<char>,
    rb: Seq<char>,
)
    requires
        a == b,
        ra == query_string(a, encode),
        rb == query_string(b, encode),
    ensures
        ra == rb,
{
}

proof fn lemma_entries_concat(
    a: Seq<(Seq<char>, FieldView)>,
    b: Seq<(Seq<char>, FieldView)>,
    encode: bool,
)
    ensures
        query_entries(a + b, encode) == query_entries(a, encode) + query_entries(b, encode),
    decreases b.len(),
{
    if b.len() == 0 {
        assert(a + b =~= a);
        assert(query_entries(a, encode) + query_entries(b, encode) =~= query_entries(a, encode));
    } else {
        assert((a + b).drop_last() =~= a + b.drop_last());
        lemma_entries_concat(a, b.drop_last(), encode);
        assert(query_entries(a + b, encode) =~= query_entries(a, encode) + query_entries(b, encode));
    }
}

/// Each field's pairs stand together, in field order: the pairs of the fields
/// before it, then its own, then those of the fields after it.
pub proof fn field_pairs_are_contiguous(fields: Seq<(Seq<char>, FieldView)>, i: int, encode: bool)
    requires
        0 <= i < fields.len(),
    ensures
        query_entries(fields, encode) == query_entries(fields.take(i), encode) + field_entries(
            fields[i].0,
            fields[i].1,
            encode,
        ) + query_entries(fields.skip(i + 1), encode),
{
    assert(fields =~= fields.take(i + 1) + fields.skip(i + 1));
    lemma_entries_concat(fields.take(i + 1), fields.skip(i + 1), encode);
    assert(fields.take(i + 1).drop_last() =~= fields.take(i));
}

} // verus!
