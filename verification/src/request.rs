//! The request that a call turns into, and the encoding of its
//! parameters.

use vstd::prelude::*;
use vstd::string::*;
use crate::outside::{form_encoded, pairs_view};
use crate::text::{decimal, render_u64};

verus! {

/// The HTTP method of a request.
#[derive(Clone, Copy, Debug, PartialEq, Eq, Structural)]
pub enum Method {
    Get,
    Post,
    Delete,
}

/// The body of a request, already encoded where the encoding is text.
#[derive(Clone, Debug, PartialEq, Eq)]
pub enum Body {
    /// No body at all.
    Empty,
    /// `application/x-www-form-urlencoded` text.
    Form(String),
    /// `application/json` text.
    Json(String),
    /// The bytes of a file, to be sent as `multipart/form-data`.
    Multipart(Vec<u8>),
}

/// One HTTP request, ready for a transport to send.
#[derive(Clone, Debug, PartialEq, Eq)]
pub struct Request {
    pub method: Method,
    /// The absolute URL, query string included.
    pub url: String,
    /// The value of the single `Authorization` header, if the request
    /// carries one.
    pub authorization: Option<String>,
    pub body: Body,
}

/// What a `Body` holds.
pub enum BodyView {
    Empty,
    Form(Seq<char>),
    Json(Seq<char>),
    Multipart(Seq<u8>),
}

/// What a `Request` holds.
pub struct RequestView {
    pub method: Method,
    pub url: Seq<char>,
    pub authorization: Option<Seq<char>>,
    pub body: BodyView,
}

impl View for Body {
    type V = BodyView;

    open spec fn view(&self) -> BodyView {
        match self {
            Body::Empty => BodyView::Empty,
            Body::Form(text) => BodyView::Form(text@),
            Body::Json(text) => BodyView::Json(text@),
            Body::Multipart(bytes) => BodyView::Multipart(bytes@),
        }
    }
}

impl View for Request {
    type V = RequestView;

    open spec fn view(&self) -> RequestView {
        RequestView {
            method: self.method,
            url: self.url@,
            authorization: match self.authorization {
                Some(value) => Some(value@),
                None => None,
            },
            body: self.body@,
        }
    }
}

/// The value of the `Authorization` header for a bearer token.
pub open spec fn bearer(token: Seq<char>) -> Seq<char> {
    "Bearer "@ + token
}

/// The URL of an API endpoint: the base, the API prefix, the path.
pub open spec fn api_url(base: Seq<char>, path: Seq<char>) -> Seq<char> {
    base + "/api/v1/"@ + path
}

/// A path with one numeric id substituted between two fixed parts.
pub open spec fn id_path(before: Seq<char>, id: u64, after: Seq<char>) -> Seq<char> {
    before + decimal(id as nat) + after
}

/// A boolean parameter: one pair with value `1` when set, nothing
/// when clear.
pub open spec fn flag(name: Seq<char>, on: bool) -> Seq<(Seq<char>, Seq<char>)> {
    if on {
        seq![(name, "1"@)]
    } else {
        Seq::empty()
    }
}

/// An optional parameter: one pair when present, nothing when absent.
pub open spec fn optional(name: Seq<char>, value: Option<Seq<char>>) -> Seq<
    (Seq<char>, Seq<char>),
> {
    match value {
        Some(v) => seq![(name, v)],
        None => Seq::empty(),
    }
}

/// An array parameter as pairs: the plain name for a single element,
/// otherwise the name followed by `[]`, once for each element in order.
pub open spec fn array_pairs(name: Seq<char>, values: Seq<u64>) -> Seq<(Seq<char>, Seq<char>)> {
    if values.len() == 1 {
        seq![(name, decimal(values[0] as nat))]
    } else {
        Seq::new(values.len(), |i: int| (name + "[]"@, decimal(values[i] as nat)))
    }
}

/// The repeated form of an array parameter in a query string:
/// `name[]=v` for each element, joined by `&`.
pub open spec fn repeated_query(name: Seq<char>, values: Seq<u64>) -> Seq<char>
    decreases values.len(),
{
    if values.len() == 0 {
        Seq::empty()
    } else if values.len() == 1 {
        name + "[]="@ + decimal(values[0] as nat)
    } else {
        repeated_query(name, values.drop_last()) + "&"@ + name + "[]="@ + decimal(
            values.last() as nat,
        )
    }
}

/// An array parameter in a query string: `name=v` for a single
/// element, otherwise the repeated form.
pub open spec fn array_query(name: Seq<char>, values: Seq<u64>) -> Seq<char> {
    if values.len() == 1 {
        name + "="@ + decimal(values[0] as nat)
    } else {
        repeated_query(name, values)
    }
}

/// What query parameters add to an address: nothing where there is
/// none, otherwise `?` and the parameters in form encoding.
pub open spec fn query_suffix(params: Seq<(Seq<char>, Seq<char>)>) -> Seq<char> {
    if params.len() == 0 {
        Seq::empty()
    } else {
        "?"@ + form_encoded(params)
    }
}

/// Appends a boolean parameter to `params`.
pub fn push_flag(params: &mut Vec<(String, String)>, name: &str, on: bool)
    ensures
        pairs_view(final(params)@) == pairs_view(old(params)@) + flag(name@, on),
{
    if on {
        params.push((String::from_str(name), String::from_str("1")));
    }
    assert(pairs_view(params@) =~= pairs_view(old(params)@) + flag(name@, on));
}

/// Appends a parameter with the given value to `params`.
pub fn push_pair(params: &mut Vec<(String, String)>, name: &str, value: &str)
    ensures
        pairs_view(final(params)@) == pairs_view(old(params)@).push((name@, value@)),
{
    params.push((String::from_str(name), String::from_str(value)));
    assert(pairs_view(params@) =~= pairs_view(old(params)@).push((name@, value@)));
}

/// Appends an array parameter to `params`.
pub fn push_array(params: &mut Vec<(String, String)>, name: &str, values: &Vec<u64>)
    ensures
        pairs_view(final(params)@) == pairs_view(old(params)@) + array_pairs(name@, values@),
{
    if values.len() == 1 {
        let value = render_u64(values[0]);
        push_pair(params, name, value.as_str());
        assert(pairs_view(params@) =~= pairs_view(old(params)@) + array_pairs(name@, values@));
    } else {
        let mut key = String::from_str(name);
        key.append("[]");
        let mut i: usize = 0;
        while i < values.len()
            invariant
                i <= values.len(),
                values.len() != 1,
                key@ == name@ + "[]"@,
                pairs_view(params@) == pairs_view(old(params)@) + array_pairs(
                    name@,
                    values@,
                ).take(i as int),
            decreases values.len() - i,
        {
            let value = render_u64(values[i]);
            push_pair(params, key.as_str(), value.as_str());
            assert(pairs_view(params@) =~= pairs_view(old(params)@) + array_pairs(
                name@,
                values@,
            ).take(i + 1));
            i += 1;
        }
        assert(array_pairs(name@, values@).take(i as int) =~= array_pairs(name@, values@));
    }
}

/// Renders an array parameter for a query string.
pub fn render_array_query(name: &str, values: &Vec<u64>) -> (r: String)
    ensures
        r@ == array_query(name@, values@),
{
    let mut out = String::new();
    if values.len() == 1 {
        out.append(name);
        out.append("=");
        out.append(render_u64(values[0]).as_str());
        assert(out@ =~= array_query(name@, values@));
    } else {
        let mut i: usize = 0;
        while i < values.len()
            invariant
                i <= values.len(),
                out@ == repeated_query(name@, values@.take(i as int)),
            decreases values.len() - i,
        {
            let ghost prefix = values@.take(i as int);
            let ghost next = values@.take(i + 1);
            proof {
                assert(next.drop_last() =~= prefix);
                assert(next.last() == values@[i as int]);
            }
            if i > 0 {
                out.append("&");
            }
            out.append(name);
            out.append("[]=");
            out.append(render_u64(values[i]).as_str());
            assert(out@ =~= repeated_query(name@, next)) by {
                if i > 0 {
                    assert(out@ =~= repeated_query(name@, prefix) + "&"@ + name@ + "[]="@
                        + decimal(values@[i as int] as nat));
                } else {
                    assert(repeated_query(name@, prefix) =~= Seq::<char>::empty());
                    assert(out@ =~= name@ + "[]="@ + decimal(values@[i as int] as nat));
                }
            }
            i += 1;
        }
        assert(values@.take(i as int) =~= values@);
    }
    out
}

/// The URL of an endpoint is the base, then `/api/v1/`, then the path,
/// and nothing else.
pub proof fn lemma_api_url_form(base: Seq<char>, path: Seq<char>)
    ensures
        api_url(base, path) == base + seq!['/', 'a', 'p', 'i', '/', 'v', '1', '/'] + path,
        api_url(base, path).len() == base.len() + 8 + path.len(),
        api_url(base, path).subrange(0, base.len() as int) == base,
        api_url(base, path).subrange(base.len() as int + 8, api_url(base, path).len() as int) == path,
{
    reveal_strlit("/api/v1/");
    assert("/api/v1/"@ =~= seq!['/', 'a', 'p', 'i', '/', 'v', '1', '/']);
    assert(api_url(base, path).subrange(0, base.len() as int) =~= base);
    assert(api_url(base, path).subrange(base.len() as int + 8, api_url(base, path).len() as int)
        =~= path);
}

/// A boolean parameter that is clear contributes nothing; one that is
/// set contributes exactly one pair, whose value is `1`.
pub proof fn lemma_flag_on_the_wire(name: Seq<char>, on: bool)
    ensures
        !on ==> flag(name, on).len() == 0,
        on ==> flag(name, on).len() == 1 && flag(name, on)[0] == (name, seq!['1']),
{
    reveal_strlit("1");
    assert("1"@ =~= seq!['1']);
}

/// An array of one element takes the scalar form, under the plain
/// name; an array of any other length takes one pair for each element,
/// in order, each under the name followed by `[]`.
pub proof fn lemma_array_pairs_form(name: Seq<char>, values: Seq<u64>)
    ensures
        values.len() == 1 ==> array_pairs(name, values) == seq![
            (name, decimal(values[0] as nat)),
        ],
        values.len() != 1 ==> array_pairs(name, values).len() == values.len(),
        values.len() != 1 ==> forall|i: int|
            0 <= i < values.len() ==> #[trigger] array_pairs(name, values)[i] == (
                name + seq!['[', ']'],
                decimal(values[i] as nat),
            ),
{
    reveal_strlit("[]");
    assert("[]"@ =~= seq!['[', ']']);
}

/// In a query string, an array of one element reads `name=v`; an array
/// of two reads `name[]=v&name[]=w`, and every further element appends
/// `&name[]=` and its value.
pub proof fn lemma_array_query_form(name: Seq<char>, values: Seq<u64>)
    ensures
        values.len() == 1 ==> array_query(name, values) == name + seq!['='] + decimal(
            values[0] as nat,
        ),
        values.len() >= 2 ==> array_query(name, values) == array_query_prefix(name, values)
            + seq!['&'] + name + seq!['[', ']', '='] + decimal(values.last() as nat),
        values.len() == 2 ==> array_query(name, values) == name + seq!['[', ']', '=']
            + decimal(values[0] as nat) + seq!['&'] + name + seq!['[', ']', '='] + decimal(
            values[1] as nat,
        ),
{
    reveal_strlit("=");
    reveal_strlit("&");
    reveal_strlit("[]=");
    assert("="@ =~= seq!['=']);
    assert("&"@ =~= seq!['&']);
    assert("[]="@ =~= seq!['[', ']', '=']);
    if values.len() == 2 {
        assert(values.drop_last().len() == 1);
        assert(values.drop_last()[0] == values[0]);
        assert(values.last() == values[1]);
        assert(repeated_query(name, values.drop_last()) == name + "[]="@ + decimal(
            values[0] as nat,
        ));
    }
}

/// The repeated form of all elements but the last.
pub open spec fn array_query_prefix(name: Seq<char>, values: Seq<u64>) -> Seq<char> {
    repeated_query(name, values.drop_last())
}

} // verus!
