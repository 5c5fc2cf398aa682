//! Requests as plain values: what the two clients send, and how a status is read.
use vstd::prelude::*;
use vstd::string::*;

use crate::text::{chars_of, decimal, string_of};

verus! {

#[derive(Debug, Clone, Copy, PartialEq, Eq, Structural)]
pub enum Method {
    Get,
    Post,
    Put,
}

/// How a request proves who sends it.
#[derive(Debug, PartialEq, Eq)]
pub enum Auth {
    Anonymous,
    /// The key in an `x-api-key` header.
    ApiKey(String),
    /// The key in an `authorization` header, after the word `Bearer`.
    Bearer(String),
}

/// A JSON value as the requests need it.
#[derive(Debug, PartialEq, Eq)]
pub enum Json {
    Text(String),
    Number(u32),
    Bool(bool),
    List(Vec<Json>),
    /// Names and values, in order.
    Object(Vec<(String, Json)>),
}

#[derive(Debug, PartialEq, Eq)]
pub struct Request {
    pub method: Method,
    pub url: String,
    pub auth: Auth,
    pub body: Option<Json>,
}

// ---------------------------------------------------------------------------
// Models
// ---------------------------------------------------------------------------

/// Mathematical model of [`Auth`].
pub enum AuthView {
    Anonymous,
    ApiKey(Seq<char>),
    Bearer(Seq<char>),
}

impl View for Auth {
    type V = AuthView;

    open spec fn view(&self) -> AuthView {
        match *self {
            Auth::Anonymous => AuthView::Anonymous,
            Auth::ApiKey(key) => AuthView::ApiKey(key@),
            Auth::Bearer(key) => AuthView::Bearer(key@),
        }
    }
}

/// Mathematical model of [`Json`].
pub enum JsonView {
    Text(Seq<char>),
    Number(nat),
    Bool(bool),
    List(Seq<JsonView>),
    Object(Seq<(Seq<char>, JsonView)>),
}

impl Json {
    pub open spec fn deep(self) -> JsonView
        decreases self,
    {
        match self {
            Json::Text(text) => JsonView::Text(text@),
            Json::Number(n) => JsonView::Number(n as nat),
            Json::Bool(b) => JsonView::Bool(b),
            Json::List(items) => JsonView::List(
                Seq::new(
                    items@.len(),
                    |i: int|
                        if 0 <= i < items@.len() {
                            items@[i].deep()
                        } else {
                            JsonView::Bool(false)
                        },
                ),
            ),
            Json::Object(members) => JsonView::Object(
                Seq::new(
                    members@.len(),
                    |i: int|
                        if 0 <= i < members@.len() {
                            (members@[i].0@, members@[i].1.deep())
                        } else {
                            (seq![], JsonView::Bool(false))
                        },
                ),
            ),
        }
    }
}

/// Mathematical model of [`Request`].
pub struct RequestView {
    pub method: Method,
    pub url: Seq<char>,
    pub auth: AuthView,
    pub body: Option<JsonView>,
}

impl View for Request {
    type V = RequestView;

    open spec fn view(&self) -> RequestView {
        RequestView {
            method: self.method,
            url: self.url@,
            auth: self.auth@,
            body: match self.body {
                Some(json) => Some(json.deep()),
                None => None,
            },
        }
    }
}

/// A text as JSON.
pub fn json_text(text: &str) -> (r: Json)
    ensures
        r.deep() == JsonView::Text(text@),
{
    Json::Text(text.to_owned())
}

/// An object of one member.
pub fn json_member(name: &str, value: Json) -> (r: Json)
    ensures
        r.deep() == JsonView::Object(seq![(name@, value.deep())]),
{
    let mut members: Vec<(String, Json)> = Vec::new();
    members.push((name.to_owned(), value));
    let r = Json::Object(members);
    assert(r.deep()->Object_0 =~= seq![(name@, value.deep())]);
    r
}

/// `object` with one more member at the end.
pub fn json_with(object: Json, name: &str, value: Json) -> (r: Json)
    requires
        object is Object,
    ensures
        r.deep() == JsonView::Object(object.deep()->Object_0.push((name@, value.deep()))),
        r is Object,
{
    let ghost before = object;
    match object {
        Json::Object(members) => {
            let mut members = members;
            members.push((name.to_owned(), value));
            let r = Json::Object(members);
            assert(r.deep()->Object_0 =~= before.deep()->Object_0.push((name@, value.deep())));
            r
        },
        other => other,
    }
}

/// A list of these values.
pub fn json_list(items: Vec<Json>) -> (r: Json)
    ensures
        r.deep() == JsonView::List(items@.map_values(|j: Json| j.deep())),
{
    let r = Json::List(items);
    assert(r.deep()->List_0 =~= items@.map_values(|j: Json| j.deep()));
    r
}

// ---------------------------------------------------------------------------
// Base addresses
// ---------------------------------------------------------------------------

/// `url` without the slashes at its end.
pub open spec fn without_slashes(url: Seq<char>) -> Seq<char>
    decreases url.len(),
{
    if url.len() > 0 && url.last() == '/' {
        without_slashes(url.drop_last())
    } else {
        url
    }
}

/// Takes the slashes off the end of `url`.
pub fn trim_slashes(url: &str) -> (r: String)
    ensures
        r@ == without_slashes(url@),
{
    let v = chars_of(url);
    let mut end: usize = v.len();
    assert(v@.take(end as int) =~= v@);
    while end > 0 && v[end - 1] == '/'
        invariant
            end <= v@.len(),
            without_slashes(v@) == without_slashes(v@.take(end as int)),
        decreases end,
    {
        assert(v@.take(end as int).drop_last() =~= v@.take(end - 1));
        end = end - 1;
    }
    let r = string_of(&v, 0, end);
    assert(r@ =~= v@.take(end as int));
    r
}

/// However many slashes end a base address, the same address comes out.
pub proof fn law_trailing_slash_is_tolerated(url: Seq<char>)
    ensures
        without_slashes(url.push('/')) == without_slashes(url),
        without_slashes(without_slashes(url)) == without_slashes(url),
    decreases url.len(),
{
    assert(url.push('/').drop_last() =~= url);
    if url.len() > 0 && url.last() == '/' {
        law_trailing_slash_is_tolerated(url.drop_last());
    }
}

// ---------------------------------------------------------------------------
// Statuses
// ---------------------------------------------------------------------------

/// The status numbers that a response can carry.
pub open spec fn is_status(status: u16) -> bool {
    100 <= status <= 999
}

pub open spec fn is_success(status: u16) -> bool {
    200 <= status < 300
}

pub open spec fn is_server_error(status: u16) -> bool {
    500 <= status < 600
}

/// The text of a status: its number and its usual reason.
pub uninterp spec fn status_text(status: u16) -> Seq<char>;

/// Shows a status with the `Display` of `reqwest::StatusCode`. The text depends on the number
/// alone and starts with it.
#[verifier::external_body]
pub(crate) fn status_line(status: u16) -> (r: String)
    requires
        is_status(status),
    ensures
        r@ == status_text(status),
        decimal(status as nat).is_prefix_of(r@),
{
    reqwest::StatusCode::from_u16(status).unwrap().to_string()
}

} // verus!
