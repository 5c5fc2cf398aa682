//! The parts of the Immich API this tool uses: what is asked, and how the replies are read.
//! All paths sit under `/api`. Auth is the `x-api-key` header.
use std::time::Duration;
use vstd::prelude::*;
use vstd::string::*;

use crate::http::{
    is_server_error, is_status, is_success, json_member, json_text, json_with, status_line,
    status_text, trim_slashes, without_slashes, Auth, AuthView, Json, JsonView, Method, Request,
    RequestView,
};
use crate::text::{blank, cat, decimal, decimal_of, is_blank, whole_number};

verus! {

#[derive(Debug, PartialEq, Eq)]
pub enum ImmichError {
    /// Network or server trouble that may pass. Worth a retry.
    Transient(String),
    /// Wrong for this one asset. Skip it.
    Permanent(String),
    /// Wrong for the whole run: bad key or bad server.
    Fatal(String),
}

/// Mathematical model of [`ImmichError`].
pub enum ImmichErrorView {
    Transient(Seq<char>),
    Permanent(Seq<char>),
    Fatal(Seq<char>),
}

impl View for ImmichError {
    type V = ImmichErrorView;

    open spec fn view(&self) -> ImmichErrorView {
        match *self {
            ImmichError::Transient(message) => ImmichErrorView::Transient(message@),
            ImmichError::Permanent(message) => ImmichErrorView::Permanent(message@),
            ImmichError::Fatal(message) => ImmichErrorView::Fatal(message@),
        }
    }
}

impl ImmichErrorView {
    /// The message shown to the user.
    pub open spec fn text(self) -> Seq<char> {
        match self {
            ImmichErrorView::Transient(message) => "immich: "@ + message,
            ImmichErrorView::Permanent(message) => "immich: "@ + message,
            ImmichErrorView::Fatal(message) => "immich: "@ + message,
        }
    }
}

impl ImmichError {
    /// The message shown to the user.
    pub fn to_string(&self) -> (r: String)
        ensures
            r@ == self@.text(),
    {
        match self {
            ImmichError::Transient(message) => cat("immich: ", message.as_str()),
            ImmichError::Permanent(message) => cat("immich: ", message.as_str()),
            ImmichError::Fatal(message) => cat("immich: ", message.as_str()),
        }
    }

    /// The HTTP client could not be set up.
    pub fn no_client(error: &str) -> (r: Self)
        ensures
            r@ == ImmichErrorView::Fatal("http client: "@ + error@),
    {
        ImmichError::Fatal(cat("http client: ", error))
    }

    /// The request could not be built.
    pub fn bad_request(error: &str) -> (r: Self)
        ensures
            r@ == ImmichErrorView::Permanent("bad request: "@ + error@),
    {
        ImmichError::Permanent(cat("bad request: ", error))
    }

    /// The request or the response did not get through.
    pub fn transport(error: &str) -> (r: Self)
        ensures
            r@ == ImmichErrorView::Transient(error@),
    {
        ImmichError::Transient(error.to_owned())
    }

    /// The response did not hold what was asked for.
    pub fn bad_body(error: &str) -> (r: Self)
        ensures
            r@ == ImmichErrorView::Permanent("bad response body: "@ + error@),
    {
        ImmichError::Permanent(cat("bad response body: ", error))
    }
}

/// The model of a result with an [`ImmichError`].
pub open spec fn failure<T>(r: Result<T, ImmichError>) -> Option<ImmichErrorView> {
    match r {
        Ok(_) => None,
        Err(error) => Some(error@),
    }
}

// ---------------------------------------------------------------------------
// Assets
// ---------------------------------------------------------------------------

/// One photo as the engine sees it.
#[derive(Debug, PartialEq, Eq)]
pub struct Asset {
    pub id: String,
    pub name: String,
    pub description: Option<String>,
}

/// Mathematical model of [`Asset`].
#[verifier::ext_equal]
pub struct AssetView {
    pub id: Seq<char>,
    pub name: Seq<char>,
    pub description: Option<Seq<char>>,
}

impl View for Asset {
    type V = AssetView;

    open spec fn view(&self) -> AssetView {
        AssetView {
            id: self.id@,
            name: self.name@,
            description: match self.description {
                Some(text) => Some(text@),
                None => None,
            },
        }
    }
}

impl AssetView {
    /// The description is missing or only white space.
    pub open spec fn undescribed(self) -> bool {
        match self.description {
            Some(text) => blank(text),
            None => true,
        }
    }
}

impl Clone for Asset {
    fn clone(&self) -> (r: Self)
        ensures
            r == *self,
    {
        Asset {
            id: self.id.clone(),
            name: self.name.clone(),
            description: match &self.description {
                Some(text) => Some(text.clone()),
                None => None,
            },
        }
    }
}

impl Asset {
    /// True when the description is missing or only white space.
    pub fn needs_description(&self) -> (r: bool)
        ensures
            r == self@.undescribed(),
    {
        match &self.description {
            Some(text) => is_blank(text.as_str()),
            None => true,
        }
    }
}

pub open spec fn asset_views(v: Seq<Asset>) -> Seq<AssetView> {
    v.map_values(|a: Asset| a@)
}

/// One page of search results.
#[derive(Debug, PartialEq, Eq)]
pub struct Page {
    pub items: Vec<Asset>,
    pub next_page: Option<u32>,
}

/// Mathematical model of [`Page`].
#[verifier::ext_equal]
pub struct PageView {
    pub items: Seq<AssetView>,
    pub next_page: Option<u32>,
}

impl View for Page {
    type V = PageView;

    open spec fn view(&self) -> PageView {
        PageView { items: asset_views(self.items@), next_page: self.next_page }
    }
}

impl Clone for Page {
    fn clone(&self) -> (r: Self)
        ensures
            r@ == self@,
    {
        let items = self.items.clone();
        assert(asset_views(items@) =~= asset_views(self.items@));
        Page { items, next_page: self.next_page }
    }
}

/// One item of a search response. `exif` is there if the item has EXIF data, and holds the
/// description if there is one.
#[derive(Debug, PartialEq, Eq)]
pub struct FoundAsset {
    pub id: String,
    pub original_file_name: String,
    pub exif: Option<Option<String>>,
}

/// A search response.
#[derive(Debug, PartialEq, Eq)]
pub struct SearchReply {
    pub items: Vec<FoundAsset>,
    pub next_page: Option<String>,
}

/// The asset that a search item stands for.
pub open spec fn asset_of(found: FoundAsset) -> AssetView {
    AssetView {
        id: found.id@,
        name: found.original_file_name@,
        description: match found.exif {
            Some(Some(text)) => Some(text@),
            _ => None,
        },
    }
}

/// Why a text is not a page number.
pub uninterp spec fn page_error(text: Seq<char>) -> Seq<char>;

/// Reads a page number with `str::parse`. It takes an optional plus sign and digits, up to
/// the largest `u32`; what it says of another text depends on that text alone.
#[verifier::external_body]
pub(crate) fn parse_page(text: &str) -> (r: Result<u32, String>)
    ensures
        match r {
            Ok(n) => whole_number(text@, u32::MAX as nat) == Some(n as nat),
            Err(error) => whole_number(text@, u32::MAX as nat) is None && error@ == page_error(
                text@,
            ),
        },
{
    text.parse::<u32>().map_err(|error| error.to_string())
}

/// The failure for a `nextPage` that is not a page number.
pub open spec fn bad_next_page(error: Seq<char>) -> ImmichErrorView {
    ImmichErrorView::Permanent("bad nextPage value: "@ + error)
}

/// The next page, or the failure, from what reading the number gave.
pub fn next_page_from(parsed: Result<u32, String>) -> (r: Result<u32, ImmichError>)
    ensures
        match (parsed, r) {
            (Ok(n), Ok(m)) => n == m,
            (Err(error), Err(e)) => e@ == bad_next_page(error@),
            _ => false,
        },
{
    match parsed {
        Ok(n) => Ok(n),
        Err(error) => Err(ImmichError::Permanent(cat("bad nextPage value: ", error.as_str()))),
    }
}

/// Reads a search response.
pub fn read_page(reply: SearchReply) -> (r: Result<Page, ImmichError>)
    ensures
        match reply.next_page {
            None => {
                &&& r is Ok
                &&& r->Ok_0.next_page is None
            },
            Some(text) => match whole_number(text@, u32::MAX as nat) {
                Some(n) => {
                    &&& r is Ok
                    &&& r->Ok_0.next_page matches Some(m) && m == n
                },
                None => failure(r) == Some(bad_next_page(page_error(text@))),
            },
        },
        r is Ok ==> asset_views(r->Ok_0.items@) == reply.items@.map_values(
            |f: FoundAsset| asset_of(f),
        ),
{
    let mut items: Vec<Asset> = Vec::new();
    let ghost found = reply.items@;
    for item in it: reply.items
        invariant
            it.seq() == found,
            asset_views(items@) == found.take(it.index()).map_values(|f: FoundAsset| asset_of(f)),
    {
        let ghost k = it.index();
        let ghost before = items@;
        let description = match item.exif {
            Some(description) => description,
            None => None,
        };
        items.push(Asset { id: item.id, name: item.original_file_name, description });
        proof {
            assert(asset_views(items@) =~= asset_views(before).push(asset_of(item)));
            assert(found.take(k + 1).map_values(|f: FoundAsset| asset_of(f)) =~= found.take(
                k,
            ).map_values(|f: FoundAsset| asset_of(f)).push(asset_of(found[k])));
        }
    }
    assert(found.take(found.len() as int) =~= found);
    match reply.next_page {
        None => Ok(Page { items, next_page: None }),
        Some(text) => match next_page_from(parse_page(text.as_str())) {
            Ok(n) => Ok(Page { items, next_page: Some(n) }),
            Err(error) => Err(error),
        },
    }
}

/// The preview in a response body. An empty body holds none.
pub fn read_preview(body: Vec<u8>) -> (r: Result<Vec<u8>, ImmichError>)
    ensures
        body@.len() == 0 ==> failure(r) == Some(ImmichErrorView::Permanent("empty preview body"@)),
        body@.len() > 0 ==> r == Ok::<Vec<u8>, ImmichError>(body),
{
    if body.len() == 0 {
        return Err(ImmichError::Permanent("empty preview body".to_owned()));
    }
    Ok(body)
}

/// The text of a version: `vMAJOR.MINOR.PATCH`.
pub open spec fn version_of(major: u32, minor: u32, patch: u32) -> Seq<char> {
    "v"@ + decimal(major as nat) + "."@ + decimal(minor as nat) + "."@ + decimal(patch as nat)
}

/// Server version as `vMAJOR.MINOR.PATCH`.
pub fn read_version(major: u32, minor: u32, patch: u32) -> (r: String)
    ensures
        r@ == version_of(major, minor, patch),
{
    let mut r = cat("v", decimal_of(major as u64).as_str());
    r.append(".");
    r.append(decimal_of(minor as u64).as_str());
    r.append(".");
    r.append(decimal_of(patch as u64).as_str());
    r
}

// ---------------------------------------------------------------------------
// Statuses
// ---------------------------------------------------------------------------

/// The failure that a status means, if it is one. `line` is the status in words.
pub open spec fn status_failure(status: u16, line: Seq<char>) -> Option<ImmichErrorView> {
    if is_success(status) {
        None
    } else if status == 401 || status == 403 {
        Some(ImmichErrorView::Fatal("HTTP "@ + line + ": check the API key"@))
    } else if status == 429 || is_server_error(status) {
        Some(ImmichErrorView::Transient("HTTP "@ + line))
    } else {
        Some(ImmichErrorView::Permanent("HTTP "@ + line))
    }
}

/// Sorts a status, given in words too, into success and the kinds of failure.
pub fn sort_status(status: u16, line: &str) -> (r: Result<(), ImmichError>)
    ensures
        failure(r) == status_failure(status, line@),
{
    if 200 <= status && status < 300 {
        return Ok(());
    }
    let message = cat("HTTP ", line);
    if status == 401 || status == 403 {
        Err(ImmichError::Fatal(cat(message.as_str(), ": check the API key")))
    } else if status == 429 || (500 <= status && status < 600) {
        Err(ImmichError::Transient(message))
    } else {
        Err(ImmichError::Permanent(message))
    }
}

/// Sorts a status into success and the kinds of failure.
pub fn check_status(status: u16) -> (r: Result<(), ImmichError>)
    requires
        is_status(status),
    ensures
        failure(r) == status_failure(status, status_text(status)),
{
    sort_status(status, status_line(status).as_str())
}

// ---------------------------------------------------------------------------
// The client
// ---------------------------------------------------------------------------

#[derive(Debug)]
pub struct ImmichClient {
    pub base: String,
    pub api_key: String,
    pub timeout: Duration,
}

impl Clone for ImmichClient {
    fn clone(&self) -> (r: Self)
        ensures
            r == *self,
    {
        ImmichClient {
            base: self.base.clone(),
            api_key: self.api_key.clone(),
            timeout: self.timeout,
        }
    }
}

impl ImmichClient {
    /// `url` is the server root, with or without a trailing slash.
    pub fn new(url: &str, api_key: &str, timeout: Duration) -> (r: Self)
        ensures
            r.base@ == without_slashes(url@) + "/api"@,
            r.api_key@ == api_key@,
            r.timeout == timeout,
    {
        ImmichClient {
            base: cat(trim_slashes(url).as_str(), "/api"),
            api_key: api_key.to_owned(),
            timeout,
        }
    }

    /// A request to `path` under the base, with this client's key.
    pub open spec fn request(
        self,
        method: Method,
        path: Seq<char>,
        body: Option<JsonView>,
    ) -> RequestView {
        RequestView {
            method,
            url: self.base@ + path,
            auth: AuthView::ApiKey(self.api_key@),
            body,
        }
    }

    fn call(&self, method: Method, path: &str, body: Option<Json>) -> (r: Request)
        ensures
            r@ == self.request(
                method,
                path@,
                match body {
                    Some(json) => Some(json.deep()),
                    None => None,
                },
            ),
    {
        Request {
            method,
            url: cat(self.base.as_str(), path),
            auth: Auth::ApiKey(self.api_key.clone()),
            body,
        }
    }

    /// Asks for the server version, which also proves that the key works.
    pub fn version(&self) -> (r: Request)
        ensures
            r@ == self.request(Method::Get, "/server/version"@, None),
    {
        self.call(Method::Get, "/server/version", None)
    }

    /// Asks for one page of images, newest first, with EXIF so that the description is there.
    pub fn list_images(&self, page: u32, size: u32) -> (r: Request)
        ensures
            r@ == self.request(Method::Post, "/search/metadata"@, Some(search_body(page, size))),
    {
        let body = json_member("type", json_text("IMAGE"));
        let body = json_with(body, "withExif", Json::Bool(true));
        let body = json_with(body, "size", Json::Number(size));
        let body = json_with(body, "page", Json::Number(page));
        let body = json_with(body, "order", json_text("desc"));
        assert(body.deep()->Object_0 =~= search_body(page, size)->Object_0);
        self.call(Method::Post, "/search/metadata", Some(body))
    }

    /// Asks for the `preview` rendition, a JPEG.
    pub fn preview_jpeg(&self, id: &str) -> (r: Request)
        ensures
            r@ == self.request(
                Method::Get,
                "/assets/"@ + id@ + "/thumbnail?size=preview"@,
                None,
            ),
    {
        let path = cat(cat("/assets/", id).as_str(), "/thumbnail?size=preview");
        self.call(Method::Get, path.as_str(), None)
    }

    /// Asks to set the asset description. Overwrites whatever is there.
    pub fn set_description(&self, id: &str, text: &str) -> (r: Request)
        ensures
            r@ == self.request(
                Method::Put,
                "/assets/"@ + id@,
                Some(JsonView::Object(seq![("description"@, JsonView::Text(text@))])),
            ),
    {
        self.call(
            Method::Put,
            cat("/assets/", id).as_str(),
            Some(json_member("description", json_text(text))),
        )
    }
}

/// The body of a search for images.
pub open spec fn search_body(page: u32, size: u32) -> JsonView {
    JsonView::Object(
        seq![
            ("type"@, JsonView::Text("IMAGE"@)),
            ("withExif"@, JsonView::Bool(true)),
            ("size"@, JsonView::Number(size as nat)),
            ("page"@, JsonView::Number(page as nat)),
            ("order"@, JsonView::Text("desc"@)),
        ],
    )
}

} // verus!
