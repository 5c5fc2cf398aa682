//! The two servers: what is asked of them, and how what they answer is read.
use std::time::Duration;
use vstd::prelude::*;
use vstd::string::*;

use crate::http::{
    is_server_error, is_status, is_success, status_text, without_slashes, AuthView, JsonView,
    Method, Request,
};
use crate::immich::{
    self, next_page_from, page_error, read_page, read_preview, read_version, search_body, AssetView,
    ImmichClient, ImmichError, ImmichErrorView, Page, SearchReply,
};
use crate::llm::{
    self, base64_text, chat_body, first_text, read_description, read_ping, LlmClient, LlmError,
    LlmErrorView,
};
use crate::text::{decimal, is_white, trimmed, whole_number};

verus! {

// ---------------------------------------------------------------------------
// Addresses and statuses
// ---------------------------------------------------------------------------

/// A base address is used without the slashes at its end, and is otherwise what was given.
pub proof fn law_base_addresses_lose_their_slashes(url: Seq<char>)
    ensures
        ({
            let base = without_slashes(url);
            &&& base.is_prefix_of(url)
            &&& base.len() > 0 ==> base.last() != '/'
            &&& forall|i: int| base.len() <= i < url.len() ==> #[trigger] url[i] == '/'
        }),
    decreases url.len(),
{
    if url.len() > 0 && url.last() == '/' {
        let rest = url.drop_last();
        law_base_addresses_lose_their_slashes(rest);
        let base = without_slashes(rest);
        assert(url.take(base.len() as int) =~= rest.take(base.len() as int));
        assert forall|i: int| base.len() <= i < url.len() implies #[trigger] url[i] == '/' by {
            if i < rest.len() {
                assert(rest[i] == url[i]);
            }
        }
    } else {
        assert(url.take(url.len() as int) =~= url);
    }
}

/// Statuses by their first digit.
pub proof fn law_statuses_go_by_their_first_digit(status: u16)
    ensures
        is_success(status) <==> status / 100 == 2,
        is_server_error(status) <==> status / 100 == 5,
        is_status(status) <==> 1 <= status / 100 <= 9,
{
}

/// How Immich's statuses are taken: a refused key is wrong for the whole run, a busy or broken
/// server is worth another try, and anything else is wrong for this request only. The status is
/// part of what is said.
pub proof fn law_immich_statuses(status: u16, line: Seq<char>)
    ensures
        ({
            let failure = immich::status_failure(status, line);
            &&& failure is None <==> 200 <= status <= 299
            &&& status == 401 || status == 403 ==> failure == Some(
                ImmichErrorView::Fatal("HTTP "@ + line + ": check the API key"@),
            )
            &&& status == 429 || 500 <= status <= 599 ==> failure == Some(
                ImmichErrorView::Transient("HTTP "@ + line),
            )
            &&& !(200 <= status <= 299 || status == 401 || status == 403 || status == 429 || 500
                <= status <= 599) ==> failure == Some(ImmichErrorView::Permanent("HTTP "@ + line))
        }),
{
}

/// How the model server's statuses are taken: as Immich's, but an address or model that is not
/// there is wrong for the whole run too.
pub proof fn law_llm_statuses(status: u16, line: Seq<char>)
    ensures
        ({
            let failure = llm::status_failure(status, line);
            &&& failure is None <==> 200 <= status <= 299
            &&& status == 401 || status == 403 ==> failure == Some(
                LlmErrorView::Fatal("HTTP "@ + line + ": check the API key"@),
            )
            &&& status == 404 ==> failure == Some(
                LlmErrorView::Fatal("HTTP "@ + line + ": check the base URL and model name"@),
            )
            &&& status == 429 || 500 <= status <= 599 ==> failure == Some(
                LlmErrorView::Transient("HTTP "@ + line),
            )
            &&& !(200 <= status <= 299 || status == 401 || status == 403 || status == 404
                || status == 429 || 500 <= status <= 599) ==> failure == Some(
                LlmErrorView::Permanent("HTTP "@ + line),
            )
        }),
{
}

/// A status is judged with its own text, and a ping reports it.
pub proof fn law_statuses_are_judged_with_their_text(
    status: u16,
    immich_result: Result<(), ImmichError>,
    llm_result: Result<(), LlmError>,
    ping: Result<String, LlmError>,
)
    requires
        is_status(status),
        call_ensures(immich::check_status, (status,), immich_result),
        call_ensures(llm::check_status, (status,), llm_result),
        call_ensures(read_ping, (status,), ping),
    ensures
        immich_result is Ok <==> 200 <= status <= 299,
        llm_result is Ok <==> 200 <= status <= 299,
        ping is Ok <==> 200 <= status <= 299,
        ping matches Ok(line) ==> line@ == status_text(status),
        immich_result matches Err(error) ==> Some(error@) == immich::status_failure(
            status,
            status_text(status),
        ),
        llm_result matches Err(error) ==> Some(error@) == llm::status_failure(
            status,
            status_text(status),
        ),
        ping matches Err(error) ==> Some(error@) == llm::status_failure(
            status,
            status_text(status),
        ),
{
}

/// What goes wrong outside a status: without a client the whole run is lost, a request that
/// cannot be built and a body that cannot be read are lost alone, and what did not get through is
/// worth another try.
pub proof fn law_other_failures(
    error: &str,
    immich_client: ImmichError,
    immich_request: ImmichError,
    immich_way: ImmichError,
    immich_body: ImmichError,
    llm_client: LlmError,
    llm_request: LlmError,
    llm_way: LlmError,
    llm_body: LlmError,
)
    requires
        call_ensures(ImmichError::no_client, (error,), immich_client),
        call_ensures(ImmichError::bad_request, (error,), immich_request),
        call_ensures(ImmichError::transport, (error,), immich_way),
        call_ensures(ImmichError::bad_body, (error,), immich_body),
        call_ensures(LlmError::no_client, (error,), llm_client),
        call_ensures(LlmError::bad_request, (error,), llm_request),
        call_ensures(LlmError::transport, (error,), llm_way),
        call_ensures(LlmError::bad_body, (error,), llm_body),
    ensures
        immich_client@ == ImmichErrorView::Fatal("http client: "@ + error@),
        immich_request@ == ImmichErrorView::Permanent("bad request: "@ + error@),
        immich_way@ == ImmichErrorView::Transient(error@),
        immich_body@ == ImmichErrorView::Permanent("bad response body: "@ + error@),
        llm_client@ == LlmErrorView::Fatal("http client: "@ + error@),
        llm_request@ == LlmErrorView::Permanent("bad request: "@ + error@),
        llm_way@ == LlmErrorView::Transient(error@),
        llm_body@ == LlmErrorView::Permanent("bad response body: "@ + error@),
{
}

/// The message of a failure names its server and then says what happened.
pub proof fn law_messages_name_the_server(message: Seq<char>)
    ensures
        ImmichErrorView::Transient(message).text() == "immich: "@ + message,
        ImmichErrorView::Permanent(message).text() == "immich: "@ + message,
        ImmichErrorView::Fatal(message).text() == "immich: "@ + message,
        LlmErrorView::Transient(message).text() == "llm: "@ + message,
        LlmErrorView::Permanent(message).text() == "llm: "@ + message,
        LlmErrorView::Fatal(message).text() == "llm: "@ + message,
{
}

// ---------------------------------------------------------------------------
// Photos
// ---------------------------------------------------------------------------

/// A photo needs a description exactly if it has none, or one without a single character that
/// is not white space.
pub proof fn law_photos_without_words_need_some(asset: AssetView)
    ensures
        asset.description is None ==> asset.undescribed(),
        asset.description matches Some(text) ==> (asset.undescribed() <==> !has_words(text)),
{
}

/// A page holds every photo of the reply, in its order, under its own id and name and with the
/// description in its EXIF data, if any. The next page is the number in the reply.
pub proof fn law_pages_hold_what_was_found(reply: SearchReply, r: Result<Page, ImmichError>, i: int)
    requires
        call_ensures(read_page, (reply,), r),
        0 <= i < reply.items@.len(),
    ensures
        r is Err <==> (reply.next_page matches Some(text) && whole_number(text@, u32::MAX as nat)
            is None),
        r matches Ok(page) ==> {
            let found = reply.items@[i];
            let asset = page.items@[i];
            &&& page.items@.len() == reply.items@.len()
            &&& asset.id@ == found.id@ && asset.name@ == found.original_file_name@
            &&& found.exif matches Some(Some(text)) ==> (asset.description matches Some(kept)
                && kept@ == text@)
            &&& !(found.exif matches Some(Some(_))) ==> asset.description is None
            &&& reply.next_page is None ==> page.next_page is None
            &&& reply.next_page matches Some(text) ==> (page.next_page matches Some(n)
                && whole_number(text@, u32::MAX as nat) == Some(n as nat))
        },
        r matches Err(error) ==> error@ == ImmichErrorView::Permanent(
            "bad nextPage value: "@ + page_error(reply.next_page->0@),
        ),
{
    if let Ok(page) = r {
        let views = immich::asset_views(page.items@);
        assert(views.len() == reply.items@.len());
        assert(views[i] == page.items@[i]@);
        assert(views[i] == immich::asset_of(reply.items@[i]));
    }
}

/// A page number that could be read is the next page; why another could not is part of the
/// failure.
pub proof fn law_next_pages(parsed: Result<u32, String>, r: Result<u32, ImmichError>)
    requires
        call_ensures(next_page_from, (parsed,), r),
    ensures
        parsed matches Ok(n) ==> (r matches Ok(m) && m == n),
        parsed matches Err(why) ==> (r matches Err(error) && error@ == ImmichErrorView::Permanent(
            "bad nextPage value: "@ + why@,
        )),
{
}

/// A preview is the body of the reply, byte for byte. An empty one is a failure of this photo.
pub proof fn law_previews_are_the_body(body: Vec<u8>, r: Result<Vec<u8>, ImmichError>)
    requires
        call_ensures(read_preview, (body,), r),
    ensures
        r is Ok <==> body@.len() > 0,
        r matches Ok(jpeg) ==> jpeg@ == body@,
        r matches Err(error) ==> error@ == ImmichErrorView::Permanent("empty preview body"@),
{
}

/// A version is its three numbers, from major to patch.
pub proof fn law_versions(major: u32, minor: u32, patch: u32, r: String)
    requires
        call_ensures(read_version, (major, minor, patch), r),
    ensures
        r@ == "v"@ + decimal(major as nat) + "."@ + decimal(minor as nat) + "."@ + decimal(
            patch as nat,
        ),
{
}

/// The text of the first choice, which is empty if there is none.
pub open spec fn first_choice(choices: Seq<Option<String>>) -> Seq<char> {
    if choices.len() == 0 {
        seq![]
    } else {
        match choices[0] {
            Some(text) => text@,
            None => seq![],
        }
    }
}

/// There is a character in the text that is not white space.
pub open spec fn has_words(text: Seq<char>) -> bool {
    exists|i: int| 0 <= i < text.len() && !is_white(#[trigger] text[i])
}

/// A description is the text of the first choice without the white space round it, and never
/// empty. A first choice without words is a failure of this photo.
pub proof fn law_descriptions_have_words(
    choices: Vec<Option<String>>,
    r: Result<String, LlmError>,
)
    requires
        call_ensures(read_description, (choices,), r),
    ensures
        r is Ok <==> has_words(first_choice(choices@)),
        r matches Ok(description) ==> description@ == trimmed(first_choice(choices@)),
        r matches Err(error) ==> error@ == LlmErrorView::Permanent("model returned no text"@),
{
    assert(first_text(choices@) =~= first_choice(choices@));
}

// ---------------------------------------------------------------------------
// Requests
// ---------------------------------------------------------------------------

/// Every request to Immich goes to its path under the API of the server, with the key.
pub proof fn law_immich_requests(
    client: &ImmichClient,
    page: u32,
    size: u32,
    id: &str,
    text: &str,
    version: Request,
    search: Request,
    preview: Request,
    write: Request,
)
    requires
        call_ensures(ImmichClient::version, (client,), version),
        call_ensures(ImmichClient::list_images, (client, page, size), search),
        call_ensures(ImmichClient::preview_jpeg, (client, id), preview),
        call_ensures(ImmichClient::set_description, (client, id, text), write),
    ensures
        version@.method == Method::Get && version@.body is None,
        version@.url == client.base@ + "/server/version"@,
        search@.method == Method::Post && search@.body == Some(search_body(page, size)),
        search@.url == client.base@ + "/search/metadata"@,
        preview@.method == Method::Get && preview@.body is None,
        preview@.url == client.base@ + ("/assets/"@ + id@ + "/thumbnail?size=preview"@),
        write@.method == Method::Put,
        write@.url == client.base@ + ("/assets/"@ + id@),
        write@.body matches Some(JsonView::Object(members)) && members.len() == 1 && members[0] == (
            "description"@,
            JsonView::Text(text@),
        ),
        version@.auth == AuthView::ApiKey(client.api_key@),
        search@.auth == AuthView::ApiKey(client.api_key@),
        preview@.auth == AuthView::ApiKey(client.api_key@),
        write@.auth == AuthView::ApiKey(client.api_key@),
{
}

/// A search asks for photos, with their EXIF data, the newest first, for this page of this size.
pub proof fn law_searches_ask_for_photos(page: u32, size: u32)
    ensures
        search_body(page, size) matches JsonView::Object(members) && {
            &&& members.len() == 5
            &&& members.contains(("type"@, JsonView::Text("IMAGE"@)))
            &&& members.contains(("withExif"@, JsonView::Bool(true)))
            &&& members.contains(("size"@, JsonView::Number(size as nat)))
            &&& members.contains(("page"@, JsonView::Number(page as nat)))
            &&& members.contains(("order"@, JsonView::Text("desc"@)))
        },
{
    let members = search_body(page, size)->Object_0;
    assert(members[0] == ("type"@, JsonView::Text("IMAGE"@)));
    assert(members[1] == ("withExif"@, JsonView::Bool(true)));
    assert(members[2] == ("size"@, JsonView::Number(size as nat)));
    assert(members[3] == ("page"@, JsonView::Number(page as nat)));
    assert(members[4] == ("order"@, JsonView::Text("desc"@)));
}

/// A client keeps what it was made with; only the slashes at the end of its address are off, and
/// Immich's address goes on to its API.
pub proof fn law_clients_keep_what_they_were_given(
    url: &str,
    api_key: &str,
    model: &str,
    max_tokens: u32,
    timeout: Duration,
    photos: ImmichClient,
    texts: LlmClient,
)
    requires
        call_ensures(ImmichClient::new, (url, api_key, timeout), photos),
        call_ensures(LlmClient::new, (url, api_key, model, max_tokens, timeout), texts),
    ensures
        photos.base@ == without_slashes(url@) + "/api"@,
        photos.api_key@ == api_key@ && photos.timeout == timeout,
        texts.base_url@ == without_slashes(url@),
        texts.api_key@ == api_key@ && texts.model@ == model@,
        texts.max_tokens == max_tokens && texts.timeout == timeout,
{
}

/// A key goes to the model server exactly if there is one.
pub proof fn law_only_keys_that_exist_are_sent(client: LlmClient)
    ensures
        client.api_key@.len() == 0 ==> client.auth() is Anonymous,
        client.api_key@.len() > 0 ==> client.auth() == AuthView::Bearer(client.api_key@),
{
}

/// The model server is asked for its models, and for a completion with this client's model and
/// limit. The question is one message of the user: the prompt and then the photo, as its bytes.
pub proof fn law_llm_requests(
    client: &LlmClient,
    jpeg: &Vec<u8>,
    prompt: &str,
    ping: Request,
    question: Request,
)
    requires
        call_ensures(LlmClient::ping, (client,), ping),
        call_ensures(LlmClient::describe, (client, jpeg, prompt), question),
    ensures
        ping@.method == Method::Get && ping@.body is None,
        ping@.url == client.base_url@ + "/models"@,
        ping@.auth == client.auth(),
        question@.method == Method::Post,
        question@.url == client.base_url@ + "/chat/completions"@,
        question@.auth == client.auth(),
        question@.body == Some(
            chat_body(
                client.model@,
                client.max_tokens,
                prompt@,
                "data:image/jpeg;base64,"@ + base64_text(jpeg@),
            ),
        ),
{
}

/// An image anywhere is asked about in the same way: under its address, with this client's model,
/// limit and key.
pub proof fn law_questions_name_the_image(
    client: &LlmClient,
    image_url: &str,
    prompt: &str,
    question: Request,
)
    requires
        call_ensures(LlmClient::describe_at, (client, image_url, prompt), question),
    ensures
        question@.method == Method::Post,
        question@.url == client.base_url@ + "/chat/completions"@,
        question@.auth == client.auth(),
        question@.body == Some(
            chat_body(client.model@, client.max_tokens, prompt@, image_url@),
        ),
{
}

/// The body of a completion: model, limit, and one message of the user with the prompt and the
/// image in it, in this order.
pub proof fn law_completions_ask_one_question(
    model: Seq<char>,
    max_tokens: u32,
    prompt: Seq<char>,
    image_url: Seq<char>,
)
    ensures
        chat_body(model, max_tokens, prompt, image_url) matches JsonView::Object(members) && {
            &&& members.len() == 3
            &&& members[0] == ("model"@, JsonView::Text(model))
            &&& members[1] == ("max_tokens"@, JsonView::Number(max_tokens as nat))
            &&& members[2].0 == "messages"@
            &&& members[2].1 matches JsonView::List(messages) && messages.len() == 1
                && asks(messages[0], prompt, image_url)
        },
{
}

/// A message of the user that holds the prompt and then the image.
pub open spec fn asks(message: JsonView, prompt: Seq<char>, image_url: Seq<char>) -> bool {
    message matches JsonView::Object(members) && {
        &&& members.len() == 2
        &&& members[0] == ("role"@, JsonView::Text("user"@))
        &&& members[1].0 == "content"@
        &&& members[1].1 matches JsonView::List(parts) && {
            &&& parts.len() == 2
            &&& parts[0] matches JsonView::Object(text) && text.len() == 2 && text[0] == (
                "type"@,
                JsonView::Text("text"@),
            ) && text[1] == ("text"@, JsonView::Text(prompt))
            &&& parts[1] matches JsonView::Object(image) && image.len() == 2 && image[0] == (
                "type"@,
                JsonView::Text("image_url"@),
            ) && image[1].0 == "image_url"@ && (image[1].1 matches JsonView::Object(address)
                && address.len() == 1 && address[0] == ("url"@, JsonView::Text(image_url)))
        }
    }
}

} // verus!
