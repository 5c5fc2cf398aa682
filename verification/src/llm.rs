//! OpenAI-compatible chat completions. One vision call per photo.
use std::time::Duration;
use vstd::prelude::*;
use vstd::string::*;

use crate::http::{
    is_server_error, is_status, is_success, json_list, json_member, json_text, json_with,
    status_line, status_text, trim_slashes, without_slashes, Auth, AuthView, Json, JsonView,
    Method, Request, RequestView,
};
use crate::text::{blank, cat, lemma_trimmed_empty, trim, trimmed};

verus! {

#[derive(Debug, PartialEq, Eq)]
pub enum LlmError {
    /// Network or server trouble that may pass. Worth a retry.
    Transient(String),
    /// Wrong for this one photo. Skip it.
    Permanent(String),
    /// Wrong for the whole run: bad key, unknown model, wrong URL.
    Fatal(String),
}

/// Mathematical model of [`LlmError`].
pub enum LlmErrorView {
    Transient(Seq<char>),
    Permanent(Seq<char>),
    Fatal(Seq<char>),
}

impl View for LlmError {
    type V = LlmErrorView;

    open spec fn view(&self) -> LlmErrorView {
        match *self {
            LlmError::Transient(message) => LlmErrorView::Transient(message@),
            LlmError::Permanent(message) => LlmErrorView::Permanent(message@),
            LlmError::Fatal(message) => LlmErrorView::Fatal(message@),
        }
    }
}

impl LlmErrorView {
    /// The message shown to the user.
    pub open spec fn text(self) -> Seq<char> {
        match self {
            LlmErrorView::Transient(message) => "llm: "@ + message,
            LlmErrorView::Permanent(message) => "llm: "@ + message,
            LlmErrorView::Fatal(message) => "llm: "@ + message,
        }
    }
}

impl LlmError {
    /// The message shown to the user.
    pub fn to_string(&self) -> (r: String)
        ensures
            r@ == self@.text(),
    {
        match self {
            LlmError::Transient(message) => cat("llm: ", message.as_str()),
            LlmError::Permanent(message) => cat("llm: ", message.as_str()),
            LlmError::Fatal(message) => cat("llm: ", message.as_str()),
        }
    }

    /// The HTTP client could not be set up.
    pub fn no_client(error: &str) -> (r: Self)
        ensures
            r@ == LlmErrorView::Fatal("http client: "@ + error@),
    {
        LlmError::Fatal(cat("http client: ", error))
    }

    /// The request could not be built.
    pub fn bad_request(error: &str) -> (r: Self)
        ensures
            r@ == LlmErrorView::Permanent("bad request: "@ + error@),
    {
        LlmError::Permanent(cat("bad request: ", error))
    }

    /// The request or the response did not get through.
    pub fn transport(error: &str) -> (r: Self)
        ensures
            r@ == LlmErrorView::Transient(error@),
    {
        LlmError::Transient(error.to_owned())
    }

    /// The response did not hold what was asked for.
    pub fn bad_body(error: &str) -> (r: Self)
        ensures
            r@ == LlmErrorView::Permanent("bad response body: "@ + error@),
    {
        LlmError::Permanent(cat("bad response body: ", error))
    }
}

/// The model of a result with an [`LlmError`].
pub open spec fn failure<T>(r: Result<T, LlmError>) -> Option<LlmErrorView> {
    match r {
        Ok(_) => None,
        Err(error) => Some(error@),
    }
}

// ---------------------------------------------------------------------------
// Statuses and replies
// ---------------------------------------------------------------------------

/// The failure that a status means, if it is one. `line` is the status in words.
pub open spec fn status_failure(status: u16, line: Seq<char>) -> Option<LlmErrorView> {
    if is_success(status) {
        None
    } else if status == 401 || status == 403 {
        Some(LlmErrorView::Fatal("HTTP "@ + line + ": check the API key"@))
    } else if status == 404 {
        Some(LlmErrorView::Fatal("HTTP "@ + line + ": check the base URL and model name"@))
    } else if status == 429 || is_server_error(status) {
        Some(LlmErrorView::Transient("HTTP "@ + line))
    } else {
        Some(LlmErrorView::Permanent("HTTP "@ + line))
    }
}

/// Sorts a status, given in words too, into success and the kinds of failure.
pub fn sort_status(status: u16, line: &str) -> (r: Result<(), LlmError>)
    ensures
        failure(r) == status_failure(status, line@),
{
    if 200 <= status && status < 300 {
        return Ok(());
    }
    let message = cat("HTTP ", line);
    if status == 401 || status == 403 {
        Err(LlmError::Fatal(cat(message.as_str(), ": check the API key")))
    } else if status == 404 {
        Err(LlmError::Fatal(cat(message.as_str(), ": check the base URL and model name")))
    } else if status == 429 || (500 <= status && status < 600) {
        Err(LlmError::Transient(message))
    } else {
        Err(LlmError::Permanent(message))
    }
}

/// Sorts a status into success and the kinds of failure.
pub fn check_status(status: u16) -> (r: Result<(), LlmError>)
    requires
        is_status(status),
    ensures
        failure(r) == status_failure(status, status_text(status)),
{
    sort_status(status, status_line(status).as_str())
}

/// What a ping reports: the status of the reply in words, or the failure.
pub fn read_ping(status: u16) -> (r: Result<String, LlmError>)
    requires
        is_status(status),
    ensures
        failure(r) == status_failure(status, status_text(status)),
        r matches Ok(line) ==> line@ == status_text(status),
{
    let line = status_line(status);
    match sort_status(status, line.as_str()) {
        Ok(_) => Ok(line),
        Err(error) => Err(error),
    }
}

/// The text in the first of the choices, which may hold none, or the empty text.
pub open spec fn first_text(choices: Seq<Option<String>>) -> Seq<char> {
    if choices.len() > 0 && choices[0] is Some {
        choices[0]->0@
    } else {
        seq![]
    }
}

/// The description in a completion: the first choice's text without the white space round
/// it. A blank text or no choice at all is a failure for this photo.
pub fn read_description(choices: Vec<Option<String>>) -> (r: Result<String, LlmError>)
    ensures
        match r {
            Ok(text) => text@ == trimmed(first_text(choices@)) && !blank(first_text(choices@)),
            Err(error) => blank(first_text(choices@)) && error@ == LlmErrorView::Permanent(
                "model returned no text"@,
            ),
        },
{
    let text = if choices.len() > 0 {
        match &choices[0] {
            Some(text) => trim(text.as_str()),
            None => trim(""),
        }
    } else {
        trim("")
    };
    proof {
        reveal_strlit("");
        assert(""@ =~= Seq::<char>::empty());
        lemma_trimmed_empty(first_text(choices@));
    }
    if text.as_str().unicode_len() == 0 {
        return Err(LlmError::Permanent("model returned no text".to_owned()));
    }
    Ok(text)
}

// ---------------------------------------------------------------------------
// The client
// ---------------------------------------------------------------------------

/// The standard base64 form of these bytes.
pub uninterp spec fn base64_text(bytes: Seq<u8>) -> Seq<char>;

/// Encodes bytes with `base64::engine::general_purpose::STANDARD.encode`, which depends on
/// the bytes alone. It panics where the length of the result overflows.
#[verifier::external_body]
pub(crate) fn encode_base64(bytes: &Vec<u8>) -> (r: String)
    requires
        (bytes@.len() + 2) / 3 * 4 <= usize::MAX,
    ensures
        r@ == base64_text(bytes@),
{
    base64::Engine::encode(&base64::engine::general_purpose::STANDARD, bytes)
}

#[derive(Debug)]
pub struct LlmClient {
    pub base_url: String,
    pub api_key: String,
    pub model: String,
    pub max_tokens: u32,
    pub timeout: Duration,
}

impl Clone for LlmClient {
    fn clone(&self) -> (r: Self)
        ensures
            r == *self,
    {
        LlmClient {
            base_url: self.base_url.clone(),
            api_key: self.api_key.clone(),
            model: self.model.clone(),
            max_tokens: self.max_tokens,
            timeout: self.timeout,
        }
    }
}

impl LlmClient {
    /// `base_url` ends at the API root, for example `http://localhost:1234/v1`.
    pub fn new(
        base_url: &str,
        api_key: &str,
        model: &str,
        max_tokens: u32,
        timeout: Duration,
    ) -> (r: Self)
        ensures
            r.base_url@ == without_slashes(base_url@),
            r.api_key@ == api_key@,
            r.model@ == model@,
            r.max_tokens == max_tokens,
            r.timeout == timeout,
    {
        LlmClient {
            base_url: trim_slashes(base_url),
            api_key: api_key.to_owned(),
            model: model.to_owned(),
            max_tokens,
            timeout,
        }
    }

    /// The key goes out only if there is one.
    pub open spec fn auth(self) -> AuthView {
        if self.api_key@.len() == 0 {
            AuthView::Anonymous
        } else {
            AuthView::Bearer(self.api_key@)
        }
    }

    /// The auth of a request: the key, if there is one.
    pub fn authorize(&self) -> (r: Auth)
        ensures
            r@ == self.auth(),
    {
        if self.api_key.as_str().unicode_len() == 0 {
            Auth::Anonymous
        } else {
            Auth::Bearer(self.api_key.clone())
        }
    }

    /// Asks for the models, which proves URL and key.
    pub fn ping(&self) -> (r: Request)
        ensures
            r@ == (RequestView {
                method: Method::Get,
                url: self.base_url@ + "/models"@,
                auth: self.auth(),
                body: None,
            }),
    {
        Request {
            method: Method::Get,
            url: cat(self.base_url.as_str(), "/models"),
            auth: self.authorize(),
            body: None,
        }
    }

    /// The request for a description of the image at `image_url`.
    pub open spec fn description_request(
        self,
        image_url: Seq<char>,
        prompt: Seq<char>,
    ) -> RequestView {
        RequestView {
            method: Method::Post,
            url: self.base_url@ + "/chat/completions"@,
            auth: self.auth(),
            body: Some(chat_body(self.model@, self.max_tokens, prompt, image_url)),
        }
    }

    /// Asks the model for a description of one JPEG.
    pub fn describe(&self, jpeg: &Vec<u8>, prompt: &str) -> (r: Request)
        requires
            (jpeg@.len() + 2) / 3 * 4 <= usize::MAX,
        ensures
            r@ == self.description_request(
                "data:image/jpeg;base64,"@ + base64_text(jpeg@),
                prompt@,
            ),
    {
        let url = cat("data:image/jpeg;base64,", encode_base64(jpeg).as_str());
        self.describe_at(url.as_str(), prompt)
    }

    /// Asks the model for a description of the image at `image_url`.
    pub fn describe_at(&self, image_url: &str, prompt: &str) -> (r: Request)
        ensures
            r@ == self.description_request(image_url@, prompt@),
    {
        let question = json_with(
            json_member("type", json_text("text")),
            "text",
            json_text(prompt),
        );
        assert(question.deep()->Object_0 =~= text_part(prompt@)->Object_0);
        let image = json_with(
            json_member("type", json_text("image_url")),
            "image_url",
            json_member("url", json_text(image_url)),
        );
        assert(image.deep()->Object_0 =~= image_part(image_url@)->Object_0);
        let mut parts: Vec<Json> = Vec::new();
        parts.push(question);
        parts.push(image);
        let content = json_list(parts);
        assert(content.deep()->List_0 =~= seq![text_part(prompt@), image_part(image_url@)]);
        let message = json_with(json_member("role", json_text("user")), "content", content);
        assert(message.deep()->Object_0 =~= user_message(prompt@, image_url@)->Object_0);
        let mut messages: Vec<Json> = Vec::new();
        messages.push(message);
        let messages = json_list(messages);
        assert(messages.deep()->List_0 =~= seq![user_message(prompt@, image_url@)]);
        let body = json_member("model", json_text(self.model.as_str()));
        let body = json_with(body, "max_tokens", Json::Number(self.max_tokens));
        let body = json_with(body, "messages", messages);
        assert(body.deep()->Object_0 =~= chat_body(
            self.model@,
            self.max_tokens,
            prompt@,
            image_url@,
        )->Object_0);
        Request {
            method: Method::Post,
            url: cat(self.base_url.as_str(), "/chat/completions"),
            auth: self.authorize(),
            body: Some(body),
        }
    }
}

/// The prompt as a part of a message.
pub open spec fn text_part(prompt: Seq<char>) -> JsonView {
    JsonView::Object(
        seq![("type"@, JsonView::Text("text"@)), ("text"@, JsonView::Text(prompt))],
    )
}

/// The image as a part of a message.
pub open spec fn image_part(image_url: Seq<char>) -> JsonView {
    JsonView::Object(
        seq![
            ("type"@, JsonView::Text("image_url"@)),
            ("image_url"@, JsonView::Object(seq![("url"@, JsonView::Text(image_url))])),
        ],
    )
}

/// The user's message: the prompt, then the image.
pub open spec fn user_message(prompt: Seq<char>, image_url: Seq<char>) -> JsonView {
    JsonView::Object(
        seq![
            ("role"@, JsonView::Text("user"@)),
            ("content"@, JsonView::List(seq![text_part(prompt), image_part(image_url)])),
        ],
    )
}

/// The body of a chat completion with one message.
pub open spec fn chat_body(
    model: Seq<char>,
    max_tokens: u32,
    prompt: Seq<char>,
    image_url: Seq<char>,
) -> JsonView {
    JsonView::Object(
        seq![
            ("model"@, JsonView::Text(model)),
            ("max_tokens"@, JsonView::Number(max_tokens as nat)),
            ("messages"@, JsonView::List(seq![user_message(prompt, image_url)])),
        ],
    )
}

} // verus!
