//! HTTP boundary records, routing and response shaping.
use vstd::prelude::*;
use vstd::utf8::encode_utf8;
use vstd::string::StrSliceExecFns;
use crate::turn::{ConversationTurn, IncomingPayload, TurnView, map_messages, mapped_turns, turn_views};

verus! {

/// A request as the transport hands it over.
#[derive(Debug, Clone)]
pub struct HttpRequest {
    pub method: String,
    pub url: String,
    pub headers: Vec<(String, String)>,
    pub body: Vec<u8>,
}

/// A response as handed back to the transport.
#[derive(Debug, Clone, PartialEq)]
pub struct HttpResponse {
    pub status: u16,
    pub headers: Vec<(String, String)>,
    pub body: Vec<u8>,
}

/// The mathematical value of an `HttpResponse`.
pub struct ResponseView {
    pub status: u16,
    pub headers: Seq<(Seq<char>, Seq<char>)>,
    pub body: Seq<u8>,
}

/// The views of a list of headers, in order.
pub open spec fn header_views(headers: Seq<(String, String)>) -> Seq<(Seq<char>, Seq<char>)> {
    headers.map_values(|h: (String, String)| (h.0@, h.1@))
}

impl View for HttpResponse {
    type V = ResponseView;

    open spec fn view(&self) -> ResponseView {
        ResponseView { status: self.status, headers: header_views(self.headers@), body: self.body@ }
    }
}

/// The header that lets any origin read a response.
pub open spec fn allow_any_origin() -> (Seq<char>, Seq<char>) {
    ("Access-Control-Allow-Origin"@, "*"@)
}

/// The answer to a preflight request: no content and the three CORS headers.
pub open spec fn preflight_view() -> ResponseView {
    ResponseView {
        status: 204,
        headers: seq![
            allow_any_origin(),
            ("Access-Control-Allow-Methods"@, "POST, OPTIONS"@),
            ("Access-Control-Allow-Headers"@, "Content-Type"@),
        ],
        body: Seq::empty(),
    }
}

/// A plain-text response with the given status and body, readable from any origin.
pub open spec fn text_view(status: u16, body: Seq<u8>) -> ResponseView {
    ResponseView {
        status,
        headers: seq![("Content-Type"@, "text/plain"@), allow_any_origin()],
        body,
    }
}

/// The answer to a request that no route takes.
pub open spec fn not_found_view() -> ResponseView {
    text_view(404, encode_utf8("Not Found"@))
}

/// The answer to a chat request whose body did not decode.
pub open spec fn invalid_json_view(error: Seq<char>) -> ResponseView {
    text_view(400, encode_utf8("Invalid JSON: "@ + error))
}

/// The answer that carries the model's reply.
pub open spec fn reply_view(text: Seq<char>) -> ResponseView {
    text_view(200, encode_utf8(text))
}

fn header(name: &str, value: &str) -> (h: (String, String))
    ensures
        h.0@ == name@,
        h.1@ == value@,
{
    (String::from_str(name), String::from_str(value))
}

fn text_plain_response(status: u16, body: Vec<u8>) -> (response: HttpResponse)
    ensures
        response@ == text_view(status, body@),
{
    let mut headers: Vec<(String, String)> = Vec::new();
    headers.push(header("Content-Type", "text/plain"));
    headers.push(header("Access-Control-Allow-Origin", "*"));
    let response = HttpResponse { status, headers, body };
    assert(response@.headers =~= text_view(status, body@).headers);
    response
}

/// The response to a CORS preflight request.
pub fn preflight_response() -> (response: HttpResponse)
    ensures
        response@ == preflight_view(),
{
    let mut headers: Vec<(String, String)> = Vec::new();
    headers.push(header("Access-Control-Allow-Origin", "*"));
    headers.push(header("Access-Control-Allow-Methods", "POST, OPTIONS"));
    headers.push(header("Access-Control-Allow-Headers", "Content-Type"));
    let response = HttpResponse { status: 204, headers, body: Vec::new() };
    assert(response@.headers =~= preflight_view().headers);
    assert(response@.body =~= preflight_view().body);
    response
}

/// The response to a request that no route takes.
pub fn not_found_response() -> (response: HttpResponse)
    ensures
        response@ == not_found_view(),
{
    text_plain_response(404, "Not Found".as_bytes_vec())
}

/// The response to a chat request whose body did not decode, given the
/// decoder's description of the error.
pub fn invalid_json_response(error: &str) -> (response: HttpResponse)
    ensures
        response@ == invalid_json_view(error@),
{
    let mut text = String::from_str("Invalid JSON: ");
    text.append(error);
    text_plain_response(400, text.as_str().as_bytes_vec())
}

/// The response that carries the model's reply as UTF-8 text.
pub fn reply_response(text: String) -> (response: HttpResponse)
    ensures
        response@ == reply_view(text@),
{
    text_plain_response(200, text.as_str().as_bytes_vec())
}

/// What `str::to_uppercase` makes of a text.
pub uninterp spec fn upper_of(s: Seq<char>) -> Seq<char>;

/// Relies on `str::to_uppercase`: the upper-case form of a text, which
/// depends on its characters alone.
#[verifier::external_body]
fn to_upper(s: &str) -> (upper: String)
    ensures
        upper@ == upper_of(s@),
{
    s.to_uppercase()
}

/// Whether `prefix` opens `s`.
pub open spec fn has_prefix(s: Seq<char>, prefix: Seq<char>) -> bool {
    prefix.len() <= s.len() && s.subrange(0, prefix.len() as int) == prefix
}

/// Whether `prefix` opens `s`, character by character.
pub fn starts_with(s: &str, prefix: &str) -> (r: bool)
    ensures
        r == has_prefix(s@, prefix@),
{
    let n = prefix.unicode_len();
    let m = s.unicode_len();
    if n > m {
        return false;
    }
    let mut i: usize = 0;
    while i < n
        invariant
            i <= n <= m,
            n == prefix@.len(),
            m == s@.len(),
            forall|j: int| 0 <= j < i ==> s@[j] == prefix@[j],
        decreases n - i,
    {
        if s.get_char(i) != prefix.get_char(i) {
            assert(s@.subrange(0, n as int)[i as int] != prefix@[i as int]);
            return false;
        }
        i = i + 1;
    }
    assert(s@.subrange(0, n as int) =~= prefix@);
    true
}

/// Where a request goes.
#[derive(Debug, Clone, Copy, PartialEq, Eq, Structural)]
pub enum Route {
    /// A CORS preflight request.
    Preflight,
    /// A chat request, whose body is to be decoded.
    Chat,
    /// Anything else.
    NotFound,
}

/// The route for a request, given the upper-case form of its method and its
/// URL: `OPTIONS` first, then `POST` on any URL that starts with `/chat`.
pub open spec fn route_spec(upper_method: Seq<char>, url: Seq<char>) -> Route {
    if upper_method == "OPTIONS"@ {
        Route::Preflight
    } else if upper_method == "POST"@ && has_prefix(url, "/chat"@) {
        Route::Chat
    } else {
        Route::NotFound
    }
}

/// The route for a request, given the upper-case form of its method and its URL.
pub fn route_of(upper_method: &str, url: &str) -> (route: Route)
    ensures
        route == route_spec(upper_method@, url@),
{
    let method = String::from_str(upper_method);
    if method == String::from_str("OPTIONS") {
        Route::Preflight
    } else if method == String::from_str("POST") && starts_with(url, "/chat") {
        Route::Chat
    } else {
        Route::NotFound
    }
}

/// The route for a request; the method is compared without regard to case.
pub fn route(request: &HttpRequest) -> (route: Route)
    ensures
        route == route_spec(upper_of(request.method@), request.url@),
{
    let upper = to_upper(request.method.as_str());
    route_of(upper.as_str(), request.url.as_str())
}

/// The first step of answering a request.
#[derive(Debug)]
pub enum Start {
    /// The request is answered without reading its body.
    Respond(HttpResponse),
    /// The body is to be decoded as a chat payload.
    DecodeBody,
}

/// The mathematical value of a `Start`.
pub enum StartView {
    Respond(ResponseView),
    DecodeBody,
}

impl View for Start {
    type V = StartView;

    open spec fn view(&self) -> StartView {
        match self {
            Start::Respond(r) => StartView::Respond(r@),
            Start::DecodeBody => StartView::DecodeBody,
        }
    }
}

/// The first step for a request on a route.
pub open spec fn start_spec(route: Route) -> StartView {
    match route {
        Route::Preflight => StartView::Respond(preflight_view()),
        Route::Chat => StartView::DecodeBody,
        Route::NotFound => StartView::Respond(not_found_view()),
    }
}

/// The first step for a request on a route: a preflight or not-found answer,
/// or a request to decode the body.
pub fn start_on(route: Route) -> (step: Start)
    ensures
        step@ == start_spec(route),
{
    match route {
        Route::Preflight => Start::Respond(preflight_response()),
        Route::Chat => Start::DecodeBody,
        Route::NotFound => Start::Respond(not_found_response()),
    }
}

/// The first step of answering a request. The body is never read here.
pub fn start(request: &HttpRequest) -> (step: Start)
    ensures
        step@ == start_spec(route_spec(upper_of(request.method@), request.url@)),
{
    start_on(route(request))
}

/// The step after a chat request's body has been decoded.
#[derive(Debug)]
pub enum ChatStep {
    /// The body did not decode: answer at once.
    Respond(HttpResponse),
    /// Send these turns for inference and answer with the reply.
    Infer(Vec<ConversationTurn>),
}

/// The mathematical value of a `ChatStep`.
pub enum ChatStepView {
    Respond(ResponseView),
    Infer(Seq<TurnView>),
}

impl View for ChatStep {
    type V = ChatStepView;

    open spec fn view(&self) -> ChatStepView {
        match self {
            ChatStep::Respond(r) => ChatStepView::Respond(r@),
            ChatStep::Infer(turns) => ChatStepView::Infer(turn_views(turns@)),
        }
    }
}

/// The step after decoding, given the payload or the decoder's description
/// of the error.
pub open spec fn decoded_spec(decoded: Result<IncomingPayload, String>) -> ChatStepView {
    match decoded {
        Ok(payload) => ChatStepView::Infer(mapped_turns(payload.messages@)),
        Err(error) => ChatStepView::Respond(invalid_json_view(error@)),
    }
}

/// The step after a chat request's body was decoded: a 400 answer that
/// quotes the decoder's error, or the payload's messages mapped onto turns.
pub fn on_decoded(decoded: Result<IncomingPayload, String>) -> (step: ChatStep)
    ensures
        step@ == decoded_spec(decoded),
{
    match decoded {
        Ok(payload) => ChatStep::Infer(map_messages(&payload.messages)),
        Err(error) => ChatStep::Respond(invalid_json_response(error.as_str())),
    }
}

/// A preflight request, whatever its URL and body, is answered with status
/// 204, no content and exactly the three CORS headers.
pub proof fn lemma_preflight_for_any_url(upper_method: Seq<char>, url: Seq<char>)
    requires
        upper_method == "OPTIONS"@,
    ensures
        start_spec(route_spec(upper_method, url)) == StartView::Respond(preflight_view()),
        preflight_view().status == 204,
        preflight_view().body.len() == 0,
        preflight_view().headers == seq![
            ("Access-Control-Allow-Origin"@, "*"@),
            ("Access-Control-Allow-Methods"@, "POST, OPTIONS"@),
            ("Access-Control-Allow-Headers"@, "Content-Type"@),
        ],
{
}

/// A request whose method is neither `OPTIONS` nor `POST` is answered with
/// 404 and `Not Found`, whatever its URL: a `GET` on `/chat` is not a chat.
pub proof fn lemma_other_methods_not_found(upper_method: Seq<char>, url: Seq<char>)
    requires
        upper_method != "OPTIONS"@,
        upper_method != "POST"@,
    ensures
        start_spec(route_spec(upper_method, url)) == StartView::Respond(not_found_view()),
        not_found_view().status == 404,
        not_found_view().body == encode_utf8("Not Found"@),
{
}

/// A `POST` on any URL that starts with `/chat` goes to the chat handler.
pub proof fn lemma_chat_prefix_routes(url: Seq<char>)
    requires
        has_prefix(url, "/chat"@),
    ensures
        route_spec("POST"@, url) == Route::Chat,
        start_spec(route_spec("POST"@, url)) == StartView::DecodeBody,
{
    reveal_strlit("POST");
    reveal_strlit("OPTIONS");
    assert("POST"@.len() != "OPTIONS"@.len());
}

/// Encoding two texts one after the other gives the concatenated encodings.
pub proof fn lemma_encode_utf8_concat(a: Seq<char>, b: Seq<char>)
    ensures
        encode_utf8(a + b) == encode_utf8(a) + encode_utf8(b),
    decreases a.len(),
{
    if a.len() == 0 {
        assert(a + b =~= b);
        assert(encode_utf8(a) =~= Seq::<u8>::empty());
        assert(encode_utf8(a) + encode_utf8(b) =~= encode_utf8(b));
    } else {
        assert((a + b).drop_first() =~= a.drop_first() + b);
        lemma_encode_utf8_concat(a.drop_first(), b);
        assert(encode_utf8(a + b) =~= encode_utf8(a) + encode_utf8(b));
    }
}

/// A body that fails to decode is answered with status 400, plain text
/// readable from any origin, and a body that opens with `Invalid JSON: `
/// followed by the decoder's description of the error.
pub proof fn lemma_decode_failure_response(error: Seq<char>)
    ensures
        invalid_json_view(error).status == 400,
        invalid_json_view(error).headers == seq![
            ("Content-Type"@, "text/plain"@),
            ("Access-Control-Allow-Origin"@, "*"@),
        ],
        invalid_json_view(error).body == encode_utf8("Invalid JSON: "@) + encode_utf8(error),
{
    lemma_encode_utf8_concat("Invalid JSON: "@, error);
}

} // verus!
