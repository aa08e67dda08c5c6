//! The notification feed's data, its error type and the request that fetches it.

use reqwest::header::{HeaderMap, HeaderValue, InvalidHeaderValue};
use vstd::prelude::*;
use vstd::utf8::{encode_scalar, encode_utf8, has_width_1_encoding};

verus! {

/// Where the pending notifications are fetched from.
pub const NOTIFICATIONS_URL: &'static str = "https://api.github.com/notifications";

/// The header that names the media type asked for.
pub const ACCEPT_NAME: &'static str = "Accept";

/// The media type asked of the feed.
pub const ACCEPT_VALUE: &'static str = "application/vnd.github+json";

/// The header that names the version of the feed's interface.
pub const API_VERSION_NAME: &'static str = "X-GitHub-Api-Version";

/// The version of the feed's interface that the request is written for.
pub const API_VERSION_VALUE: &'static str = "2022-11-28";

/// The header under which the program introduces itself.
pub const USER_AGENT_NAME: &'static str = "User-Agent";

/// The name under which the program introduces itself.
pub const USER_AGENT_VALUE: &'static str = "Danbot";

/// The header that carries the token.
pub const AUTHORIZATION_NAME: &'static str = "Authorization";

/// What stands before the token in the `Authorization` header.
pub const BEARER_PREFIX: &'static str = "Bearer ";

/// What the HTTP client says of a text that it refuses as a header value.
pub const INVALID_HEADER_TEXT: &'static str = "failed to parse header value";

/// The repository a notification comes from.
#[derive(Debug)]
pub struct Repository {
    pub id: String,
    pub name: String,
    pub full_name: String,
    pub html_url: String,
    pub description: Option<String>,
}

/// A repository as contracts see it.
pub struct RepositoryView {
    pub id: Seq<char>,
    pub name: Seq<char>,
    pub full_name: Seq<char>,
    pub html_url: Seq<char>,
    pub description: Option<Seq<char>>,
}

impl View for Repository {
    type V = RepositoryView;

    open spec fn view(&self) -> RepositoryView {
        RepositoryView {
            id: self.id@,
            name: self.name@,
            full_name: self.full_name@,
            html_url: self.html_url@,
            description: match self.description {
                Some(d) => Some(d@),
                None => None,
            },
        }
    }
}

impl Clone for Repository {
    fn clone(&self) -> (copy: Self)
        ensures
            copy@ == self@,
    {
        let description = match &self.description {
            Some(d) => Some(d.clone()),
            None => None,
        };
        Repository {
            id: self.id.clone(),
            name: self.name.clone(),
            full_name: self.full_name.clone(),
            html_url: self.html_url.clone(),
            description,
        }
    }
}

/// What a notification is about.
#[derive(Debug)]
pub struct Subject {
    pub title: String,
    pub category: String,
}

/// A subject as contracts see it.
pub struct SubjectView {
    pub title: Seq<char>,
    pub category: Seq<char>,
}

impl View for Subject {
    type V = SubjectView;

    open spec fn view(&self) -> SubjectView {
        SubjectView { title: self.title@, category: self.category@ }
    }
}

impl Clone for Subject {
    fn clone(&self) -> (copy: Self)
        ensures
            copy@ == self@,
    {
        Subject { title: self.title.clone(), category: self.category.clone() }
    }
}

/// One pending item of the feed. It is read, never changed.
#[derive(Debug)]
pub struct Notification {
    pub id: String,
    pub repository: Repository,
    pub subject: Subject,
}

/// A notification as contracts see it.
pub struct NotificationView {
    pub id: Seq<char>,
    pub repository: RepositoryView,
    pub subject: SubjectView,
}

impl View for Notification {
    type V = NotificationView;

    open spec fn view(&self) -> NotificationView {
        NotificationView { id: self.id@, repository: self.repository@, subject: self.subject@ }
    }
}

impl Clone for Notification {
    fn clone(&self) -> (copy: Self)
        ensures
            copy@ == self@,
    {
        Notification {
            id: self.id.clone(),
            repository: self.repository.clone(),
            subject: self.subject.clone(),
        }
    }
}

/// The views of a run of notifications, in the same order.
pub open spec fn notification_views(items: Seq<Notification>) -> Seq<NotificationView> {
    items.map_values(|n: Notification| n@)
}

/// Why a request to the feed failed.
#[derive(Debug)]
pub struct RequestError {
    message: String,
}

/// A request error as contracts see it.
pub struct RequestErrorView {
    pub message: Seq<char>,
}

impl View for RequestError {
    type V = RequestErrorView;

    closed spec fn view(&self) -> RequestErrorView {
        RequestErrorView { message: self.message@ }
    }
}

impl Clone for RequestError {
    fn clone(&self) -> (copy: Self)
        ensures
            copy@ == self@,
    {
        RequestError { message: self.message.clone() }
    }
}

impl RequestError {
    /// An error that carries `msg`.
    pub fn new(msg: &str) -> (e: Self)
        ensures
            e@.message == msg@,
    {
        Self { message: msg.to_owned() }
    }

    /// The text the error was made with.
    pub fn message(&self) -> (m: &str)
        ensures
            m@ == self@.message,
    {
        self.message.as_str()
    }

    /// The error as a line for the console.
    pub fn to_string(&self) -> (line: String)
        ensures
            line@ == error_line(self@.message),
    {
        "RequestError: ".to_owned().concat(self.message.as_str())
    }
}

/// The console line for an error with the given message.
pub open spec fn error_line(message: Seq<char>) -> Seq<char> {
    "RequestError: "@ + message
}

/// `reqwest::header::HeaderMap`, which is the `http` crate's. Nothing inside it is known
/// here: what it holds goes by the name `header_entries`.
#[verifier::external_type_specification]
#[verifier::external_body]
#[verifier::reject_recursive_types(T)]
pub struct ExHeaderMap<T>(HeaderMap<T>);

/// `reqwest::header::HeaderValue`, which is the `http` crate's. Nothing inside it is known
/// here: what it holds goes by the name `header_value_bytes`.
#[verifier::external_type_specification]
#[verifier::external_body]
pub struct ExHeaderValue(HeaderValue);

/// `reqwest::header::InvalidHeaderValue`, the `http` crate's error for a text that is no
/// header value. It is only carried through and turned into a `RequestError`.
#[verifier::external_type_specification]
#[verifier::external_body]
pub struct ExInvalidHeaderValue(InvalidHeaderValue);

/// What a header map holds: under each name, in lower case, the bytes of the first value
/// kept for it. `empty_headers` and `insert_header` say how the calls change it.
pub uninterp spec fn header_entries(map: HeaderMap) -> Map<Seq<char>, Seq<u8>>;

/// The bytes that a header value holds. `parse_header_value` says what they are for a
/// value made from a text.
pub uninterp spec fn header_value_bytes(value: HeaderValue) -> Seq<u8>;

/// A byte that may stand in a header value: a tab, or anything from the space on but DEL.
pub open spec fn is_value_byte(b: u8) -> bool {
    (b >= 32 && b != 127) || b == 9
}

/// A text whose bytes, in UTF-8, may all stand in a header value.
pub open spec fn is_header_value(text: Seq<char>) -> bool {
    forall|i: int| 0 <= i < encode_utf8(text).len() ==> is_value_byte(#[trigger] encode_utf8(text)[i])
}

/// A character that may stand in a header value: a tab, or anything from the space on but
/// DEL. Every character beyond ASCII is among them.
pub open spec fn is_value_char(c: char) -> bool {
    c == '\t' || (' ' <= c && c != '\u{7f}')
}

/// A text that can be a header value: it holds no control character but the tab.
pub open spec fn is_header_text(text: Seq<char>) -> bool {
    forall|i: int| 0 <= i < text.len() ==> is_value_char(#[trigger] text[i])
}

/// A character of the header names used here: an ASCII letter, a digit or a hyphen.
pub open spec fn is_name_char(c: char) -> bool {
    ('a' <= c && c <= 'z') || ('A' <= c && c <= 'Z') || ('0' <= c && c <= '9') || c == '-'
}

/// A header name of at most 64 such characters, and not empty.
pub open spec fn is_header_name(name: Seq<char>) -> bool {
    &&& 1 <= name.len() <= 64
    &&& forall|i: int| 0 <= i < name.len() ==> is_name_char(#[trigger] name[i])
}

/// The lower-case form of an ASCII letter; any other character is left alone.
pub open spec fn lower_char(c: char) -> char {
    if 'A' <= c && c <= 'Z' {
        ((c as u32) + 32) as char
    } else {
        c
    }
}

/// The key under which a header map files a name: the name in lower case.
pub open spec fn header_key(name: Seq<char>) -> Seq<char> {
    name.map_values(|c: char| lower_char(c))
}

/// A header map's contents when it holds nothing.
pub open spec fn no_headers() -> Map<Seq<char>, Seq<u8>> {
    Map::empty()
}

/// Calls `HeaderMap::new`. Trusted: the new map holds nothing.
#[verifier::external_body]
fn empty_headers() -> (headers: HeaderMap)
    ensures
        header_entries(headers) == no_headers(),
{
    HeaderMap::new()
}

/// Calls `HeaderValue::from_str`. Trusted: the text is taken exactly when each of its bytes
/// may stand in a header value, and the value then holds the text's bytes.
#[verifier::external_body]
fn parse_header_value(text: &str) -> (parsed: Result<HeaderValue, InvalidHeaderValue>)
    ensures
        parsed is Ok <==> is_header_value(text@),
        parsed matches Ok(value) ==> header_value_bytes(value) == encode_utf8(text@),
{
    HeaderValue::from_str(text)
}

/// Calls `HeaderMap::insert` with the name given as text. Trusted: the value replaces
/// whatever the map held under the name's lower-case form, and nothing else changes. The
/// call panics on a text that is no header name and on a map that has reached its greatest
/// size; both are left out, and more narrowly than the call needs.
#[verifier::external_body]
fn insert_header(map: &mut HeaderMap, name: &'static str, value: HeaderValue)
    requires
        is_header_name(name@),
        header_entries(*old(map)).dom().finite(),
        header_entries(*old(map)).dom().len() < 1024,
    ensures
        header_entries(*final(map)) == header_entries(*old(map)).insert(
            header_key(name@),
            header_value_bytes(value),
        ),
{
    map.insert(name, value);
}

/// Formats an `InvalidHeaderValue` through its `Display`. Trusted: the text is always the
/// same sentence.
#[verifier::external_body]
fn header_error_text(error: &InvalidHeaderValue) -> (text: String)
    ensures
        text@ == INVALID_HEADER_TEXT@,
{
    format!("{error}")
}

impl RequestError {
    /// The request error for a text that the HTTP client refused as a header value.
    pub fn from_header_error(value: InvalidHeaderValue) -> (e: Self)
        ensures
            e@.message == INVALID_HEADER_TEXT@,
    {
        RequestError { message: header_error_text(&value) }
    }
}

/// The `Authorization` value for a token.
pub open spec fn bearer(token: Seq<char>) -> Seq<char> {
    BEARER_PREFIX@ + token
}

/// The headers of a request for the feed: three fixed ones and the token.
pub open spec fn request_headers(token: Seq<char>) -> Map<Seq<char>, Seq<u8>> {
    no_headers().insert(header_key(ACCEPT_NAME@), encode_utf8(ACCEPT_VALUE@)).insert(
        header_key(API_VERSION_NAME@),
        encode_utf8(API_VERSION_VALUE@),
    ).insert(header_key(USER_AGENT_NAME@), encode_utf8(USER_AGENT_VALUE@)).insert(
        header_key(AUTHORIZATION_NAME@),
        encode_utf8(bearer(token)),
    )
}

/// The bytes of one character may all stand in a header value exactly when the character
/// may: an ASCII character is its own byte, and every byte of a longer form is above DEL.
proof fn lemma_value_char_by_bytes(c: char)
    ensures
        is_value_char(c) <==> (forall|j: int|
            0 <= j < encode_scalar(c as u32).len() ==> is_value_byte(
                #[trigger] encode_scalar(c as u32)[j],
            )),
{
    let scalar = c as u32;
    let bytes = encode_scalar(scalar);
    if has_width_1_encoding(scalar) {
        assert((scalar & 0x7F) as u8 == scalar) by (bit_vector)
            requires
                scalar <= 0x7F,
        ;
        assert(bytes[0] == scalar);
    } else {
        assert(0xC0u8 | ((scalar >> 6) & 0x1F) as u8 >= 0x80u8) by (bit_vector);
        assert(0xE0u8 | ((scalar >> 12) & 0x0F) as u8 >= 0x80u8) by (bit_vector);
        assert(0xF0u8 | ((scalar >> 18) & 0x7) as u8 >= 0x80u8) by (bit_vector);
        assert(0x80u8 | (scalar & 0x3F) as u8 >= 0x80u8) by (bit_vector);
        assert(0x80u8 | ((scalar >> 6) & 0x3F) as u8 >= 0x80u8) by (bit_vector);
        assert(0x80u8 | ((scalar >> 12) & 0x3F) as u8 >= 0x80u8) by (bit_vector);
    }
}

/// Whether a text can be a header value is decided character by character: the rule on
/// its bytes and the rule on its characters say the same.
pub proof fn lemma_header_value_by_chars(text: Seq<char>)
    ensures
        is_header_value(text) <==> is_header_text(text),
    decreases text.len(),
{
    if text.len() > 0 {
        let head = encode_scalar(text[0] as u32);
        let rest = text.drop_first();
        let tail = encode_utf8(rest);
        let all = encode_utf8(text);
        lemma_value_char_by_bytes(text[0]);
        lemma_header_value_by_chars(rest);
        if is_header_value(text) {
            assert forall|j: int| 0 <= j < head.len() implies is_value_byte(#[trigger] head[j]) by {
                assert(all[j] == head[j]);
            }
            assert forall|j: int| 0 <= j < tail.len() implies is_value_byte(#[trigger] tail[j]) by {
                assert(all[head.len() + j] == tail[j]);
            }
            assert forall|i: int| 0 <= i < text.len() implies is_value_char(#[trigger] text[i]) by {
                if i > 0 {
                    assert(text[i] == rest[i - 1]);
                }
            }
        }
    }
}

/// The three fixed header values and the four header names are well formed, so that only
/// the token can make the headers fail.
pub proof fn lemma_fixed_headers_are_well_formed()
    ensures
        is_header_value(ACCEPT_VALUE@),
        is_header_value(API_VERSION_VALUE@),
        is_header_value(USER_AGENT_VALUE@),
        is_header_name(ACCEPT_NAME@),
        is_header_name(API_VERSION_NAME@),
        is_header_name(USER_AGENT_NAME@),
        is_header_name(AUTHORIZATION_NAME@),
{
    reveal_strlit("application/vnd.github+json");
    reveal_strlit("2022-11-28");
    reveal_strlit("Danbot");
    reveal_strlit("Accept");
    reveal_strlit("X-GitHub-Api-Version");
    reveal_strlit("User-Agent");
    reveal_strlit("Authorization");
    lemma_header_value_by_chars(ACCEPT_VALUE@);
    lemma_header_value_by_chars(API_VERSION_VALUE@);
    lemma_header_value_by_chars(USER_AGENT_VALUE@);
}

/// The `Authorization` value can be a header value exactly when the token can.
pub proof fn lemma_bearer_by_token(token: Seq<char>)
    ensures
        is_header_value(bearer(token)) <==> is_header_text(token),
{
    reveal_strlit("Bearer ");
    let whole = bearer(token);
    let lead = BEARER_PREFIX@.len();
    lemma_header_value_by_chars(whole);
    if is_header_text(whole) {
        assert forall|i: int| 0 <= i < token.len() implies is_value_char(#[trigger] token[i]) by {
            assert(whole[lead + i] == token[i]);
        }
    }
}

/// The request's headers spelled out: the map files them under their names in lower case,
/// there are exactly four of them, and the token is sent as a bearer token.
pub proof fn lemma_request_headers(token: Seq<char>)
    ensures
        request_headers(token).dom() =~= set![
            "accept"@,
            "x-github-api-version"@,
            "user-agent"@,
            "authorization"@,
        ],
        request_headers(token)["accept"@] == encode_utf8(ACCEPT_VALUE@),
        request_headers(token)["x-github-api-version"@] == encode_utf8(API_VERSION_VALUE@),
        request_headers(token)["user-agent"@] == encode_utf8(USER_AGENT_VALUE@),
        request_headers(token)["authorization"@] == encode_utf8(BEARER_PREFIX@ + token),
{
    reveal_strlit("Accept");
    reveal_strlit("X-GitHub-Api-Version");
    reveal_strlit("User-Agent");
    reveal_strlit("Authorization");
    reveal_strlit("accept");
    reveal_strlit("x-github-api-version");
    reveal_strlit("user-agent");
    reveal_strlit("authorization");
    assert(header_key(ACCEPT_NAME@) =~= "accept"@);
    assert(header_key(API_VERSION_NAME@) =~= "x-github-api-version"@);
    assert(header_key(USER_AGENT_NAME@) =~= "user-agent"@);
    assert(header_key(AUTHORIZATION_NAME@) =~= "authorization"@);
}

/// The headers of a request for the feed. Only a token that cannot stand in a header makes
/// this fail, that is one with a control character other than the tab; the fixed headers
/// never do.
pub fn create_headers(token: &str) -> (made: Result<HeaderMap, RequestError>)
    ensures
        made is Ok <==> is_header_text(token@),
        made matches Ok(headers) ==> header_entries(headers) == request_headers(token@),
        made matches Err(e) ==> e@.message == INVALID_HEADER_TEXT@,
{
    proof {
        lemma_fixed_headers_are_well_formed();
        lemma_bearer_by_token(token@);
    }
    let mut headers = empty_headers();
    match parse_header_value(ACCEPT_VALUE) {
        Ok(value) => insert_header(&mut headers, ACCEPT_NAME, value),
        Err(e) => return Err(RequestError::from_header_error(e)),
    }
    match parse_header_value(API_VERSION_VALUE) {
        Ok(value) => insert_header(&mut headers, API_VERSION_NAME, value),
        Err(e) => return Err(RequestError::from_header_error(e)),
    }
    match parse_header_value(USER_AGENT_VALUE) {
        Ok(value) => insert_header(&mut headers, USER_AGENT_NAME, value),
        Err(e) => return Err(RequestError::from_header_error(e)),
    }
    let auth_value = BEARER_PREFIX.to_owned().concat(token);
    match parse_header_value(auth_value.as_str()) {
        Ok(value) => insert_header(&mut headers, AUTHORIZATION_NAME, value),
        Err(e) => return Err(RequestError::from_header_error(e)),
    }
    Ok(headers)
}

/// A request for the pending notifications, ready to be sent.
#[derive(Debug)]
pub struct FetchRequest {
    pub url: String,
    pub headers: HeaderMap,
}

/// A request as contracts see it.
pub struct FetchRequestView {
    pub url: Seq<char>,
    pub headers: Map<Seq<char>, Seq<u8>>,
}

impl View for FetchRequest {
    type V = FetchRequestView;

    open spec fn view(&self) -> FetchRequestView {
        FetchRequestView { url: self.url@, headers: header_entries(self.headers) }
    }
}

/// The request for the pending notifications of the account behind `token`.
pub open spec fn fetch_request(token: Seq<char>) -> FetchRequestView {
    FetchRequestView { url: NOTIFICATIONS_URL@, headers: request_headers(token) }
}

/// The request that lists the pending notifications: one GET of the feed with the headers
/// for `token`. It fails only where the token cannot stand in a header.
pub fn list_notifications(token: &str) -> (planned: Result<FetchRequest, RequestError>)
    ensures
        planned is Ok <==> is_header_text(token@),
        planned matches Ok(request) ==> request@ == fetch_request(token@),
        planned matches Err(e) ==> e@.message == INVALID_HEADER_TEXT@,
{
    match create_headers(token) {
        Ok(headers) => Ok(FetchRequest { url: NOTIFICATIONS_URL.to_owned(), headers }),
        Err(e) => Err(e),
    }
}

/// Marks one notification as read. For now nothing is sent and the answer is always yes.
pub fn mark_read(_thread_id: String) -> (done: Result<(), RequestError>)
    ensures
        done is Ok,
{
    Ok(())
}

} // verus!
