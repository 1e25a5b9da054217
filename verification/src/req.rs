use crate::text::text_view;
use vstd::prelude::*;
use vstd::string::*;

verus! {

/// The two request methods that the service is spoken to with.
#[derive(Clone, Copy, Debug, PartialEq, Eq, Structural)]
pub enum Method {
    GET,
    POST,
}

/// The name of the one header that every request carries.
pub const USER_AGENT_HEADER: &'static str = "User-Agent";

/// The browser that the requests give themselves out for.
pub const USER_AGENT: &'static str =
    "Mozilla/5.0 (Macintosh; Intel Mac OS X 10_15_7) AppleWebKit/537.36 (KHTML, like Gecko) Chrome/92.0.4476.0 Safari/537.36";

/// The address of the service. Every other address starts with it.
pub const JTALK_URL: &'static str = "https://j-talk.com/";

/// The conversion page: it carries the token and shows who is logged in,
/// and submissions are posted to it.
pub const CONVERT_URL: &'static str = "https://j-talk.com/convert";

/// The address that a login is posted to.
pub const LOGIN_URL: &'static str = "https://j-talk.com/login";

/// What follows a result identifier in the address of the raw result page.
pub const RAW_SUFFIX: &'static str = "/raw";

/// One exchange that the transport is asked for: the method, the URL, and
/// the fields of the form that a `POST` submits, in order.
#[derive(Clone, Debug, PartialEq, Eq)]
pub struct Request {
    pub method: Method,
    pub url: String,
    pub form: Vec<(String, String)>,
}

/// What a `Request` holds, as sequences of characters.
pub ghost struct RequestView {
    pub method: Method,
    pub url: Seq<char>,
    pub form: Seq<(Seq<char>, Seq<char>)>,
}

impl View for Request {
    type V = RequestView;

    open spec fn view(&self) -> RequestView {
        RequestView { method: self.method, url: self.url@, form: self.form.deep_view() }
    }
}

/// What the transport hands back of one exchange: that it failed, or the
/// `Location` header of the response, where it has one, and its body.
#[derive(Clone, Debug, PartialEq, Eq)]
pub enum Reply {
    Answered { location: Option<String>, body: String },
    Failed,
}

/// What a `Reply` holds, as sequences of characters.
pub ghost enum ReplyView {
    Answered { location: Option<Seq<char>>, body: Seq<char> },
    Failed,
}

impl View for Reply {
    type V = ReplyView;

    open spec fn view(&self) -> ReplyView {
        match self {
            Reply::Answered { location, body } => ReplyView::Answered {
                location: text_view(*location),
                body: body@,
            },
            Reply::Failed => ReplyView::Failed,
        }
    }
}

/// The request for the conversion page.
pub open spec fn page_request() -> RequestView {
    RequestView { method: Method::GET, url: CONVERT_URL@, form: Seq::empty() }
}

/// The fields of the login form. The `remember` field is sent only where
/// the session is to be remembered, and is left out otherwise.
pub open spec fn login_form(
    token: Seq<char>,
    email: Seq<char>,
    password: Seq<char>,
    remember: bool,
) -> Seq<(Seq<char>, Seq<char>)> {
    let fields = seq![("_token"@, token), ("login"@, email), ("password"@, password)];
    if remember {
        fields.push(("remember"@, "on"@))
    } else {
        fields
    }
}

/// The request that posts the login.
pub open spec fn login_request(
    token: Seq<char>,
    email: Seq<char>,
    password: Seq<char>,
    remember: bool,
) -> RequestView {
    RequestView {
        method: Method::POST,
        url: LOGIN_URL@,
        form: login_form(token, email, password, remember),
    }
}

/// The request that submits a text for conversion.
pub open spec fn convert_request(token: Seq<char>, text: Seq<char>) -> RequestView {
    RequestView {
        method: Method::POST,
        url: CONVERT_URL@,
        form: seq![("_token"@, token), ("content"@, text), ("convertOption"@, "main"@)],
    }
}

/// The request for the raw page of a result.
pub open spec fn raw_request(id: Seq<char>) -> RequestView {
    RequestView { method: Method::GET, url: JTALK_URL@ + id + RAW_SUFFIX@, form: Seq::empty() }
}

/// The headers that every request carries, as pairs of name and value.
pub fn get_default_headers() -> (headers: Vec<(String, String)>)
    ensures
        headers.deep_view() == seq![(USER_AGENT_HEADER@, USER_AGENT@)],
{
    let mut headers: Vec<(String, String)> = Vec::new();
    headers.push((USER_AGENT_HEADER.to_owned(), USER_AGENT.to_owned()));
    headers
}

/// Builds the request for the conversion page.
pub fn make_page_request() -> (r: Request)
    ensures
        r@ == page_request(),
{
    let form: Vec<(String, String)> = Vec::new();
    assert(form.deep_view() =~= Seq::empty());
    Request { method: Method::GET, url: CONVERT_URL.to_owned(), form }
}

/// Builds the request that posts a login.
pub fn make_login_request(token: &str, email: &str, password: &str, remember: bool) -> (r: Request)
    ensures
        r@ == login_request(token@, email@, password@, remember),
{
    let mut form: Vec<(String, String)> = Vec::new();
    form.push(("_token".to_owned(), token.to_owned()));
    form.push(("login".to_owned(), email.to_owned()));
    form.push(("password".to_owned(), password.to_owned()));
    if remember {
        form.push(("remember".to_owned(), "on".to_owned()));
    }
    assert(form.deep_view() =~= login_form(token@, email@, password@, remember));
    Request { method: Method::POST, url: LOGIN_URL.to_owned(), form }
}

/// Builds the request that submits `text` for conversion.
pub fn make_convert_request(token: &str, text: &str) -> (r: Request)
    ensures
        r@ == convert_request(token@, text@),
{
    let mut form: Vec<(String, String)> = Vec::new();
    form.push(("_token".to_owned(), token.to_owned()));
    form.push(("content".to_owned(), text.to_owned()));
    form.push(("convertOption".to_owned(), "main".to_owned()));
    assert(form.deep_view() =~= seq![
        ("_token"@, token@),
        ("content"@, text@),
        ("convertOption"@, "main"@),
    ]);
    Request { method: Method::POST, url: CONVERT_URL.to_owned(), form }
}

/// Builds the request for the raw page of the result `id`.
pub fn make_raw_request(id: &str) -> (r: Request)
    ensures
        r@ == raw_request(id@),
{
    let mut url = JTALK_URL.to_owned();
    url.append(id);
    url.append(RAW_SUFFIX);
    let form: Vec<(String, String)> = Vec::new();
    assert(form.deep_view() =~= Seq::empty());
    Request { method: Method::GET, url, form }
}

} // verus!
