use crate::cookies::{cookie_entries, entries};
use crate::error::Error;
use crate::extract::{
    extract_segments, isolate_region, normalize, page_segments, segments_result_view,
};
use crate::location::{result_id, result_id_of};
use crate::markup::{read_session_page, session_page, session_result_view};
use crate::req::{
    convert_request, login_request, make_convert_request, make_login_request, make_page_request,
    make_raw_request, page_request, raw_request, Reply, ReplyView, Request, RequestView,
};
use crate::segment::Segment;
use crate::step::{
    quiet, After, AfterView, Next, NextView, Outcome, OutcomeView, Pending, PendingView, Step,
    StepView,
};
use crate::text::{as_slice, copy_text, text_view};
use vstd::prelude::*;

verus! {

/// Turns a raw result page into its segments: the line breaks are removed,
/// the content region is cut out, and the region is split into plain and
/// annotated runs.
pub fn get_result(page: &str) -> (r: Result<Vec<Segment>, Error>)
    ensures
        segments_result_view(r) == page_segments(page@),
{
    match normalize(page) {
        Err(e) => Err(e),
        Ok(clean) => match isolate_region(clean.as_str()) {
            Err(e) => Err(e),
            Ok(region) => extract_segments(region.as_str()),
        },
    }
}

/// The account to log in with, where there is one, and whether the service
/// is asked to remember the session. It cannot be printed: the secret of the
/// account is written nowhere.
#[derive(Clone, PartialEq, Eq)]
pub struct Config {
    pub account: Option<(String, String)>,
    pub remember: bool,
}

/// What a `Config` holds, as sequences of characters.
pub ghost struct ConfigView {
    pub account: Option<(Seq<char>, Seq<char>)>,
    pub remember: bool,
}

impl ConfigView {
    /// The identifier of the account, empty where there is no account.
    pub open spec fn email(self) -> Seq<char> {
        match self.account {
            Some(account) => account.0,
            None => Seq::empty(),
        }
    }

    /// The secret of the account, empty where there is no account.
    pub open spec fn password(self) -> Seq<char> {
        match self.account {
            Some(account) => account.1,
            None => Seq::empty(),
        }
    }
}

impl View for Config {
    type V = ConfigView;

    open spec fn view(&self) -> ConfigView {
        ConfigView {
            account: match self.account {
                Some(account) => Some((account.0@, account.1@)),
                None => None,
            },
            remember: self.remember,
        }
    }
}

impl Config {
    /// Whether there is an account to log in with.
    pub fn has_account(&self) -> (r: bool)
        ensures
            r == self@.account is Some,
    {
        match self.account {
            Some(_) => true,
            None => false,
        }
    }

    /// The identifier of the account, empty where there is none.
    pub fn get_email(&self) -> (r: &str)
        ensures
            r@ == self@.email(),
    {
        match &self.account {
            Some(account) => account.0.as_str(),
            None => {
                proof {
                    reveal_strlit("");
                }
                ""
            },
        }
    }

    /// The secret of the account, empty where there is none.
    pub fn get_password(&self) -> (r: &str)
        ensures
            r@ == self@.password(),
    {
        match &self.account {
            Some(account) => account.1.as_str(),
            None => {
                proof {
                    reveal_strlit("");
                }
                ""
            },
        }
    }
}

/// The state of a session with the service: the account and the cookie file
/// it was set up with, the token that the service last handed out, and
/// whether the service last showed the user as logged in.
#[derive(Clone, PartialEq, Eq)]
pub struct JTalk {
    cookie_file_path: Option<String>,
    config: Config,
    csrf_token: Option<String>,
    logged_in: bool,
}

/// What a session holds, as sequences of characters.
pub ghost struct JTalkView {
    pub cookie_file_path: Option<Seq<char>>,
    pub config: ConfigView,
    pub csrf_token: Option<Seq<char>>,
    pub logged_in: bool,
}

impl View for JTalk {
    type V = JTalkView;

    closed spec fn view(&self) -> JTalkView {
        JTalkView {
            cookie_file_path: text_view(self.cookie_file_path),
            config: self.config@,
            csrf_token: text_view(self.csrf_token),
            logged_in: self.logged_in,
        }
    }
}

/// The session that nothing has happened in yet.
pub open spec fn initial() -> JTalkView {
    JTalkView {
        cookie_file_path: None,
        config: ConfigView { account: None, remember: false },
        csrf_token: None,
        logged_in: false,
    }
}

/// The request that posts the login of the account in `config`.
pub open spec fn login_for(config: ConfigView, token: Seq<char>) -> RequestView {
    login_request(token, config.email(), config.password(), config.remember)
}

/// The session with the token and the login flag that the conversion page
/// holds, or the error that reading the page gives. Both are replaced, and
/// both by what this one page holds; nothing else changes.
pub open spec fn updated(s: JTalkView, page: Seq<char>) -> Result<JTalkView, Error> {
    match session_page(page) {
        Ok((token, logged_in)) => Ok(
            JTalkView { csrf_token: Some(token), logged_in: logged_in, ..s },
        ),
        Err(e) => Err(e),
    }
}

/// What an operation goes on with once the session holds `token`.
pub open spec fn after_page(s: JTalkView, after: AfterView, token: Seq<char>) -> NextView {
    match after {
        AfterView::Finish => NextView::Done(OutcomeView::Ready),
        AfterView::Token => NextView::Done(OutcomeView::Token(token)),
        AfterView::Login => if s.config.account is Some {
            NextView::Send(login_for(s.config, token), PendingView::Login)
        } else {
            NextView::Done(OutcomeView::Ready)
        },
        AfterView::Init => if !s.logged_in && s.config.account is Some {
            NextView::Send(login_for(s.config, token), PendingView::Login)
        } else {
            NextView::Done(OutcomeView::Ready)
        },
        AfterView::Convert(text) => NextView::Send(
            convert_request(token, text),
            PendingView::Convert,
        ),
    }
}

/// What an operation that needs the token does next: with a token at hand
/// it goes on at once, without one it asks for the conversion page.
pub open spec fn token_then(s: JTalkView, after: AfterView) -> NextView {
    match s.csrf_token {
        Some(token) => after_page(s, after, token),
        None => NextView::Send(page_request(), PendingView::Page(after)),
    }
}

/// The first step of an operation that needs the token.
pub open spec fn with_token(s: JTalkView, after: AfterView) -> StepView {
    quiet(token_then(s, after))
}

/// The session and the step that the reply to the pending exchange leads
/// to.
pub open spec fn resumed(s: JTalkView, pending: PendingView, reply: ReplyView) -> (
    JTalkView,
    StepView,
) {
    match reply {
        ReplyView::Failed => (s, quiet(NextView::Fail(Error::TransportError))),
        ReplyView::Answered { location, body } => match pending {
            PendingView::Page(after) => match updated(s, body) {
                Err(e) => (s, quiet(NextView::Fail(e))),
                Ok(t) => (
                    t,
                    StepView { save_cookies_to: s.cookie_file_path, next: token_then(t, after) },
                ),
            },
            PendingView::Login => (
                s,
                quiet(NextView::Send(page_request(), PendingView::Page(AfterView::Finish))),
            ),
            PendingView::Convert => match result_id_of(location) {
                Err(e) => (s, quiet(NextView::Fail(e))),
                Ok(id) => (
                    s,
                    quiet(NextView::Send(raw_request(id), PendingView::Conversion(id))),
                ),
            },
            PendingView::Result(id) => match page_segments(body) {
                Err(e) => (s, quiet(NextView::Fail(e))),
                Ok(segments) => (s, quiet(NextView::Done(OutcomeView::Converted(id, segments)))),
            },
            PendingView::Conversion(id) => match page_segments(body) {
                Err(e) => (s, quiet(NextView::Fail(e))),
                Ok(segments) => (
                    s,
                    StepView {
                        save_cookies_to: s.cookie_file_path,
                        next: NextView::Done(OutcomeView::Converted(id, segments)),
                    },
                ),
            },
        },
    }
}

/// The first step of a login. Without an account there is nothing to do:
/// no exchange is asked for and nothing is written.
pub open spec fn login_step(s: JTalkView) -> StepView {
    if s.config.account is Some {
        with_token(s, AfterView::Login)
    } else {
        quiet(NextView::Done(OutcomeView::Ready))
    }
}

/// The first step of bringing a session up: the conversion page is read,
/// whatever is at hand, and a login follows where it is called for.
pub open spec fn init_step() -> StepView {
    quiet(NextView::Send(page_request(), PendingView::Page(AfterView::Init)))
}

/// The first step of fetching the segments of the result `id`.
pub open spec fn result_step(id: Seq<char>) -> StepView {
    quiet(NextView::Send(raw_request(id), PendingView::Result(id)))
}

impl JTalk {
    /// A session without account, cookie file or token.
    pub fn new() -> (r: Self)
        ensures
            r@ == initial(),
    {
        JTalk {
            cookie_file_path: None,
            config: Config { account: None, remember: false },
            csrf_token: None,
            logged_in: false,
        }
    }

    /// Sets whether the service is asked to remember the session at login.
    pub fn remember(self, remember: bool) -> (r: Self)
        ensures
            r@ == (JTalkView {
                config: ConfigView { remember: remember, ..self@.config },
                ..self@
            }),
    {
        let mut this = self;
        this.config.remember = remember;
        this
    }

    /// Whether the session has an account to log in with.
    pub fn has_account(&self) -> (r: bool)
        ensures
            r == self@.config.account is Some,
    {
        self.config.has_account()
    }

    /// Sets the account to log in with.
    pub fn set_account(&mut self, email: String, password: String)
        ensures
            final(self)@ == (JTalkView {
                config: ConfigView { account: Some((email@, password@)), ..old(self)@.config },
                ..old(self)@
            }),
    {
        self.config.account = Some((email, password));
    }

    /// Sets the file that the cookies are kept in. From then on the step
    /// that follows a reading of the conversion page names the file, and so
    /// does the step that ends a conversion.
    pub fn set_cookie_file(&mut self, path: String)
        ensures
            final(self)@ == (JTalkView { cookie_file_path: Some(path@), ..old(self)@ }),
    {
        self.cookie_file_path = Some(path);
    }

    /// Cuts a cookie text into the cookies to seed the cookie store with:
    /// one for each line of the text.
    pub fn load_cookies(&self, cookie: String) -> (r: Vec<String>)
        ensures
            r.deep_view() == entries(cookie@),
    {
        cookie_entries(cookie.as_str())
    }

    /// The same as `load_cookies`.
    pub fn set_cookies(&self, cookie: String) -> (r: Vec<String>)
        ensures
            r.deep_view() == entries(cookie@),
    {
        self.load_cookies(cookie)
    }

    /// Whether the service showed the user as logged in when the conversion
    /// page was last read.
    pub fn is_logged_in(&self) -> (r: bool)
        ensures
            r == self@.logged_in,
    {
        self.logged_in
    }

    /// Reads the token and the login flag off the conversion page. The
    /// session is left as it is.
    fn refresh(&self, page: &str) -> (r: Result<(String, bool), Error>)
        ensures
            session_result_view(r) == session_page(page@),
    {
        read_session_page(page)
    }

    /// Replaces the token and the login flag by those that the conversion
    /// page holds: both together, and both from this one page. A page that
    /// cannot be read leaves both as they were. After a page that was read
    /// the cookies are to be written: the result names the cookie file,
    /// where the session has one.
    pub fn update(&mut self, page: &str) -> (r: Result<Option<String>, Error>)
        ensures
            match updated(old(self)@, page@) {
                Ok(t) => final(self)@ == t && r is Ok && text_view(r->Ok_0)
                    == old(self)@.cookie_file_path,
                Err(e) => final(self)@ == old(self)@ && r == Err::<Option<String>, Error>(e),
            },
    {
        match self.refresh(page) {
            Ok((token, logged_in)) => {
                self.csrf_token = Some(token);
                self.logged_in = logged_in;
                Ok(copy_text(&self.cookie_file_path))
            },
            Err(e) => Err(e),
        }
    }

    /// Builds the request that posts the login of the session's account.
    fn make_login(&self, token: &str) -> (r: Request)
        ensures
            r@ == login_for(self@.config, token@),
    {
        make_login_request(
            token,
            self.config.get_email(),
            self.config.get_password(),
            self.config.remember,
        )
    }

    /// What an operation goes on with once the session holds `token`.
    fn proceed(&self, after: After, token: &str) -> (r: Next)
        ensures
            r@ == after_page(self@, after@, token@),
    {
        match after {
            After::Finish => Next::Done(Outcome::Ready),
            After::Token => Next::Done(Outcome::Token(token.to_owned())),
            After::Login => {
                if self.config.has_account() {
                    Next::Send(self.make_login(token), Pending::Login)
                } else {
                    Next::Done(Outcome::Ready)
                }
            },
            After::Init => {
                if !self.logged_in && self.config.has_account() {
                    Next::Send(self.make_login(token), Pending::Login)
                } else {
                    Next::Done(Outcome::Ready)
                }
            },
            After::Convert(text) => Next::Send(
                make_convert_request(token, text.as_str()),
                Pending::Convert,
            ),
        }
    }

    /// What an operation that needs the token does next.
    fn next_with_token(&self, after: After) -> (r: Next)
        ensures
            r@ == token_then(self@, after@),
    {
        match &self.csrf_token {
            Some(token) => self.proceed(after, token.as_str()),
            None => Next::Send(make_page_request(), Pending::Page(after)),
        }
    }

    /// The first step of an operation that needs the token.
    fn start(&self, after: After) -> (r: Step)
        ensures
            r@ == with_token(self@, after@),
    {
        Step { save_cookies_to: None, next: self.next_with_token(after) }
    }

    /// Brings the session up: asks for the conversion page, and has the
    /// login follow where the page shows nobody logged in and there is an
    /// account.
    pub fn init(&self) -> (r: Step)
        ensures
            r@ == init_step(),
    {
        Step {
            save_cookies_to: None,
            next: Next::Send(make_page_request(), Pending::Page(After::Init)),
        }
    }

    /// Starts a login. Without an account this is done at once: no
    /// exchange is asked for, no cookie is written, and the session is as
    /// it was. With one, the login is posted with the token, which is
    /// fetched first where none is at hand, and the conversion page is read
    /// anew afterwards, whatever the service answered to the login.
    pub fn login(&self) -> (r: Step)
        ensures
            r@ == login_step(self@),
            self@.config.account is None ==> r@ == quiet(NextView::Done(OutcomeView::Ready)),
    {
        if self.config.has_account() {
            self.start(After::Login)
        } else {
            Step { save_cookies_to: None, next: Next::Done(Outcome::Ready) }
        }
    }

    /// Hands out the token that is at hand, or asks for the conversion page
    /// where there is none.
    pub fn get_token(&self) -> (r: Step)
        ensures
            r@ == with_token(self@, AfterView::Token),
            self@.csrf_token matches Some(token) ==> r@ == quiet(
                NextView::Done(OutcomeView::Token(token)),
            ),
    {
        self.start(After::Token)
    }

    /// Starts the conversion of `text`: the text is submitted with the
    /// token, which is fetched first where none is at hand.
    pub fn convert(&self, text: &str) -> (r: Step)
        ensures
            r@ == with_token(self@, AfterView::Convert(text@)),
    {
        self.start(After::Convert(text.to_owned()))
    }

    /// Starts fetching the segments of the result `result_id`.
    pub fn get_convert_result(&self, result_id: &str) -> (r: Step)
        ensures
            r@ == result_step(result_id@),
    {
        Step {
            save_cookies_to: None,
            next: Next::Send(make_raw_request(result_id), Pending::Result(result_id.to_owned())),
        }
    }

    /// Takes the reply to the pending exchange and says what to do next.
    /// Only the reply that holds the conversion page changes the session.
    pub fn resume(&mut self, pending: Pending, reply: Reply) -> (r: Step)
        ensures
            (final(self)@, r@) == resumed(old(self)@, pending@, reply@),
    {
        match reply {
            Reply::Failed => Step {
                save_cookies_to: None,
                next: Next::Fail(Error::TransportError),
            },
            Reply::Answered { location, body } => match pending {
                Pending::Page(after) => match self.update(body.as_str()) {
                    Err(e) => Step { save_cookies_to: None, next: Next::Fail(e) },
                    Ok(save_cookies_to) => Step {
                        save_cookies_to,
                        next: self.next_with_token(after),
                    },
                },
                Pending::Login => Step {
                    save_cookies_to: None,
                    next: Next::Send(make_page_request(), Pending::Page(After::Finish)),
                },
                Pending::Convert => match result_id(as_slice(&location)) {
                    Err(e) => Step { save_cookies_to: None, next: Next::Fail(e) },
                    Ok(id) => Step {
                        save_cookies_to: None,
                        next: Next::Send(make_raw_request(id.as_str()), Pending::Conversion(id)),
                    },
                },
                Pending::Result(id) => match get_result(body.as_str()) {
                    Err(e) => Step { save_cookies_to: None, next: Next::Fail(e) },
                    Ok(segments) => Step {
                        save_cookies_to: None,
                        next: Next::Done(Outcome::Converted(id, segments)),
                    },
                },
                Pending::Conversion(id) => match get_result(body.as_str()) {
                    Err(e) => Step { save_cookies_to: None, next: Next::Fail(e) },
                    Ok(segments) => Step {
                        save_cookies_to: copy_text(&self.cookie_file_path),
                        next: Next::Done(Outcome::Converted(id, segments)),
                    },
                },
            },
        }
    }
}

/// Whether `t` is `s` with the token and the login flag replaced by those
/// that the reply gives, the reply being one that holds the conversion
/// page.
pub open spec fn replaced_by_page(
    s: JTalkView,
    pending: PendingView,
    reply: ReplyView,
    t: JTalkView,
) -> bool {
    &&& pending is Page
    &&& reply matches ReplyView::Answered { body, .. }
    &&& updated(s, body) == Ok::<JTalkView, Error>(t)
}

/// The token and the login flag change together or not at all. A reply
/// leaves both as they were, or it is the reply that holds the conversion
/// page, and then both are what this one page gives. Nothing else of the
/// session ever changes.
pub proof fn lemma_token_and_flag_change_together(
    s: JTalkView,
    pending: PendingView,
    reply: ReplyView,
)
    ensures
        resumed(s, pending, reply).0.cookie_file_path == s.cookie_file_path,
        resumed(s, pending, reply).0.config == s.config,
        resumed(s, pending, reply).0 == s || replaced_by_page(
            s,
            pending,
            reply,
            resumed(s, pending, reply).0,
        ),
{
}

/// A reply that makes the operation fail leaves the session as it was and
/// has no cookies written.
pub proof fn lemma_failure_is_quiet(s: JTalkView, pending: PendingView, reply: ReplyView)
    requires
        resumed(s, pending, reply).1.next is Fail,
    ensures
        resumed(s, pending, reply).0 == s,
        resumed(s, pending, reply).1.save_cookies_to is None,
{
}

/// The number of exchanges that an operation can still ask for once the
/// reply to the pending one is in.
pub open spec fn exchanges_left(pending: PendingView) -> nat {
    match pending {
        PendingView::Page(AfterView::Finish) => 0,
        PendingView::Page(AfterView::Token) => 0,
        PendingView::Page(AfterView::Login) => 2,
        PendingView::Page(AfterView::Init) => 2,
        PendingView::Page(AfterView::Convert(_)) => 2,
        PendingView::Login => 1,
        PendingView::Convert => 1,
        PendingView::Result(_) => 0,
        PendingView::Conversion(_) => 0,
    }
}

/// Every operation ends: each exchange that a reply leads to leaves fewer
/// exchanges to ask for than the one before it. So no exchange is tried
/// again, and no operation asks for more than three.
pub proof fn lemma_operations_end(s: JTalkView, pending: PendingView, reply: ReplyView)
    ensures
        exchanges_left(pending) <= 2,
        resumed(s, pending, reply).1.next matches NextView::Send(_, then) ==> exchanges_left(then)
            < exchanges_left(pending),
{
}

/// Cookies are written to the cookie file of the session and nowhere else,
/// and only once the conversion page was read or a conversion has given
/// its segments.
pub proof fn lemma_cookies_written(s: JTalkView, pending: PendingView, reply: ReplyView)
    requires
        resumed(s, pending, reply).1.save_cookies_to is Some,
    ensures
        resumed(s, pending, reply).1.save_cookies_to == s.cookie_file_path,
        pending is Page || pending is Conversion,
        !(resumed(s, pending, reply).1.next is Fail),
{
}

/// A conversion, step by step. With a token at hand the text is submitted
/// at once, under that token. The answer names the result, whose raw page
/// is fetched next. That page gives the segments, and the operation ends
/// with the identifier and the segments; the cookies are written then, and
/// the session is as it was.
pub proof fn lemma_conversion(
    s: JTalkView,
    text: Seq<char>,
    submitted: ReplyView,
    fetched: ReplyView,
)
    requires
        s.csrf_token is Some,
        submitted is Answered,
        fetched is Answered,
        result_id_of(submitted->location) is Ok,
        page_segments(fetched->body) is Ok,
    ensures
        ({
            let id = result_id_of(submitted->location)->Ok_0;
            let second = resumed(s, PendingView::Convert, submitted);
            let third = resumed(second.0, PendingView::Conversion(id), fetched);
            &&& with_token(s, AfterView::Convert(text)) == quiet(
                NextView::Send(convert_request(s.csrf_token->Some_0, text), PendingView::Convert),
            )
            &&& second.1 == quiet(NextView::Send(raw_request(id), PendingView::Conversion(id)))
            &&& third.1 == (StepView {
                save_cookies_to: s.cookie_file_path,
                next: NextView::Done(
                    OutcomeView::Converted(id, page_segments(fetched->body)->Ok_0),
                ),
            })
            &&& third.0 == s
        }),
{
}

/// A login, step by step. With an account and a token at hand the login is
/// posted at once. Whatever the service answers, the conversion page is
/// asked for next, and the operation ends once that page is read: the
/// token and the login flag are then those of the page, and the page alone
/// says whether the login took.
pub proof fn lemma_login(s: JTalkView, posted: ReplyView, fetched: ReplyView)
    requires
        s.config.account is Some,
        s.csrf_token is Some,
        posted is Answered,
        fetched is Answered,
        updated(s, fetched->body) is Ok,
    ensures
        ({
            let second = resumed(s, PendingView::Login, posted);
            let third = resumed(second.0, PendingView::Page(AfterView::Finish), fetched);
            &&& login_step(s) == quiet(
                NextView::Send(login_for(s.config, s.csrf_token->Some_0), PendingView::Login),
            )
            &&& second == (
                s,
                quiet(NextView::Send(page_request(), PendingView::Page(AfterView::Finish))),
            )
            &&& third.1 == (StepView {
                save_cookies_to: s.cookie_file_path,
                next: NextView::Done(OutcomeView::Ready),
            })
            &&& third.0 == updated(s, fetched->body)->Ok_0
        }),
{
}

} // verus!
