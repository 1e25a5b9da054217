use crate::error::Error;
use crate::req::{Request, RequestView};
use crate::segment::{segment_views, Segment, SegmentView};
use crate::text::text_view;
use vstd::prelude::*;

verus! {

/// What is done once the conversion page has been read.
#[derive(Clone, Debug, PartialEq, Eq)]
pub enum After {
    /// Nothing more: the session state is up to date.
    Finish,
    /// The token is handed out.
    Token,
    /// The login is posted.
    Login,
    /// The login is posted where the page shows nobody logged in and there
    /// is an account.
    Init,
    /// The text is submitted for conversion.
    Convert(String),
}

/// What an `After` holds, as sequences of characters.
pub ghost enum AfterView {
    Finish,
    Token,
    Login,
    Init,
    Convert(Seq<char>),
}

impl View for After {
    type V = AfterView;

    open spec fn view(&self) -> AfterView {
        match self {
            After::Finish => AfterView::Finish,
            After::Token => AfterView::Token,
            After::Login => AfterView::Login,
            After::Init => AfterView::Init,
            After::Convert(text) => AfterView::Convert(text@),
        }
    }
}

/// The exchange that is under way, and with it what its reply is for.
#[derive(Clone, Debug, PartialEq, Eq)]
pub enum Pending {
    /// The conversion page was asked for.
    Page(After),
    /// The login was posted.
    Login,
    /// A text was submitted.
    Convert,
    /// The raw page of the result with this identifier was asked for.
    Result(String),
    /// The raw page of the result with this identifier was asked for, to
    /// end the conversion that gave the identifier.
    Conversion(String),
}

/// What a `Pending` holds, as sequences of characters.
pub ghost enum PendingView {
    Page(AfterView),
    Login,
    Convert,
    Result(Seq<char>),
    Conversion(Seq<char>),
}

impl View for Pending {
    type V = PendingView;

    open spec fn view(&self) -> PendingView {
        match self {
            Pending::Page(after) => PendingView::Page(after@),
            Pending::Login => PendingView::Login,
            Pending::Convert => PendingView::Convert,
            Pending::Result(id) => PendingView::Result(id@),
            Pending::Conversion(id) => PendingView::Conversion(id@),
        }
    }
}

/// What an operation ends with.
#[derive(Clone, Debug, PartialEq, Eq)]
pub enum Outcome {
    /// The session state is up to date.
    Ready,
    /// The token of the session.
    Token(String),
    /// The identifier of a result and its segments.
    Converted(String, Vec<Segment>),
}

/// What an `Outcome` holds, as sequences of characters.
pub ghost enum OutcomeView {
    Ready,
    Token(Seq<char>),
    Converted(Seq<char>, Seq<SegmentView>),
}

impl View for Outcome {
    type V = OutcomeView;

    open spec fn view(&self) -> OutcomeView {
        match self {
            Outcome::Ready => OutcomeView::Ready,
            Outcome::Token(token) => OutcomeView::Token(token@),
            Outcome::Converted(id, segments) => OutcomeView::Converted(
                id@,
                segment_views(segments@),
            ),
        }
    }
}

/// What the caller does next.
#[derive(Clone, Debug, PartialEq, Eq)]
pub enum Next {
    /// Perform the exchange and hand its reply to `resume`, with the
    /// pending exchange that stands beside it.
    Send(Request, Pending),
    /// The operation is done.
    Done(Outcome),
    /// The operation has failed. Nothing of its result is handed out.
    Fail(Error),
}

/// What a `Next` holds, as sequences of characters.
pub ghost enum NextView {
    Send(RequestView, PendingView),
    Done(OutcomeView),
    Fail(Error),
}

impl View for Next {
    type V = NextView;

    open spec fn view(&self) -> NextView {
        match self {
            Next::Send(request, pending) => NextView::Send(request@, pending@),
            Next::Done(outcome) => NextView::Done(outcome@),
            Next::Fail(e) => NextView::Fail(*e),
        }
    }
}

/// One step of an operation: where the cookies are to be written first, if
/// anywhere, and what to do next.
#[derive(Clone, Debug, PartialEq, Eq)]
pub struct Step {
    pub save_cookies_to: Option<String>,
    pub next: Next,
}

/// What a `Step` holds, as sequences of characters.
pub ghost struct StepView {
    pub save_cookies_to: Option<Seq<char>>,
    pub next: NextView,
}

impl View for Step {
    type V = StepView;

    open spec fn view(&self) -> StepView {
        StepView { save_cookies_to: text_view(self.save_cookies_to), next: self.next@ }
    }
}

/// A step that writes no cookies.
pub open spec fn quiet(next: NextView) -> StepView {
    StepView { save_cookies_to: None, next }
}

} // verus!
