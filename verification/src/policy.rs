use crate::text::slice_view;
use vstd::prelude::*;

verus! {

/// The host of the service.
pub const SERVICE_HOST: &'static str = "j-talk.com";

/// The status with which the service redirects for the time being: 302.
pub const FOUND: u16 = 302;

/// What is done with a redirect that the service proposes.
#[derive(Clone, Copy, Debug, PartialEq, Eq, Structural)]
pub enum RedirectDecision {
    /// The redirect response itself is the answer, headers and all.
    Stop,
    /// The redirect is followed as usual.
    Follow,
}

/// Whether a path segment names one of the pages at which a chain of
/// redirects is cut: `contact`, `convert`, `logout`, `register`.
pub open spec fn is_terminal_segment(segment: Seq<char>) -> bool {
    ||| segment == "contact"@
    ||| segment == "convert"@
    ||| segment == "logout"@
    ||| segment == "register"@
}

/// Whether a hop is cut: it leads to the service, its path is one terminal
/// segment, the status is 302 and it is not the first hop of its chain.
pub open spec fn stops(
    host: Option<Seq<char>>,
    path: Seq<Seq<char>>,
    previous: nat,
    status: u16,
) -> bool {
    &&& host == Some(SERVICE_HOST@)
    &&& path.len() == 1
    &&& is_terminal_segment(path[0])
    &&& status == FOUND
    &&& previous > 0
}

/// The decision on a hop: a function of the hop alone.
pub open spec fn decision(
    host: Option<Seq<char>>,
    path: Seq<Seq<char>>,
    previous: nat,
    status: u16,
) -> RedirectDecision {
    if stops(host, path, previous, status) {
        RedirectDecision::Stop
    } else {
        RedirectDecision::Follow
    }
}

/// Whether the segment is one of the terminal ones.
pub fn is_terminal(segment: &str) -> (r: bool)
    ensures
        r == is_terminal_segment(segment@),
{
    segment.eq("contact") || segment.eq("convert") || segment.eq("logout") || segment.eq(
        "register",
    )
}

/// Decides on one hop of a chain of redirects, from the host and the path
/// segments of its target, the number of hops that came before it and the
/// status of the response that proposes it. It is asked anew for each hop
/// and keeps nothing between two of them.
pub fn redirect_decision(
    host: Option<&str>,
    path: &Vec<String>,
    previous: usize,
    status: u16,
) -> (d: RedirectDecision)
    ensures
        d == decision(slice_view(host), path.deep_view(), previous as nat, status),
{
    if previous == 0 || status != FOUND || path.len() != 1 {
        return RedirectDecision::Follow;
    }
    match host {
        Some(h) => {
            if h.eq(SERVICE_HOST) && is_terminal(path[0].as_str()) {
                RedirectDecision::Stop
            } else {
                RedirectDecision::Follow
            }
        },
        None => RedirectDecision::Follow,
    }
}

/// A hop to a terminal page of the service, `convert` among them, with
/// status 302 is cut once a hop came before it, and followed when it is the
/// first of its chain.
pub proof fn lemma_terminal_hop(segment: Seq<char>, previous: nat)
    requires
        is_terminal_segment(segment),
    ensures
        is_terminal_segment("convert"@),
        previous > 0 ==> decision(Some(SERVICE_HOST@), seq![segment], previous, FOUND)
            == RedirectDecision::Stop,
        previous == 0 ==> decision(Some(SERVICE_HOST@), seq![segment], previous, FOUND)
            == RedirectDecision::Follow,
{
}

/// The first hop of a chain is always followed, and so is every hop to
/// another host, with another status or with a longer path.
pub proof fn lemma_follows(
    host: Option<Seq<char>>,
    path: Seq<Seq<char>>,
    previous: nat,
    status: u16,
)
    requires
        previous == 0 || status != FOUND || path.len() != 1 || host != Some(SERVICE_HOST@),
    ensures
        decision(host, path, previous, status) == RedirectDecision::Follow,
{
}

} // verus!
