//! JetStream consumers: routing a message to its handler by subject, and
//! acknowledging it once handled.

use crate::error::{Error, PostProcessError, PreProcessError};
use crate::message::NatsSubjectPath;
use vstd::prelude::*;

verus! {

/// A route of a JetStream consumer: a subject pattern and the index of the
/// handler of the messages it matches.
///
/// A pattern segment is matched against the subject segment at the same
/// depth; `*` matches any segment, and `>` as the last segment matches any
/// segment too. A pattern's last segment does not require the subject to
/// end there: `["invoice"]` also takes `invoice.paid`.
#[derive(Debug, Clone)]
pub struct JetRoute {
    /// The pattern, one string per segment.
    pub path: Vec<String>,
    /// The handler of the matching messages.
    pub handler: usize,
}

/// How one route treats a subject.
#[derive(Debug, Clone, Copy, PartialEq, Eq, Structural)]
pub enum RouteOutcome {
    /// The route takes the message.
    Dispatch,
    /// The route does not take the message; the next route is tried.
    NoMatch,
    /// The route's prefix matched but the subject ran out of segments: the
    /// message is refused without trying further routes.
    Exhausted,
    /// The route has `>` before its last segment: a malformed route.
    Misplaced,
}

/// Where a message goes.
#[derive(Debug, Clone, Copy, PartialEq, Eq, Structural)]
pub enum RouteDecision {
    /// To the handler with this index.
    Dispatch(usize),
    /// Nowhere: the subject is unexpected.
    UnexpectedSubject,
}

/// The segment `*`.
pub open spec fn star() -> Seq<char> {
    seq!['*']
}

/// The segment `>`.
pub open spec fn greater() -> Seq<char> {
    seq!['>']
}

/// How the pattern `path` treats the subject `s` from depth `d` on.
pub open spec fn spec_route_from(path: Seq<Seq<char>>, s: Seq<Seq<char>>, d: int) -> RouteOutcome
    decreases path.len(),
{
    if path.len() == 0 {
        RouteOutcome::NoMatch
    } else if path.len() == 1 {
        if path[0] == star() || path[0] == greater() || s[d] == path[0] {
            RouteOutcome::Dispatch
        } else {
            RouteOutcome::NoMatch
        }
    } else if path[0] == greater() {
        RouteOutcome::Misplaced
    } else if path[0] == star() || s[d] == path[0] {
        if s.len() <= d + 1 {
            RouteOutcome::Exhausted
        } else {
            spec_route_from(path.drop_first(), s, d + 1)
        }
    } else {
        RouteOutcome::NoMatch
    }
}

/// The patterns of the routes.
pub open spec fn route_paths(routes: Seq<JetRoute>, i: int) -> Seq<Seq<char>> {
    routes[i].path@.map_values(|s: String| s@)
}

/// The decision of the routes from index `i` on: the first route that does
/// not pass the message on decides; when all pass, the subject is
/// unexpected. `None` when a malformed route is reached.
pub open spec fn spec_route_table(routes: Seq<JetRoute>, s: Seq<Seq<char>>, i: int) -> Option<RouteDecision>
    decreases routes.len() - i,
{
    if i >= routes.len() || i < 0 {
        Some(RouteDecision::UnexpectedSubject)
    } else {
        match spec_route_from(route_paths(routes, i), s, 0) {
            RouteOutcome::Dispatch => Some(RouteDecision::Dispatch(routes[i].handler)),
            RouteOutcome::Exhausted => Some(RouteDecision::UnexpectedSubject),
            RouteOutcome::Misplaced => None,
            RouteOutcome::NoMatch => spec_route_table(routes, s, i + 1),
        }
    }
}

/// No `>` stands before the last segment of the pattern.
pub open spec fn no_misplaced(path: Seq<Seq<char>>) -> bool {
    forall|i: int| 0 <= i < path.len() - 1 ==> #[trigger] path[i] != greater()
}

/// Every route's pattern has `>` at most as its last segment.
pub open spec fn spec_routes_well_formed(routes: Seq<JetRoute>) -> bool {
    forall|i: int| 0 <= i < routes.len() ==> no_misplaced(#[trigger] route_paths(routes, i))
}

/// A pattern without a misplaced `>` never gives [`RouteOutcome::Misplaced`].
pub proof fn lemma_no_misplaced_outcome(path: Seq<Seq<char>>, s: Seq<Seq<char>>, d: int)
    requires
        no_misplaced(path),
    ensures
        spec_route_from(path, s, d) != RouteOutcome::Misplaced,
    decreases path.len(),
{
    if path.len() > 1 {
        assert(path[0] != greater());
        let rest = path.drop_first();
        assert forall|i: int| 0 <= i < rest.len() - 1 implies #[trigger] rest[i] != greater() by {
            assert(rest[i] == path[i + 1]);
        }
        lemma_no_misplaced_outcome(rest, s, d + 1);
    }
}

/// Routes that are well formed decide every subject: the routing from any
/// index on is defined.
pub proof fn lemma_well_formed_routes_decide(routes: Seq<JetRoute>, s: Seq<Seq<char>>, i: int)
    requires
        spec_routes_well_formed(routes),
    ensures
        spec_route_table(routes, s, i) is Some,
    decreases routes.len() - i,
{
    if 0 <= i < routes.len() {
        assert(no_misplaced(route_paths(routes, i)));
        lemma_no_misplaced_outcome(route_paths(routes, i), s, 0);
        lemma_well_formed_routes_decide(routes, s, i + 1);
    }
}

/// How route `i` of `routes` treats the subject `s`.
pub open spec fn route_outcome(routes: Seq<JetRoute>, s: Seq<Seq<char>>, i: int) -> RouteOutcome {
    spec_route_from(route_paths(routes, i), s, 0)
}

/// Routing dispatches to the handler written with the first route that
/// takes the subject: when every route from index `k` up to `i` passes the
/// subject on and route `i` takes it, the decision is route `i`'s handler.
pub proof fn lemma_first_matching_route_decides(routes: Seq<JetRoute>, s: Seq<Seq<char>>, k: int, i: int)
    requires
        0 <= k <= i < routes.len(),
        route_outcome(routes, s, i) == RouteOutcome::Dispatch,
        forall|j: int| k <= j < i ==> #[trigger] route_outcome(routes, s, j) == RouteOutcome::NoMatch,
    ensures
        spec_route_table(routes, s, k) == Some(RouteDecision::Dispatch(routes[i].handler)),
    decreases i - k,
{
    if k < i {
        assert(route_outcome(routes, s, k) == RouteOutcome::NoMatch);
        lemma_first_matching_route_decides(routes, s, k + 1, i);
    }
}

/// Whenever routing from index `k` dispatches to a handler, some route from
/// `k` on takes the subject after all the routes before it passed it on,
/// and the handler is the one written with that route.
pub proof fn lemma_dispatch_comes_from_matching_route(routes: Seq<JetRoute>, s: Seq<Seq<char>>, k: int, h: usize)
    requires
        0 <= k,
        spec_route_table(routes, s, k) == Some(RouteDecision::Dispatch(h)),
    ensures
        exists|m: int| {
            &&& k <= m < routes.len()
            &&& routes[m].handler == h
            &&& #[trigger] route_outcome(routes, s, m) == RouteOutcome::Dispatch
            &&& forall|j: int| k <= j < m ==> #[trigger] route_outcome(routes, s, j) == RouteOutcome::NoMatch
        },
    decreases routes.len() - k,
{
    if route_outcome(routes, s, k) == RouteOutcome::NoMatch {
        lemma_dispatch_comes_from_matching_route(routes, s, k + 1, h);
        let m = choose|m: int| {
            &&& k + 1 <= m < routes.len()
            &&& routes[m].handler == h
            &&& #[trigger] route_outcome(routes, s, m) == RouteOutcome::Dispatch
            &&& forall|j: int| k + 1 <= j < m ==> #[trigger] route_outcome(routes, s, j) == RouteOutcome::NoMatch
        };
        assert(forall|j: int| k <= j < m ==> #[trigger] route_outcome(routes, s, j) == RouteOutcome::NoMatch);
    } else {
        assert(route_outcome(routes, s, k) == RouteOutcome::Dispatch);
    }
}

/// Whether every route's pattern has `>` at most as its last segment; when
/// it does, [`jet_route`] can route every subject.
pub fn routes_well_formed(routes: &Vec<JetRoute>) -> (b: bool)
    ensures
        b == spec_routes_well_formed(routes@),
        b ==> forall|s: Seq<Seq<char>>| #[trigger] spec_route_table(routes@, s, 0) is Some,
{
    let greater_s = ">".to_string();
    proof {
        reveal_strlit(">");
    }
    let mut i: usize = 0;
    while i < routes.len()
        invariant
            i <= routes@.len(),
            greater_s@ == greater(),
            forall|j: int| 0 <= j < i ==> no_misplaced(#[trigger] route_paths(routes@, j)),
        decreases routes@.len() - i,
    {
        let path = &routes[i].path;
        let ghost p = route_paths(routes@, i as int);
        let mut k: usize = 0;
        while k < path.len()
            invariant
                i < routes@.len(),
                routes@[i as int].path == *path,
                p == route_paths(routes@, i as int),
                p.len() == path@.len(),
                greater_s@ == greater(),
                k <= path@.len(),
                forall|m: int| 0 <= m < k && m < p.len() - 1 ==> #[trigger] p[m] != greater(),
            decreases path@.len() - k,
        {
            assert(p[k as int] == path@[k as int]@);
            if k + 1 < path.len() && path[k] == greater_s {
                proof {
                    assert(p[k as int] == greater());
                    assert(!no_misplaced(p));
                    assert(!spec_routes_well_formed(routes@));
                }
                return false;
            }
            k = k + 1;
        }
        i = i + 1;
    }
    proof {
        assert forall|s: Seq<Seq<char>>| #[trigger] spec_route_table(routes@, s, 0) is Some by {
            lemma_well_formed_routes_decide(routes@, s, 0);
        }
    }
    true
}

/// How the pattern treats the subject from depth `d` on.
fn route_from(path: &Vec<String>, subject: &Vec<String>, star_s: &String, greater_s: &String) -> (r: RouteOutcome)
    requires
        subject@.len() >= 1,
        star_s@ == star(),
        greater_s@ == greater(),
    ensures
        r == spec_route_from(path@.map_values(|s: String| s@), subject@.map_values(|s: String| s@), 0),
{
    let ghost p = path@.map_values(|s: String| s@);
    let ghost sv = subject@.map_values(|s: String| s@);
    let mut k: usize = 0;
    if path.len() == 0 {
        return RouteOutcome::NoMatch;
    }
    assert(p.skip(0) =~= p);
    while k < path.len()
        invariant
            0 <= k < path.len(),
            k < subject.len(),
            p == path@.map_values(|s: String| s@),
            sv == subject@.map_values(|s: String| s@),
            star_s@ == star(),
            greater_s@ == greater(),
            spec_route_from(p, sv, 0) == spec_route_from(p.skip(k as int), sv, k as int),
        decreases path.len() - k,
    {
        let ghost rest = p.skip(k as int);
        assert(rest[0] == path@[k as int]@);
        assert(sv[k as int] == subject@[k as int]@);
        let seg = &path[k];
        if k + 1 == path.len() {
            assert(rest.len() == 1);
            if *seg == *star_s || *seg == *greater_s || subject[k] == *seg {
                return RouteOutcome::Dispatch;
            } else {
                return RouteOutcome::NoMatch;
            }
        }
        assert(rest.len() > 1);
        if *seg == *greater_s {
            return RouteOutcome::Misplaced;
        }
        if *seg == *star_s || subject[k] == *seg {
            if subject.len() <= k + 1 {
                return RouteOutcome::Exhausted;
            }
            assert(rest.drop_first() =~= p.skip(k + 1));
        } else {
            return RouteOutcome::NoMatch;
        }
        k = k + 1;
    }
    RouteOutcome::NoMatch
}

/// Route a message by its subject: the handler of the first route that
/// takes it, or an unexpected subject when a route's prefix matched but the
/// subject ran out of segments, or when no route takes it.
pub fn jet_route(subject: &NatsSubjectPath, routes: &Vec<JetRoute>) -> (r: RouteDecision)
    requires
        subject@.len() >= 1,
        spec_route_table(routes@, subject@, 0) is Some,
    ensures
        Some(r) == spec_route_table(routes@, subject@, 0),
{
    let star_s = "*".to_string();
    let greater_s = ">".to_string();
    proof {
        reveal_strlit("*");
        reveal_strlit(">");
    }
    assert(subject.0@.len() == subject@.len());
    let mut i: usize = 0;
    while i < routes.len()
        invariant
            i <= routes.len(),
            subject@.len() >= 1,
            subject.0@.len() == subject@.len(),
            star_s@ == star(),
            greater_s@ == greater(),
            spec_route_table(routes@, subject@, 0) == spec_route_table(routes@, subject@, i as int),
            spec_route_table(routes@, subject@, 0) is Some,
        decreases routes.len() - i,
    {
        let outcome = route_from(&routes[i].path, &subject.0, &star_s, &greater_s);
        match outcome {
            RouteOutcome::Dispatch => return RouteDecision::Dispatch(routes[i].handler),
            RouteOutcome::Exhausted => return RouteDecision::UnexpectedSubject,
            RouteOutcome::Misplaced => {
                assert(false);
                return RouteDecision::UnexpectedSubject;
            },
            RouteOutcome::NoMatch => {},
        }
        i = i + 1;
    }
    RouteDecision::UnexpectedSubject
}

/// The error of a message whose subject no route takes.
pub fn unexpected_subject(subject: String) -> (e: Error)
    ensures
        e == Error::PreProcessError(PreProcessError::UnexpectedSubject(subject)),
{
    Error::PreProcessError(PreProcessError::UnexpectedSubject(subject))
}

/// What acknowledging a JetStream message asks for next.
#[derive(Debug)]
pub enum AckAction {
    /// Hand the message to the consumer's processor; acknowledge on
    /// `reply` afterwards.
    Process { reply: String },
    /// Publish an empty acknowledgement on `reply`.
    PublishAck { reply: String },
    /// Done, with this result.
    Finish(Result<(), Error>),
}

/// Begin handling a JetStream message with reply subject `reply`: a
/// message without one is refused before it is processed.
pub fn ack_begin(reply: Option<String>) -> (a: AckAction)
    ensures
        match reply {
            Some(r) => a == AckAction::Process { reply: r },
            None => a == AckAction::Finish(Err(Error::PreProcessError(PreProcessError::UnexpectedNullReplySubject))),
        },
{
    match reply {
        Some(r) => AckAction::Process { reply: r },
        None => AckAction::Finish(Err(Error::PreProcessError(PreProcessError::UnexpectedNullReplySubject))),
    }
}

/// After the processor ran: acknowledge a success, pass on a failure
/// without acknowledging.
pub fn ack_after_process(reply: String, processed: Result<(), Error>) -> (a: AckAction)
    ensures
        match processed {
            Ok(()) => a == AckAction::PublishAck { reply },
            Err(e) => a == AckAction::Finish(Err(e)),
        },
{
    match processed {
        Ok(()) => AckAction::PublishAck { reply },
        Err(e) => AckAction::Finish(Err(e)),
    }
}

/// After the acknowledgement was published, or failed to be with this
/// description.
pub fn ack_after_publish(published: Result<(), String>) -> (r: Result<(), Error>)
    ensures
        match published {
            Ok(()) => r == Ok::<(), Error>(()),
            Err(e) => r == Err::<(), Error>(Error::PostProcessError(PostProcessError::NatsMessagePushError(e))),
        },
{
    match published {
        Ok(()) => Ok(()),
        Err(e) => Err(Error::PostProcessError(PostProcessError::NatsMessagePushError(e))),
    }
}

} // verus!
