//! Request bridge between the render loop and background platform calls: a
//! dispatched message either plans exactly one client call or is dropped for
//! want of a token, and completed results queue in a single-consumer FIFO
//! channel that the render loop drains one result per frame.

use vstd::prelude::*;
use crate::twitch::{Stream, TwitchCategory, TwitchError};

verus! {

/// Which fetch a message asks for, plus (for paged lists) the opaque
/// pagination cursor and (for a category's streams) the category identifier.
#[derive(Clone, Debug, PartialEq, Eq)]
pub enum PendingRequest {
    LoginCheck,
    GetTopCategories(Option<String>),
    GetStreams(Option<String>),
    GetFollowedStreams,
    GetCategoryStreams(String),
}

/// A completed result, mirroring `PendingRequest`'s variants: each wraps the
/// matching payload or the typed error of the operation that produced it.
#[derive(Debug, PartialEq, Eq)]
pub enum RequestResult {
    LoginResult(bool),
    TopCategoriesResult(Result<Vec<TwitchCategory>, TwitchError>),
    StreamsResult(Result<Vec<Stream>, TwitchError>),
    FollowedStreamsResult(Result<Vec<Stream>, TwitchError>),
    CategoryStreamsResult(Result<Vec<Stream>, TwitchError>),
}

/// A message handed to the bridge: the request to perform and the session
/// token, captured by value at dispatch time.
#[derive(Clone, Debug, PartialEq, Eq)]
pub struct TwitchMessage {
    pub token: Option<String>,
    pub opt: PendingRequest,
}

/// The unit of background work a dispatched message spawns: one platform
/// operation under one captured token.
#[derive(Clone, Debug, PartialEq, Eq)]
pub struct ClientCall {
    pub token: String,
    pub request: PendingRequest,
}

/// What dispatching a message decides: a message without a token spawns no
/// work at all, any other message spawns exactly the matching call under the
/// captured token.
pub open spec fn spec_plan_dispatch(msg: TwitchMessage) -> Option<ClientCall> {
    match msg.token {
        None => None,
        Some(token) => Some(ClientCall { token, request: msg.opt }),
    }
}

/// Decides the background work for a dispatched message. Returns `None`
/// exactly when the message carries no token: such a message is dropped, no
/// platform call runs for it, and so no result is ever written to the channel
/// on its behalf.
pub fn plan_dispatch(msg: TwitchMessage) -> (r: Option<ClientCall>)
    ensures
        r == spec_plan_dispatch(msg),
        r is None <==> msg.token is None,
{
    match msg.token {
        None => None,
        Some(token) => Some(ClientCall { token, request: msg.opt }),
    }
}

/// A message that carries no token plans no client call: no task is spawned
/// for it, hence no result is ever pushed onto the channel on its behalf, and
/// the channel after such a dispatch is the channel before it.
pub proof fn lemma_missing_token_no_result(msg: TwitchMessage)
    requires
        msg.token is None,
    ensures
        spec_plan_dispatch(msg) is None,
{
}

/// Single-consumer FIFO channel of completed results. Background tasks append
/// on completion; the render loop removes at most one result per frame. Its
/// view is the queue of undrained results, oldest first.
pub struct ResultChannel {
    results: Vec<RequestResult>,
}

impl View for ResultChannel {
    type V = Seq<RequestResult>;

    closed spec fn view(&self) -> Seq<RequestResult> {
        self.results@
    }
}

impl ResultChannel {
    /// A fresh channel holds no results.
    pub fn new() -> (c: ResultChannel)
        ensures
            c@ == Seq::<RequestResult>::empty(),
    {
        let c = ResultChannel { results: Vec::new() };
        proof {
            assert(c@ =~= Seq::<RequestResult>::empty());
        }
        c
    }

    /// A background task completed: append its result. Results queue in
    /// completion order; nothing is dropped or reordered.
    pub fn push_result(&mut self, r: RequestResult)
        ensures
            final(self)@ == old(self)@.push(r),
    {
        self.results.push(r);
    }

    /// Non-blocking drain, called once per render frame: removes and returns
    /// the oldest completed result, or `None` when nothing has completed.
    /// Never yields more than one result per call; everything else stays
    /// queued, in order, for later frames.
    pub fn drain_one(&mut self) -> (r: Option<RequestResult>)
        ensures
            old(self)@.len() == 0 ==> r is None && final(self)@ == old(self)@,
            old(self)@.len() > 0 ==> r == Some(old(self)@[0]) && final(self)@ == old(
                self,
            )@.subrange(1, old(self)@.len() as int),
    {
        if self.results.len() == 0 {
            None
        } else {
            let first = self.results.remove(0);
            proof {
                assert(self.results@ =~= old(self)@.subrange(1, old(self)@.len() as int));
            }
            Some(first)
        }
    }
}

/// The queue left after the first `n` results of `q` have been drained, each
/// drain removing the oldest element.
pub open spec fn after_drains(q: Seq<RequestResult>, n: int) -> Seq<RequestResult>
    recommends
        0 <= n <= q.len(),
{
    q.subrange(n, q.len() as int)
}

/// Results leave the channel in completion order, not dispatch order: after
/// `n` results of a queue have been drained, the next drain finds a non-empty
/// queue whose head is the `n`-th result that completed, and removing it
/// leaves exactly the queue for the `n + 1`-th drain. Together with
/// `drain_one`'s contract this pins the `k`-th drained result to the `k`-th
/// completion, for every `k`.
pub proof fn lemma_completion_order(q: Seq<RequestResult>, n: int)
    requires
        0 <= n < q.len(),
    ensures
        after_drains(q, n).len() > 0,
        after_drains(q, n)[0] == q[n],
        after_drains(q, n).subrange(1, after_drains(q, n).len() as int) == after_drains(q, n + 1),
{
    assert(after_drains(q, n).subrange(1, after_drains(q, n).len() as int) =~= after_drains(
        q,
        n + 1,
    ));
}

} // verus!
