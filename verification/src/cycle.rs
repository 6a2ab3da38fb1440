//! One publishing cycle, step by step. The bot never waits for anything: it
//! is told what happened and answers with what is to be done next. The
//! caller does it, and tells the bot what came of it.

use vstd::prelude::*;
use crate::cassandra::{
    CassandraClient, Statement, StatementView, MAX_QUOTE_ID, MIN_QUOTE_ID, select_quote_by_id,
    selected_quote,
};
use crate::error::ParseError;
use crate::max_payne::{
    MaxPayneBot, OutcomeView, PostRequest, PostRequestView, TwitterResponse, log_entry_of,
    outcome_of, publication_of, request_of,
};

verus! {

/// How far a cycle has come.
#[derive(Debug, Clone, Copy, PartialEq, Eq, Structural)]
pub enum CycleState {
    /// Nothing was done yet.
    Idle,
    /// The read of the quote with this identifier is under way.
    Selecting { id: i64 },
    /// The posting request is under way.
    Posting,
    /// The write of the log entry is under way.
    Recording,
    /// The cycle is over.
    Done,
}

/// What the caller tells the bot.
#[derive(Debug)]
pub enum CycleEvent {
    /// A cycle is to begin.
    Start,
    /// The read came back with the texts of these rows.
    Rows(Vec<String>),
    /// The posting request ended like this, at this many nanoseconds since
    /// the epoch.
    Reply(TwitterResponse, u128),
    /// The log entry is written.
    Logged,
}

/// What the bot tells the caller to do.
#[derive(Debug)]
pub enum CycleAction {
    /// Execute this read and come back with its rows.
    Read(Statement),
    /// Sign and send this request and come back with what it ended in.
    Post(PostRequest),
    /// Execute this write and come back when it is done.
    Log(Statement),
    /// Nothing is left to do.
    Finish,
    /// The response could not be read: the cycle ends with this error.
    Abort(ParseError),
    /// The event is not the one that the cycle waits for: nothing changes.
    Reject,
}

/// What a [`CycleAction`] is, as plain mathematics.
pub enum CycleActionView {
    Read(StatementView),
    Post(PostRequestView),
    Log(StatementView),
    Finish,
    Abort(ParseError),
    Reject,
}

impl View for CycleAction {
    type V = CycleActionView;

    open spec fn view(&self) -> CycleActionView {
        match self {
            CycleAction::Read(statement) => CycleActionView::Read(statement@),
            CycleAction::Post(request) => CycleActionView::Post(request@),
            CycleAction::Log(statement) => CycleActionView::Log(statement@),
            CycleAction::Finish => CycleActionView::Finish,
            CycleAction::Abort(error) => CycleActionView::Abort(*error),
            CycleAction::Reject => CycleActionView::Reject,
        }
    }
}

/// The step that `event` makes in `state`, where `drawn` is the identifier
/// that a beginning cycle selects: the state after it, and what is to be
/// done.
///
/// A cycle reads the selected quote, posts it whatever the read found, and
/// logs the outcome. A response that cannot be read ends the cycle with the
/// error, and nothing is logged.
pub open spec fn cycle_step(
    keyspace: Seq<char>,
    state: CycleState,
    event: CycleEvent,
    drawn: int,
) -> (CycleState, CycleActionView) {
    match (state, event) {
        (CycleState::Idle, CycleEvent::Start) => (
            CycleState::Selecting { id: drawn as i64 },
            CycleActionView::Read(select_quote_by_id(keyspace, drawn)),
        ),
        (CycleState::Selecting { id }, CycleEvent::Rows(rows)) => (
            CycleState::Posting,
            CycleActionView::Post(request_of(selected_quote(id as int, rows.deep_view()))),
        ),
        (CycleState::Posting, CycleEvent::Reply(response, nanos)) => match publication_of(
            keyspace,
            response,
            nanos,
        ) {
            Ok(done) => (CycleState::Recording, CycleActionView::Log(done.1)),
            Err(error) => (CycleState::Done, CycleActionView::Abort(error)),
        },
        (CycleState::Recording, CycleEvent::Logged) => (CycleState::Done, CycleActionView::Finish),
        _ => (state, CycleActionView::Reject),
    }
}

impl MaxPayneBot {
    /// Takes one step of a publishing cycle: from `state` and what happened
    /// to the next state and what is to be done. Begin with
    /// [`CycleState::Idle`] and [`CycleEvent::Start`], do what each answer
    /// says, and stop at [`CycleAction::Finish`] or [`CycleAction::Abort`].
    ///
    /// The step is `cycle_step` for an identifier of the fixed range; only
    /// the beginning of a cycle draws one.
    pub fn tweet_a_quote(&self, state: CycleState, event: CycleEvent) -> (step: (
        CycleState,
        CycleAction,
    ))
        ensures
            exists|drawn: int|
                MIN_QUOTE_ID <= drawn <= MAX_QUOTE_ID && #[trigger] cycle_step(
                    self.keyspace(),
                    state,
                    event,
                    drawn,
                ) == (step.0, step.1@),
    {
        let ghost keyspace = self.keyspace();
        match (state, event) {
            (CycleState::Idle, CycleEvent::Start) => {
                let (id, read) = self.select_random();
                assert(cycle_step(keyspace, state, event, id as int) == (
                    CycleState::Selecting { id },
                    CycleActionView::Read(read@),
                ));
                (CycleState::Selecting { id }, CycleAction::Read(read))
            },
            (CycleState::Selecting { id }, CycleEvent::Rows(rows)) => {
                let quote = CassandraClient::quote_from_rows(id, &rows);
                let request = MaxPayneBot::compose_request(&quote);
                assert(cycle_step(keyspace, state, event, 0) == (
                    CycleState::Posting,
                    CycleActionView::Post(request@),
                ));
                (CycleState::Posting, CycleAction::Post(request))
            },
            (CycleState::Posting, CycleEvent::Reply(response, now_nanos)) => {
                match self.publish(response, now_nanos) {
                    Ok((_, write)) => {
                        assert(cycle_step(keyspace, state, event, 0) == (
                            CycleState::Recording,
                            CycleActionView::Log(write@),
                        ));
                        (CycleState::Recording, CycleAction::Log(write))
                    },
                    Err(error) => {
                        assert(cycle_step(keyspace, state, event, 0) == (
                            CycleState::Done,
                            CycleActionView::Abort(error),
                        ));
                        (CycleState::Done, CycleAction::Abort(error))
                    },
                }
            },
            (CycleState::Recording, CycleEvent::Logged) => {
                assert(cycle_step(keyspace, state, event, 0) == (
                    CycleState::Done,
                    CycleActionView::Finish,
                ));
                (CycleState::Done, CycleAction::Finish)
            },
            (state, _) => {
                assert(cycle_step(keyspace, state, event, 0) == (state, CycleActionView::Reject));
                (state, CycleAction::Reject)
            },
        }
    }
}

/// A cycle that is carried out as the bot says takes four steps: it reads
/// the quote with the drawn identifier, posts what the read found, logs the
/// outcome of the post, and is over. It posts once and logs once. Where the
/// response cannot be read, the third step ends the cycle with the error and
/// nothing is logged.
pub proof fn lemma_cycle_posts_once_and_logs_once(
    keyspace: Seq<char>,
    drawn: int,
    rows: Vec<String>,
    response: TwitterResponse,
    nanos: u128,
)
    requires
        MIN_QUOTE_ID <= drawn <= MAX_QUOTE_ID,
    ensures
        ({
            let first = cycle_step(keyspace, CycleState::Idle, CycleEvent::Start, drawn);
            let second = cycle_step(keyspace, first.0, CycleEvent::Rows(rows), drawn);
            let third = cycle_step(keyspace, second.0, CycleEvent::Reply(response, nanos), drawn);
            let fourth = cycle_step(keyspace, third.0, CycleEvent::Logged, drawn);
            &&& first.1 == CycleActionView::Read(select_quote_by_id(keyspace, drawn))
            &&& second.1 == CycleActionView::Post(
                request_of(selected_quote(drawn, rows.deep_view())),
            )
            &&& outcome_of(response) matches Ok(outcome) ==> {
                &&& third.1 == CycleActionView::Log(log_entry_of(keyspace, outcome, nanos))
                &&& fourth == (CycleState::Done, CycleActionView::Finish)
            }
            &&& outcome_of(response) matches Err(error) ==> third == (
                CycleState::Done,
                CycleActionView::Abort(error),
            )
        }),
{
}

/// A cycle that is over stays over: whatever it is told, nothing is to be
/// done.
pub proof fn lemma_finished_cycle_stays_finished(
    keyspace: Seq<char>,
    event: CycleEvent,
    drawn: int,
)
    ensures
        cycle_step(keyspace, CycleState::Done, event, drawn) == (
            CycleState::Done,
            CycleActionView::Reject,
        ),
{
}

/// Only the step that answers a response to the posting request asks for a
/// log entry, and only the step that answers the rows of the read asks for a
/// post.
pub proof fn lemma_each_action_has_its_step(
    keyspace: Seq<char>,
    state: CycleState,
    event: CycleEvent,
    drawn: int,
)
    ensures
        cycle_step(keyspace, state, event, drawn).1 is Post ==> state is Selecting && event is Rows,
        cycle_step(keyspace, state, event, drawn).1 is Log ==> state is Posting && event is Reply,
        cycle_step(keyspace, state, event, drawn).1 is Abort ==> state is Posting && event is Reply,
        cycle_step(keyspace, state, event, drawn).1 is Read ==> state is Idle && event is Start,
{
}

} // verus!
