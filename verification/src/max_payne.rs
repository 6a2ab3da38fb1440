//! The publishing side of the bot: the request that carries a quote to the
//! posting service, the reading of what the service answered, and the log
//! entry that the answer calls for.

use vstd::prelude::*;
use crate::cassandra::{
    CassandraClient, Quote, Statement, Tweet, TweetView, UnSuccessfulTweetStatus,
    UnSuccessfulTweetStatusView, MAX_QUOTE_ID, MIN_QUOTE_ID, create_tables,
    insert_successful_tweet, insert_unsuccessful_tweet, quote_writes, select_quote_by_id,
    statement_views,
};
use crate::error::{ParseError, viewed};
use crate::json::{
    integer_of, json_members, json_string_text, json_text_members, member, parse_document,
    render, string_of, write_string,
};
use crate::text::{
    decimal_i64, decimal_text, lemma_decimal_text_between_quotes, lemma_decimal_text_reads_back,
    parse_i64, remove_char, without_char,
};

verus! {

/// Where quotes are posted.
pub const TWEETS_ENDPOINT: &'static str = "https://api.twitter.com/2/tweets";

/// The content type of a posting request.
pub const JSON_CONTENT_TYPE: &'static str = "application/json";

/// The status code recorded where the posting service could not be reached.
pub const UNREACHABLE_STATUS_CODE: i64 = 404;

/// The reason and the headers recorded where the posting service could not
/// be reached.
pub const UNREACHABLE_TEXT: &'static str = "Error";

/// A response of the posting service, as far as the bot reads it.
#[derive(Debug)]
pub struct HttpReply {
    pub status: u16,
    pub headers: Vec<(String, String)>,
    pub body: String,
}

/// What became of a posting request: a response of the service, whatever it
/// says, or the cause for which no response was had.
#[derive(Debug)]
pub enum TwitterResponse {
    Response(HttpReply),
    FailedResponse(String),
}

/// The result of one attempt to publish: the post as the service accepted
/// it, or the record of the failure.
#[derive(Debug)]
pub enum Outcome {
    Published(Tweet),
    Failed(UnSuccessfulTweetStatus),
}

/// What an [`Outcome`] is, as plain mathematics.
pub enum OutcomeView {
    Published(TweetView),
    Failed(UnSuccessfulTweetStatusView),
}

impl View for Outcome {
    type V = OutcomeView;

    open spec fn view(&self) -> OutcomeView {
        match self {
            Outcome::Published(tweet) => OutcomeView::Published(tweet@),
            Outcome::Failed(status) => OutcomeView::Failed(status@),
        }
    }
}

/// `text` without its backslashes and double quotes.
pub open spec fn unquoted(text: Seq<char>) -> Seq<char> {
    without_char(without_char(text, '\\'), '"')
}

/// Copies `text`, leaving out its backslashes and double quotes.
pub fn unquote(text: &str) -> (bare: String)
    ensures
        bare@ == unquoted(text@),
{
    let without_backslashes = remove_char(text, '\\');
    remove_char(without_backslashes.as_str(), '"')
}

/// The accepted post that is made of the rendering of its identifier and of
/// its text. The identifier is the integer that the rendering writes once
/// its quotes are taken off.
pub open spec fn tweet_of_fields(id_rendering: Seq<char>, text: Option<Seq<char>>) -> Result<
    TweetView,
    ParseError,
> {
    match decimal_i64(unquoted(id_rendering)) {
        None => Err(ParseError::InvalidIdentifier),
        Some(id) => match text {
            None => Err(ParseError::MissingText),
            Some(text) => Ok(TweetView { id: id as int, text }),
        },
    }
}

/// The accepted post that the response body `body` reports: the members
/// `id` and `text` of its member `data`.
pub open spec fn tweet_of_body(body: Seq<char>) -> Result<TweetView, ParseError> {
    match json_text_members(body) {
        None => Err(ParseError::InvalidJson),
        Some(members) => tweet_of_fields(
            members[seq!["data"@, "id"@]].rendering,
            members[seq!["data"@, "text"@]].string,
        ),
    }
}

/// Builds the accepted post from the rendering of its identifier, which may
/// be a JSON string or a JSON number, and from its text.
pub fn tweet_from_fields(id_rendering: &str, text: Option<String>) -> (tweet: Result<
    Tweet,
    ParseError,
>)
    ensures
        viewed(tweet) == tweet_of_fields(id_rendering@, text.deep_view()),
{
    let bare = unquote(id_rendering);
    match parse_i64(bare.as_str()) {
        None => Err(ParseError::InvalidIdentifier),
        Some(id) => match text {
            None => Err(ParseError::MissingText),
            Some(text) => Ok(Tweet { id, text }),
        },
    }
}

/// Reads the body of a response that reports success: the identifier and the
/// text that the posting service gave the post.
pub fn parse_tweet_from_response(response_body: String) -> (tweet: Result<Tweet, ParseError>)
    ensures
        viewed(tweet) == tweet_of_body(response_body@),
{
    match parse_document(response_body.as_str()) {
        Err(_) => Err(ParseError::InvalidJson),
        Ok(document) => {
            let data = member(&document, "data");
            let id = member(data, "id");
            let text = member(data, "text");
            proof {
                let none = Seq::<Seq<char>>::empty();
                assert(seq!["id"@] + none =~= seq!["id"@]);
                assert(seq!["text"@] + none =~= seq!["text"@]);
                assert(seq!["data"@] + seq!["id"@] =~= seq!["data"@, "id"@]);
                assert(seq!["data"@] + seq!["text"@] =~= seq!["data"@, "text"@]);
            }
            let id_rendering = render(id);
            let text = string_of(text);
            tweet_from_fields(id_rendering.as_str(), text)
        },
    }
}

/// One header as it is recorded: its name, a colon, its value, a space and a
/// line feed.
pub open spec fn header_line(header: (Seq<char>, Seq<char>)) -> Seq<char> {
    header.0 + ":"@ + header.1 + " \n"@
}

/// The headers as they are recorded: the line of each, in their order.
pub open spec fn serialized_headers(headers: Seq<(Seq<char>, Seq<char>)>) -> Seq<char>
    decreases headers.len(),
{
    if headers.len() == 0 {
        Seq::empty()
    } else {
        serialized_headers(headers.drop_last()) + header_line(headers.last())
    }
}

/// Writes the headers out, one `name:value` pair to a line.
pub fn serialize_headers(headers: &Vec<(String, String)>) -> (lines: String)
    ensures
        lines@ == serialized_headers(headers.deep_view()),
{
    let mut lines = String::new();
    let mut i: usize = 0;
    proof {
        assert(headers.deep_view().take(0) =~= Seq::empty());
    }
    while i < headers.len()
        invariant
            i <= headers.len(),
            lines@ == serialized_headers(headers.deep_view().take(i as int)),
        decreases headers.len() - i,
    {
        proof {
            let all = headers.deep_view();
            assert(all.take(i + 1).drop_last() =~= all.take(i as int));
            assert(all.take(i + 1).last() == (headers[i as int].0@, headers[i as int].1@));
        }
        lines.append(headers[i].0.as_str());
        lines.append(":");
        lines.append(headers[i].1.as_str());
        lines.append(" \n");
        i += 1;
    }
    proof {
        assert(headers.deep_view().take(headers.len() as int) =~= headers.deep_view());
    }
    lines
}

/// The record of a refused post that is made of its reason, of its status
/// and of the headers of the response. A reason or a status that the
/// response does not give is an error: nothing is put in its place.
pub open spec fn failure_of_fields(
    title: Option<Seq<char>>,
    status: Option<i64>,
    headers: Seq<(Seq<char>, Seq<char>)>,
) -> Result<UnSuccessfulTweetStatusView, ParseError> {
    match title {
        None => Err(ParseError::MissingTitle),
        Some(reason) => match status {
            None => Err(ParseError::MissingStatus),
            Some(code) => Ok(
                UnSuccessfulTweetStatusView {
                    status_code: code as int,
                    failure_reason: reason,
                    serialized_headers: serialized_headers(headers),
                },
            ),
        },
    }
}

/// The record of the refused post that a response with the headers
/// `headers` and the body `body` reports: the string that is the member
/// `title` of the body, the integer that is its member `status`, and the
/// headers.
pub open spec fn failure_of_reply(headers: Seq<(Seq<char>, Seq<char>)>, body: Seq<char>) -> Result<
    UnSuccessfulTweetStatusView,
    ParseError,
> {
    match json_text_members(body) {
        None => Err(ParseError::InvalidJson),
        Some(members) => failure_of_fields(
            members[seq!["title"@]].string,
            members[seq!["status"@]].integer,
            headers,
        ),
    }
}

/// The record that stands for an attempt to which no response was had.
pub open spec fn unreachable_failure() -> UnSuccessfulTweetStatusView {
    UnSuccessfulTweetStatusView {
        status_code: UNREACHABLE_STATUS_CODE as int,
        failure_reason: UNREACHABLE_TEXT@,
        serialized_headers: UNREACHABLE_TEXT@,
    }
}

/// The record of the failure that `response` is read as.
pub open spec fn failure_of_response(response: TwitterResponse) -> Result<
    UnSuccessfulTweetStatusView,
    ParseError,
> {
    match response {
        TwitterResponse::Response(reply) => failure_of_reply(
            reply.headers.deep_view(),
            reply.body@,
        ),
        TwitterResponse::FailedResponse(_) => Ok(unreachable_failure()),
    }
}

/// Builds the record of a refused post from its reason and its status, as
/// far as the response gave them, and from the headers of the response.
pub fn status_from_fields(
    title: Option<String>,
    status: Option<i64>,
    headers: &Vec<(String, String)>,
) -> (failure: Result<UnSuccessfulTweetStatus, ParseError>)
    ensures
        viewed(failure) == failure_of_fields(title.deep_view(), status, headers.deep_view()),
{
    match title {
        None => Err(ParseError::MissingTitle),
        Some(failure_reason) => match status {
            None => Err(ParseError::MissingStatus),
            Some(status_code) => {
                let serialized_headers = serialize_headers(headers);
                Ok(UnSuccessfulTweetStatus { status_code, failure_reason, serialized_headers })
            },
        },
    }
}

/// Reads a response as the record of a failure. A response of the service
/// gives its status, its reason and its headers; where no response was had,
/// the record holds the fixed values that stand for that.
pub fn parse_unsucessful_request(response: TwitterResponse) -> (failure: Result<
    UnSuccessfulTweetStatus,
    ParseError,
>)
    ensures
        viewed(failure) == failure_of_response(response),
{
    match response {
        TwitterResponse::Response(reply) => {
            match parse_document(reply.body.as_str()) {
                Err(_) => Err(ParseError::InvalidJson),
                Ok(document) => {
                    let title = member(&document, "title");
                    let status = member(&document, "status");
                    proof {
                        let none = Seq::<Seq<char>>::empty();
                        assert(seq!["title"@] + none =~= seq!["title"@]);
                        assert(seq!["status"@] + none =~= seq!["status"@]);
                    }
                    let title = string_of(title);
                    let status = integer_of(status);
                    status_from_fields(title, status, &reply.headers)
                },
            }
        },
        TwitterResponse::FailedResponse(_) => Ok(
            UnSuccessfulTweetStatus {
                status_code: UNREACHABLE_STATUS_CODE,
                failure_reason: String::from_str(UNREACHABLE_TEXT),
                serialized_headers: String::from_str(UNREACHABLE_TEXT),
            },
        ),
    }
}

/// Whether a status code reports success: the codes from 200 to 299.
pub open spec fn is_success(status: u16) -> bool {
    200 <= status <= 299
}

/// Whether `response` is a response of the service that reports success.
pub open spec fn accepted(response: TwitterResponse) -> bool {
    response matches TwitterResponse::Response(reply) && is_success(reply.status)
}

/// The outcome of the attempt that ended with `response`: the accepted post
/// where the service reports success, the record of the failure otherwise.
/// A response that cannot be read gives no outcome but the error.
pub open spec fn outcome_of(response: TwitterResponse) -> Result<OutcomeView, ParseError> {
    if accepted(response) {
        match tweet_of_body(response->Response_0.body@) {
            Ok(tweet) => Ok(OutcomeView::Published(tweet)),
            Err(error) => Err(error),
        }
    } else {
        match failure_of_response(response) {
            Ok(failure) => Ok(OutcomeView::Failed(failure)),
            Err(error) => Err(error),
        }
    }
}

/// Decides what became of an attempt to publish, from the response to it.
pub fn classify_response(response: TwitterResponse) -> (outcome: Result<Outcome, ParseError>)
    ensures
        viewed(outcome) == outcome_of(response),
{
    match response {
        TwitterResponse::Response(reply) if 200 <= reply.status && reply.status <= 299 => {
            match parse_tweet_from_response(reply.body) {
                Ok(tweet) => Ok(Outcome::Published(tweet)),
                Err(error) => Err(error),
            }
        },
        other => {
            match parse_unsucessful_request(other) {
                Ok(failure) => Ok(Outcome::Failed(failure)),
                Err(error) => Err(error),
            }
        },
    }
}

/// A request to the posting service: where it goes, what its content type
/// is, and its body. Signing and sending it are the caller's.
#[derive(Debug)]
pub struct PostRequest {
    pub url: String,
    pub content_type: String,
    pub body: String,
}

/// What a [`PostRequest`] is, as plain mathematics.
pub struct PostRequestView {
    pub url: Seq<char>,
    pub content_type: Seq<char>,
    pub body: Seq<char>,
}

impl View for PostRequest {
    type V = PostRequestView;

    open spec fn view(&self) -> PostRequestView {
        PostRequestView { url: self.url@, content_type: self.content_type@, body: self.body@ }
    }
}

/// The JSON object whose one member, `text`, is the JSON value that
/// `written` writes.
pub open spec fn object_with_text(written: Seq<char>) -> Seq<char> {
    "{\"text\": "@ + written + "}"@
}

/// The body that carries `text` to the posting service: a JSON object with
/// the one member `text`, which is `text` written as a JSON string.
pub open spec fn request_body_of(text: Seq<char>) -> Seq<char> {
    object_with_text(json_string_text(text))
}

/// The request that posts the quote `quote`: to the posting endpoint, as
/// JSON, with the text of the quote in its body.
pub open spec fn request_of(quote: crate::cassandra::QuoteView) -> PostRequestView {
    PostRequestView {
        url: TWEETS_ENDPOINT@,
        content_type: JSON_CONTENT_TYPE@,
        body: request_body_of(quote.text),
    }
}

/// Writes the JSON object whose one member, `text`, is the JSON value that
/// `written` writes.
pub fn request_body_with(written: &str) -> (body: String)
    ensures
        body@ == object_with_text(written@),
{
    let mut body = String::from_str("{\"text\": ");
    body.append(written);
    body.append("}");
    body
}

/// Writes the body of the request that posts `text`.
pub fn request_body(text: &str) -> (body: String)
    ensures
        body@ == request_body_of(text@),
{
    let written = write_string(text);
    request_body_with(written.as_str())
}

/// The log entry that `outcome` calls for, written at `nanos` nanoseconds
/// since the epoch: an accepted post goes to the log of posts with that
/// time, a failure to the log of failed attempts.
pub open spec fn log_entry_of(keyspace: Seq<char>, outcome: OutcomeView, nanos: u128)
    -> crate::cassandra::StatementView {
    match outcome {
        OutcomeView::Published(tweet) => insert_successful_tweet(keyspace, tweet, nanos),
        OutcomeView::Failed(failure) => insert_unsuccessful_tweet(keyspace, failure),
    }
}

/// What the response to a posting request comes to, read at `nanos`
/// nanoseconds since the epoch: the outcome, and the log entry for it.
pub open spec fn publication_of(keyspace: Seq<char>, response: TwitterResponse, nanos: u128)
    -> Result<(OutcomeView, crate::cassandra::StatementView), ParseError> {
    match outcome_of(response) {
        Ok(outcome) => Ok((outcome, log_entry_of(keyspace, outcome, nanos))),
        Err(error) => Err(error),
    }
}

/// The bot. It decides; the caller holds the connections and does what the
/// bot hands back: it executes statements and sends requests.
pub struct MaxPayneBot {
    cassandra_client: CassandraClient,
}

impl MaxPayneBot {
    /// The keyspace in which the statements of this bot run.
    pub closed spec fn keyspace(&self) -> Seq<char> {
        self.cassandra_client.keyspace()
    }

    /// A bot whose statements run in the keyspace of `cassandra_client`.
    pub fn new(cassandra_client: CassandraClient) -> (bot: MaxPayneBot)
        ensures
            bot.keyspace() == cassandra_client.keyspace(),
    {
        MaxPayneBot { cassandra_client }
    }

    /// The statements that create the tables of the bot where they are
    /// absent, in the order in which they are to run.
    pub fn create_tables_if_not_exists(&self) -> (statements: Vec<Statement>)
        ensures
            statement_views(statements@) == create_tables(self.keyspace()),
    {
        self.cassandra_client.create_tables_if_not_exists()
    }

    /// The two writes that store `parsed_quote`: under its identifier first,
    /// under its game second.
    pub fn save_quote(&self, parsed_quote: &Quote) -> (writes: Vec<Statement>)
        ensures
            statement_views(writes@) == quote_writes(self.keyspace(), parsed_quote@),
    {
        let mut writes: Vec<Statement> = Vec::new();
        writes.push(self.cassandra_client.save_quote_by_id(parsed_quote));
        writes.push(self.cassandra_client.save_quote_by_game(parsed_quote));
        proof {
            assert(statement_views(writes@) =~= quote_writes(self.keyspace(), parsed_quote@));
        }
        writes
    }

    /// The log entry for the accepted post `tweet`, stamped with `now_nanos`.
    pub fn log_successfull_tweet(&self, tweet: &Tweet, now_nanos: u128) -> (write: Statement)
        ensures
            write@ == insert_successful_tweet(self.keyspace(), tweet@, now_nanos),
    {
        self.cassandra_client.save_suc_tweet_logs(tweet, now_nanos)
    }

    /// The log entry for the failed attempt `unsuccessfull_tweet_status`.
    pub fn log_unsuccessfull_tweet(
        &self,
        unsuccessfull_tweet_status: &UnSuccessfulTweetStatus,
    ) -> (write: Statement)
        ensures
            write@ == insert_unsuccessful_tweet(self.keyspace(), unsuccessfull_tweet_status@),
    {
        self.cassandra_client.save_unsuc_tweet_attempt_log(unsuccessfull_tweet_status)
    }

    /// An identifier drawn at random from the fixed range, and the read of
    /// the quote that it names.
    pub fn select_random(&self) -> (drawn: (i64, Statement))
        ensures
            MIN_QUOTE_ID <= drawn.0 <= MAX_QUOTE_ID,
            drawn.1@ == select_quote_by_id(self.keyspace(), drawn.0 as int),
    {
        self.cassandra_client.fetch_random_quote()
    }

    /// The request that posts `quote`.
    pub fn compose_request(quote: &Quote) -> (request: PostRequest)
        ensures
            request@ == request_of(quote@),
    {
        PostRequest {
            url: String::from_str(TWEETS_ENDPOINT),
            content_type: String::from_str(JSON_CONTENT_TYPE),
            body: request_body(quote.text.as_str()),
        }
    }

    /// The log entry that `outcome` calls for, stamped with `now_nanos` where
    /// it is an accepted post.
    pub fn record(&self, outcome: &Outcome, now_nanos: u128) -> (write: Statement)
        ensures
            write@ == log_entry_of(self.keyspace(), outcome@, now_nanos),
    {
        match outcome {
            Outcome::Published(tweet) => self.log_successfull_tweet(tweet, now_nanos),
            Outcome::Failed(failure) => self.log_unsuccessfull_tweet(failure),
        }
    }

    /// Reads the response to a posting request, at `now_nanos` nanoseconds
    /// since the epoch, and yields the outcome with the log entry for it. A
    /// response that cannot be read yields the error, and nothing is to be
    /// logged.
    pub fn publish(&self, response: TwitterResponse, now_nanos: u128) -> (done: Result<
        (Outcome, Statement),
        ParseError,
    >)
        ensures
            viewed(done) == publication_of(self.keyspace(), response, now_nanos),
    {
        match classify_response(response) {
            Ok(outcome) => {
                let write = self.record(&outcome, now_nanos);
                Ok((outcome, write))
            },
            Err(error) => Err(error),
        }
    }
}

/// Every attempt that has an outcome has exactly one of the two: the
/// accepted post where the service reports success, the record of a failure
/// in every other case.
pub proof fn lemma_outcome_is_one_of_two(response: TwitterResponse)
    ensures
        outcome_of(response) matches Ok(outcome) ==> {
            &&& (outcome is Published) != (outcome is Failed)
            &&& outcome is Published <==> accepted(response)
            &&& outcome is Failed <==> !accepted(response)
        },
{
}

/// An attempt to which no response was had ends in no error: its outcome is
/// the failure with the fixed status code, reason and headers.
pub proof fn lemma_unreachable_service_is_a_failure(cause: String)
    ensures
        outcome_of(TwitterResponse::FailedResponse(cause)) == Ok::<OutcomeView, ParseError>(
            OutcomeView::Failed(unreachable_failure()),
        ),
{
}

/// A response has a log entry exactly where it has an outcome, and the
/// entry is that of the outcome: the post with the time of the write, or the
/// failure as it is.
pub proof fn lemma_every_outcome_is_logged(
    keyspace: Seq<char>,
    response: TwitterResponse,
    nanos: u128,
)
    ensures
        publication_of(keyspace, response, nanos).is_ok() <==> outcome_of(response).is_ok(),
        publication_of(keyspace, response, nanos) matches Ok(done) ==> {
            &&& outcome_of(response) == Ok::<OutcomeView, ParseError>(done.0)
            &&& done.0 matches OutcomeView::Published(tweet) ==> done.1
                == insert_successful_tweet(keyspace, tweet, nanos)
            &&& done.0 matches OutcomeView::Failed(failure) ==> done.1
                == insert_unsuccessful_tweet(keyspace, failure)
        },
{
}

/// Reading undoes writing: an identifier that the service writes in
/// decimal, as a JSON number or between the quotes of a JSON string, is read
/// back as it was, and the text is taken as it is.
pub proof fn lemma_written_identifier_reads_back(id: i64, text: Seq<char>)
    ensures
        tweet_of_fields(decimal_text(id as int), Some(text)) == Ok::<TweetView, ParseError>(
            TweetView { id: id as int, text },
        ),
        tweet_of_fields(seq!['"'] + decimal_text(id as int) + seq!['"'], Some(text)) == Ok::<
            TweetView,
            ParseError,
        >(TweetView { id: id as int, text }),
{
    lemma_decimal_text_between_quotes(id as int);
    lemma_decimal_text_reads_back(id as int);
}

/// Where a response reports success and its body holds, under `data`, the
/// identifier `id` written in decimal, as a number or as a string, and the
/// string `text`, the outcome is the post with that identifier and that
/// text, and the log entry is the entry of that post: what is logged is what
/// the service gave.
pub proof fn lemma_accepted_post_is_logged_as_given(
    keyspace: Seq<char>,
    response: TwitterResponse,
    nanos: u128,
    id: i64,
    text: Seq<char>,
)
    ensures
        ({
            &&& accepted(response)
            &&& json_text_members(response->Response_0.body@) matches Some(members)
            &&& members[seq!["data"@, "id"@]].rendering == decimal_text(id as int)
                || members[seq!["data"@, "id"@]].rendering == seq!['"'] + decimal_text(id as int)
                + seq!['"']
            &&& members[seq!["data"@, "text"@]].string == Some(text)
        }) ==> publication_of(keyspace, response, nanos) == Ok::<
            (OutcomeView, crate::cassandra::StatementView),
            ParseError,
        >(
            (
                OutcomeView::Published(TweetView { id: id as int, text }),
                insert_successful_tweet(keyspace, TweetView { id: id as int, text }, nanos),
            ),
        ),
{
    lemma_written_identifier_reads_back(id, text);
}

/// Where a response of the service does not report success and its body
/// holds the string `title` and the integer `status`, the outcome is the
/// failure with that status, that reason and the headers of the response,
/// and the log entry is the entry of that failure.
pub proof fn lemma_refused_post_is_logged_as_given(
    keyspace: Seq<char>,
    response: TwitterResponse,
    nanos: u128,
    title: Seq<char>,
    status: i64,
)
    ensures
        ({
            &&& response is Response
            &&& !accepted(response)
            &&& json_text_members(response->Response_0.body@) matches Some(members)
            &&& members[seq!["title"@]].string == Some(title)
            &&& members[seq!["status"@]].integer == Some(status)
        }) ==> publication_of(keyspace, response, nanos) == Ok::<
            (OutcomeView, crate::cassandra::StatementView),
            ParseError,
        >(
            (
                OutcomeView::Failed(
                    UnSuccessfulTweetStatusView {
                        status_code: status as int,
                        failure_reason: title,
                        serialized_headers: serialized_headers(
                            response->Response_0.headers.deep_view(),
                        ),
                    },
                ),
                insert_unsuccessful_tweet(
                    keyspace,
                    UnSuccessfulTweetStatusView {
                        status_code: status as int,
                        failure_reason: title,
                        serialized_headers: serialized_headers(
                            response->Response_0.headers.deep_view(),
                        ),
                    },
                ),
            ),
        ),
{
}

} // verus!
