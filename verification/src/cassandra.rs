//! The data model of the corpus store, and the statements that read and
//! write it. Nothing here talks to a database: each operation yields the
//! [`Statement`] that the caller is to execute.

use vstd::prelude::*;
use crate::chance::random_in_range;

verus! {

/// One line of the corpus.
#[derive(Debug)]
pub struct Quote {
    pub id: i64,
    pub text: String,
    pub game: String,
    pub part: String,
    pub chapter: String,
}

/// What a [`Quote`] is, as plain mathematics.
pub struct QuoteView {
    pub id: int,
    pub text: Seq<char>,
    pub game: Seq<char>,
    pub part: Seq<char>,
    pub chapter: Seq<char>,
}

impl View for Quote {
    type V = QuoteView;

    open spec fn view(&self) -> QuoteView {
        QuoteView {
            id: self.id as int,
            text: self.text@,
            game: self.game@,
            part: self.part@,
            chapter: self.chapter@,
        }
    }
}

/// A post that the posting service accepted: its identifier there, and its text.
#[derive(Debug)]
pub struct Tweet {
    pub id: i64,
    pub text: String,
}

/// What a [`Tweet`] is, as plain mathematics.
pub struct TweetView {
    pub id: int,
    pub text: Seq<char>,
}

impl View for Tweet {
    type V = TweetView;

    open spec fn view(&self) -> TweetView {
        TweetView { id: self.id as int, text: self.text@ }
    }
}

/// A row of the log of accepted posts.
#[derive(Debug)]
pub struct SuccessfulTweetStatus {
    pub tweet_id: String,
    pub tweet_text: String,
    pub tweeted_on_timestamp: i64,
}

/// What a [`SuccessfulTweetStatus`] is, as plain mathematics.
pub struct SuccessfulTweetStatusView {
    pub tweet_id: Seq<char>,
    pub tweet_text: Seq<char>,
    pub tweeted_on_timestamp: int,
}

impl View for SuccessfulTweetStatus {
    type V = SuccessfulTweetStatusView;

    open spec fn view(&self) -> SuccessfulTweetStatusView {
        SuccessfulTweetStatusView {
            tweet_id: self.tweet_id@,
            tweet_text: self.tweet_text@,
            tweeted_on_timestamp: self.tweeted_on_timestamp as int,
        }
    }
}

/// A post that was not accepted: the status code, the reason given, and the
/// response headers, one `name:value` pair to a line.
#[derive(Debug)]
pub struct UnSuccessfulTweetStatus {
    pub status_code: i64,
    pub failure_reason: String,
    pub serialized_headers: String,
}

/// What an [`UnSuccessfulTweetStatus`] is, as plain mathematics.
pub struct UnSuccessfulTweetStatusView {
    pub status_code: int,
    pub failure_reason: Seq<char>,
    pub serialized_headers: Seq<char>,
}

impl View for UnSuccessfulTweetStatus {
    type V = UnSuccessfulTweetStatusView;

    open spec fn view(&self) -> UnSuccessfulTweetStatusView {
        UnSuccessfulTweetStatusView {
            status_code: self.status_code as int,
            failure_reason: self.failure_reason@,
            serialized_headers: self.serialized_headers@,
        }
    }
}

/// A value bound to a named parameter of a statement.
#[derive(Debug)]
pub enum BindValue {
    Int(i64),
    Text(String),
}

/// What a [`BindValue`] is, as plain mathematics.
pub enum BindValueView {
    Int(int),
    Text(Seq<char>),
}

impl View for BindValue {
    type V = BindValueView;

    open spec fn view(&self) -> BindValueView {
        match self {
            BindValue::Int(n) => BindValueView::Int(*n as int),
            BindValue::Text(s) => BindValueView::Text(s@),
        }
    }
}

/// A named parameter of a statement, with its value.
#[derive(Debug)]
pub struct Binding {
    pub name: String,
    pub value: BindValue,
}

/// What a [`Binding`] is, as plain mathematics.
pub struct BindingView {
    pub name: Seq<char>,
    pub value: BindValueView,
}

impl View for Binding {
    type V = BindingView;

    open spec fn view(&self) -> BindingView {
        BindingView { name: self.name@, value: self.value@ }
    }
}

/// A statement for the corpus store: the keyspace it runs in, its text, and
/// the values of its named parameters in the order in which they were bound.
#[derive(Debug)]
pub struct Statement {
    pub keyspace: String,
    pub cql: String,
    pub bindings: Vec<Binding>,
}

/// What a [`Statement`] is, as plain mathematics.
pub struct StatementView {
    pub keyspace: Seq<char>,
    pub cql: Seq<char>,
    pub bindings: Seq<BindingView>,
}

impl View for Statement {
    type V = StatementView;

    open spec fn view(&self) -> StatementView {
        StatementView {
            keyspace: self.keyspace@,
            cql: self.cql@,
            bindings: Seq::new(self.bindings@.len(), |i: int| self.bindings@[i]@),
        }
    }
}

/// The quotes `quotes`, each by its view.
pub open spec fn quote_views(quotes: Seq<Quote>) -> Seq<QuoteView> {
    Seq::new(quotes.len(), |i: int| quotes[i]@)
}

/// The statements `statements`, each by its view.
pub open spec fn statement_views(statements: Seq<Statement>) -> Seq<StatementView> {
    Seq::new(statements.len(), |i: int| statements[i]@)
}

/// The binding of an integer to the parameter `name`.
pub open spec fn bind_int(name: Seq<char>, value: int) -> BindingView {
    BindingView { name, value: BindValueView::Int(value) }
}

/// The binding of a text to the parameter `name`.
pub open spec fn bind_text(name: Seq<char>, value: Seq<char>) -> BindingView {
    BindingView { name, value: BindValueView::Text(value) }
}

/// The keyspace that every statement of the bot runs in.
pub const KEYSPACE: &'static str = "main";

/// Smallest identifier that a random selection may draw.
pub const MIN_QUOTE_ID: i64 = 0;

/// Largest identifier that a random selection may draw, however many quotes
/// the store holds.
pub const MAX_QUOTE_ID: i64 = 255;

pub const CREATE_QUOTES_BY_ID: &'static str =
    "CREATE TABLE IF NOT EXISTS quotes_by_id (id int PRIMARY KEY, quote text, game text, part text, chapter text);";

pub const CREATE_QUOTES_BY_GAME: &'static str =
    "CREATE TABLE IF NOT EXISTS quotes_by_game (game text, quote text, part text, chapter text, PRIMARY KEY (game, quote));";

pub const CREATE_SUCCESSFULL_TWEETS: &'static str =
    "CREATE TABLE IF NOT EXISTS successfull_tweets_by_id (tweet_id bigint PRIMARY KEY, tweet_text text, tweeted_on_timestamp bigint);";

pub const CREATE_UNSUCCESSFULL_TWEETS: &'static str =
    "CREATE TABLE IF NOT EXISTS unsuccessfull_tweets_by_id (tweet_attempted_at timeuuid PRIMARY KEY, status_code int, failure_reason text, serialized_headers text);";

pub const INSERT_QUOTE_BY_ID: &'static str =
    "INSERT INTO quotes_by_id (id, chapter, game, part, quote) VALUES (:id, :chapter, :game, :part, :quote)";

pub const INSERT_QUOTE_BY_GAME: &'static str =
    "INSERT INTO quotes_by_game (game, quote, chapter, part) VALUES (:game, :quote, :chapter, :part)";

pub const INSERT_SUCCESSFULL_TWEET: &'static str =
    "INSERT INTO successfull_tweets_by_id (tweet_id , tweet_text , tweeted_on_timestamp) VALUES ( :id, :tweet_text, :tweeted_on_timestamp);";

pub const INSERT_UNSUCCESSFULL_TWEET: &'static str =
    "INSERT INTO unsuccessfull_tweets_by_id ( tweet_attempted_at , failure_reason , status_code , serialized_headers ) VALUES ( now(), :failure_reason, :status_code , :serialized_headers);";

pub const SELECT_QUOTE_BY_ID: &'static str = "SELECT quote FROM quotes_by_id WHERE id = :id";

/// A statement without parameters.
pub open spec fn plain_statement(keyspace: Seq<char>, cql: Seq<char>) -> StatementView {
    StatementView { keyspace, cql, bindings: Seq::empty() }
}

/// The four statements that create the tables where they are absent: quotes
/// by identifier, quotes by game, the log of accepted posts, the log of
/// failed attempts.
pub open spec fn create_tables(keyspace: Seq<char>) -> Seq<StatementView> {
    seq![
        plain_statement(keyspace, CREATE_QUOTES_BY_ID@),
        plain_statement(keyspace, CREATE_QUOTES_BY_GAME@),
        plain_statement(keyspace, CREATE_SUCCESSFULL_TWEETS@),
        plain_statement(keyspace, CREATE_UNSUCCESSFULL_TWEETS@),
    ]
}

/// The write of `quote` to the table that is keyed by identifier.
pub open spec fn insert_quote_by_id(keyspace: Seq<char>, quote: QuoteView) -> StatementView {
    StatementView {
        keyspace,
        cql: INSERT_QUOTE_BY_ID@,
        bindings: seq![
            bind_int("id"@, quote.id),
            bind_text("chapter"@, quote.chapter),
            bind_text("game"@, quote.game),
            bind_text("part"@, quote.part),
            bind_text("quote"@, quote.text),
        ],
    }
}

/// The write of `quote` to the table that is keyed by game and text.
pub open spec fn insert_quote_by_game(keyspace: Seq<char>, quote: QuoteView) -> StatementView {
    StatementView {
        keyspace,
        cql: INSERT_QUOTE_BY_GAME@,
        bindings: seq![
            bind_text("chapter"@, quote.chapter),
            bind_text("part"@, quote.part),
            bind_text("game"@, quote.game),
            bind_text("quote"@, quote.text),
        ],
    }
}

/// The two writes that store `quote`: under its identifier first, under its
/// game second.
pub open spec fn quote_writes(keyspace: Seq<char>, quote: QuoteView) -> Seq<StatementView> {
    seq![insert_quote_by_id(keyspace, quote), insert_quote_by_game(keyspace, quote)]
}

/// The nanoseconds `nanos` since the epoch as the store keeps them: the low
/// 64 bits, read as a signed number.
pub open spec fn timestamp_of(nanos: u128) -> i64 {
    nanos as i64
}

/// The log entry for an accepted post, written at `nanos` nanoseconds since
/// the epoch.
pub open spec fn insert_successful_tweet(
    keyspace: Seq<char>,
    tweet: TweetView,
    nanos: u128,
) -> StatementView {
    StatementView {
        keyspace,
        cql: INSERT_SUCCESSFULL_TWEET@,
        bindings: seq![
            bind_int("id"@, tweet.id),
            bind_text("tweet_text"@, tweet.text),
            bind_int("tweeted_on_timestamp"@, timestamp_of(nanos) as int),
        ],
    }
}

/// The log entry for a failed attempt. Its key is the time of the write,
/// which the store itself supplies.
pub open spec fn insert_unsuccessful_tweet(
    keyspace: Seq<char>,
    status: UnSuccessfulTweetStatusView,
) -> StatementView {
    StatementView {
        keyspace,
        cql: INSERT_UNSUCCESSFULL_TWEET@,
        bindings: seq![
            bind_text("failure_reason"@, status.failure_reason),
            bind_int("status_code"@, status.status_code),
            bind_text("serialized_headers"@, status.serialized_headers),
        ],
    }
}

/// The read of the text of the quote with identifier `id`.
pub open spec fn select_quote_by_id(keyspace: Seq<char>, id: int) -> StatementView {
    StatementView { keyspace, cql: SELECT_QUOTE_BY_ID@, bindings: seq![bind_int("id"@, id)] }
}

/// The quote that a read by identifier yields: the text of the last row, or
/// no text where there is no row, under the identifier that was asked for.
pub open spec fn selected_quote(id: int, rows: Seq<Seq<char>>) -> QuoteView {
    QuoteView {
        id,
        text: if rows.len() == 0 { Seq::empty() } else { rows.last() },
        game: Seq::empty(),
        part: Seq::empty(),
        chapter: Seq::empty(),
    }
}

fn int_binding(name: &str, value: i64) -> (binding: Binding)
    ensures
        binding@ == bind_int(name@, value as int),
{
    Binding { name: String::from_str(name), value: BindValue::Int(value) }
}

fn text_binding(name: &str, value: &String) -> (binding: Binding)
    ensures
        binding@ == bind_text(name@, value@),
{
    Binding { name: String::from_str(name), value: BindValue::Text(value.clone()) }
}

fn statement(keyspace: &String, cql: &str, bindings: Vec<Binding>) -> (made: Statement)
    ensures
        made@.keyspace == keyspace@,
        made@.cql == cql@,
        made@.bindings.len() == bindings@.len(),
        forall|i: int| 0 <= i < bindings@.len() ==> #[trigger] made@.bindings[i] == bindings@[i]@,
{
    Statement { keyspace: keyspace.clone(), cql: String::from_str(cql), bindings }
}

/// Plans the statements of the corpus store. It holds no connection: each
/// method yields the statement to execute, in the keyspace of the client.
pub struct CassandraClient {
    keyspace: String,
}

impl CassandraClient {
    /// The keyspace in which the statements of this client run.
    pub closed spec fn keyspace(&self) -> Seq<char> {
        self.keyspace@
    }

    /// A client for the keyspace of the bot.
    pub fn new() -> (client: CassandraClient)
        ensures
            client.keyspace() == KEYSPACE@,
    {
        CassandraClient { keyspace: String::from_str(KEYSPACE) }
    }

    /// The statements that create the four tables where they are absent, in
    /// the order in which they are to run.
    pub fn create_tables_if_not_exists(&self) -> (statements: Vec<Statement>)
        ensures
            statement_views(statements@) == create_tables(self.keyspace()),
    {
        let mut statements: Vec<Statement> = Vec::new();
        statements.push(statement(&self.keyspace, CREATE_QUOTES_BY_ID, Vec::new()));
        statements.push(statement(&self.keyspace, CREATE_QUOTES_BY_GAME, Vec::new()));
        statements.push(statement(&self.keyspace, CREATE_SUCCESSFULL_TWEETS, Vec::new()));
        statements.push(statement(&self.keyspace, CREATE_UNSUCCESSFULL_TWEETS, Vec::new()));
        proof {
            assert forall|i: int| 0 <= i < 4 implies (#[trigger] statements@[i])@ == create_tables(
                self.keyspace(),
            )[i] by {
                assert(statements@[i]@.bindings =~= Seq::empty());
            }
            assert(statement_views(statements@) =~= create_tables(self.keyspace()));
        }
        statements
    }

    /// The write of `quote` under its identifier.
    pub fn save_quote_by_id(&self, quote: &Quote) -> (write: Statement)
        ensures
            write@ == insert_quote_by_id(self.keyspace(), quote@),
    {
        let mut bindings: Vec<Binding> = Vec::new();
        bindings.push(int_binding("id", quote.id));
        bindings.push(text_binding("chapter", &quote.chapter));
        bindings.push(text_binding("game", &quote.game));
        bindings.push(text_binding("part", &quote.part));
        bindings.push(text_binding("quote", &quote.text));
        let write = statement(&self.keyspace, INSERT_QUOTE_BY_ID, bindings);
        proof {
            assert(write@.bindings =~= insert_quote_by_id(self.keyspace(), quote@).bindings);
        }
        write
    }

    /// The write of `quote` under its game and text.
    pub fn save_quote_by_game(&self, quote: &Quote) -> (write: Statement)
        ensures
            write@ == insert_quote_by_game(self.keyspace(), quote@),
    {
        let mut bindings: Vec<Binding> = Vec::new();
        bindings.push(text_binding("chapter", &quote.chapter));
        bindings.push(text_binding("part", &quote.part));
        bindings.push(text_binding("game", &quote.game));
        bindings.push(text_binding("quote", &quote.text));
        let write = statement(&self.keyspace, INSERT_QUOTE_BY_GAME, bindings);
        proof {
            assert(write@.bindings =~= insert_quote_by_game(self.keyspace(), quote@).bindings);
        }
        write
    }

    /// The log entry for the accepted post `tweet`, stamped with `now_nanos`,
    /// the nanoseconds since the epoch at the time of the write.
    pub fn save_suc_tweet_logs(&self, tweet: &Tweet, now_nanos: u128) -> (write: Statement)
        ensures
            write@ == insert_successful_tweet(self.keyspace(), tweet@, now_nanos),
    {
        let stamp: i64 = #[verifier::truncate] (now_nanos as i64);
        let mut bindings: Vec<Binding> = Vec::new();
        bindings.push(int_binding("id", tweet.id));
        bindings.push(text_binding("tweet_text", &tweet.text));
        bindings.push(int_binding("tweeted_on_timestamp", stamp));
        let write = statement(&self.keyspace, INSERT_SUCCESSFULL_TWEET, bindings);
        proof {
            assert(write@.bindings =~= insert_successful_tweet(
                self.keyspace(),
                tweet@,
                now_nanos,
            ).bindings);
        }
        write
    }

    /// The log entry for the failed attempt `status`.
    pub fn save_unsuc_tweet_attempt_log(&self, status: &UnSuccessfulTweetStatus) -> (write:
        Statement)
        ensures
            write@ == insert_unsuccessful_tweet(self.keyspace(), status@),
    {
        let mut bindings: Vec<Binding> = Vec::new();
        bindings.push(text_binding("failure_reason", &status.failure_reason));
        bindings.push(int_binding("status_code", status.status_code));
        bindings.push(text_binding("serialized_headers", &status.serialized_headers));
        let write = statement(&self.keyspace, INSERT_UNSUCCESSFULL_TWEET, bindings);
        proof {
            assert(write@.bindings =~= insert_unsuccessful_tweet(self.keyspace(), status@).bindings);
        }
        write
    }

    /// The read of the text of the quote with identifier `id`.
    pub fn select_quote(&self, id: i64) -> (read: Statement)
        ensures
            read@ == select_quote_by_id(self.keyspace(), id as int),
    {
        let mut bindings: Vec<Binding> = Vec::new();
        bindings.push(int_binding("id", id));
        let read = statement(&self.keyspace, SELECT_QUOTE_BY_ID, bindings);
        proof {
            assert(read@.bindings =~= select_quote_by_id(self.keyspace(), id as int).bindings);
        }
        read
    }

    /// Draws an identifier at random from `MIN_QUOTE_ID..=MAX_QUOTE_ID` and
    /// yields it with the read of the quote that it names. The range is
    /// fixed: it does not follow the number of quotes in the store.
    pub fn fetch_random_quote(&self) -> (drawn: (i64, Statement))
        ensures
            MIN_QUOTE_ID <= drawn.0 <= MAX_QUOTE_ID,
            drawn.1@ == select_quote_by_id(self.keyspace(), drawn.0 as int),
    {
        let id = random_in_range(MIN_QUOTE_ID, MAX_QUOTE_ID);
        (id, self.select_quote(id))
    }

    /// The quote that the read for `id` found, given the texts of the rows
    /// that came back: the last of them, or a quote without text where no
    /// row came back. The game, part and chapter are not read and stay empty.
    pub fn quote_from_rows(id: i64, rows: &Vec<String>) -> (quote: Quote)
        ensures
            quote@ == selected_quote(id as int, rows.deep_view()),
    {
        let text = if rows.len() == 0 {
            String::new()
        } else {
            rows[rows.len() - 1].clone()
        };
        Quote { id, text, game: String::new(), part: String::new(), chapter: String::new() }
    }
}

} // verus!
