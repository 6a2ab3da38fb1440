use max_payne_bot::cassandra::{BindValue, CassandraClient, Quote, Statement};
use max_payne_bot::error::ParseError;
use max_payne_bot::max_payne::MaxPayneBot;
use max_payne_bot::parser::{parse_quotes, quotes_already_saved, seed_records};

const THREE_RECORDS: &str = "quote;game;part;chapter\n\
They were all dead.;Max Payne;Part I;Prologue\n\
The final gunshot was an exclamation mark.;Max Payne;Part I;Prologue\n\
Firing a gun is a binary choice.;Max Payne 2;Part III;Chapter 8\n";

fn bot() -> MaxPayneBot {
    MaxPayneBot::new(CassandraClient::new())
}

fn fields(quote: &Quote) -> (i64, &str, &str, &str, &str) {
    (quote.id, &quote.text, &quote.game, &quote.part, &quote.chapter)
}

fn row(text: &str, game: &str, part: &str, chapter: &str) -> Result<Vec<String>, String> {
    Ok(vec![text.to_string(), game.to_string(), part.to_string(), chapter.to_string()])
}

fn int_of(statement: &Statement, name: &str) -> Option<i64> {
    statement.bindings.iter().find(|b| b.name == name).and_then(|b| match &b.value {
        BindValue::Int(n) => Some(*n),
        BindValue::Text(_) => None,
    })
}

fn text_of(statement: &Statement, name: &str) -> Option<String> {
    statement.bindings.iter().find(|b| b.name == name).and_then(|b| match &b.value {
        BindValue::Int(_) => None,
        BindValue::Text(s) => Some(s.clone()),
    })
}

#[test]
fn flag_is_read_letter_for_letter() {
    assert!(quotes_already_saved("TRUE"));
    assert!(!quotes_already_saved("true"));
    assert!(!quotes_already_saved("True"));
    assert!(!quotes_already_saved(" TRUE"));
    assert!(!quotes_already_saved("FALSE"));
    assert!(!quotes_already_saved(""));
}

#[test]
fn seeding_is_skipped_when_the_flag_is_set() {
    let pass = parse_quotes(&bot(), "TRUE", THREE_RECORDS.as_bytes());
    assert!(pass.quotes.is_empty());
    assert!(pass.writes.is_empty());
    assert_eq!(pass.error, None);
}

#[test]
fn seeding_is_skipped_whatever_the_file_holds() {
    let garbage: Vec<u8> = vec![0xff, 0xfe, b';', b'\n', b'"', 0x00, b';'];
    let pass = parse_quotes(&bot(), "TRUE", &garbage);
    assert!(pass.quotes.is_empty());
    assert!(pass.writes.is_empty());
    assert_eq!(pass.error, None);
    let empty = parse_quotes(&bot(), "TRUE", b"");
    assert!(empty.quotes.is_empty());
    assert!(empty.writes.is_empty());
    assert_eq!(empty.error, None);
}

#[test]
fn three_records_get_the_identifiers_0_1_2() {
    let pass = parse_quotes(&bot(), "FALSE", THREE_RECORDS.as_bytes());
    assert_eq!(pass.error, None);
    let ids: Vec<i64> = pass.quotes.iter().map(|q| q.id).collect();
    assert_eq!(ids, vec![0, 1, 2]);
    assert_eq!(
        fields(&pass.quotes[0]),
        (0, "They were all dead.", "Max Payne", "Part I", "Prologue")
    );
    assert_eq!(
        fields(&pass.quotes[1]),
        (1, "The final gunshot was an exclamation mark.", "Max Payne", "Part I", "Prologue")
    );
    assert_eq!(
        fields(&pass.quotes[2]),
        (2, "Firing a gun is a binary choice.", "Max Payne 2", "Part III", "Chapter 8")
    );
}

#[test]
fn every_quote_is_written_twice_in_order() {
    let pass = parse_quotes(&bot(), "", THREE_RECORDS.as_bytes());
    assert_eq!(pass.error, None);
    assert_eq!(pass.writes.len(), 6);
    for (i, quote) in pass.quotes.iter().enumerate() {
        let by_id = &pass.writes[2 * i];
        let by_game = &pass.writes[2 * i + 1];
        assert!(by_id.cql.starts_with("INSERT INTO quotes_by_id "));
        assert!(by_game.cql.starts_with("INSERT INTO quotes_by_game "));
        assert_eq!(by_id.keyspace, "main");
        assert_eq!(by_game.keyspace, "main");
        assert_eq!(int_of(by_id, "id"), Some(i as i64));
        assert_eq!(int_of(by_game, "id"), None);
        assert_eq!(text_of(by_id, "quote"), Some(quote.text.clone()));
        assert_eq!(text_of(by_game, "quote"), Some(quote.text.clone()));
        assert_eq!(text_of(by_id, "game"), Some(quote.game.clone()));
        assert_eq!(text_of(by_game, "game"), Some(quote.game.clone()));
        assert_eq!(text_of(by_id, "part"), Some(quote.part.clone()));
        assert_eq!(text_of(by_game, "chapter"), Some(quote.chapter.clone()));
    }
}

#[test]
fn header_row_is_no_quote() {
    let pass = parse_quotes(&bot(), "FALSE", b"quote;game;part;chapter\n");
    assert!(pass.quotes.is_empty());
    assert!(pass.writes.is_empty());
    assert_eq!(pass.error, None);
    let nothing = parse_quotes(&bot(), "FALSE", b"");
    assert!(nothing.quotes.is_empty());
    assert!(nothing.writes.is_empty());
    assert_eq!(nothing.error, None);
}

#[test]
fn fields_are_parted_by_semicolons_only() {
    let source = "quote;game;part;chapter\n\
\"I lied to myself; it was over.\";Max Payne, the first;Part II;\"Chapter \"\"3\"\"\"\n";
    let pass = parse_quotes(&bot(), "FALSE", source.as_bytes());
    assert_eq!(pass.error, None);
    assert_eq!(pass.quotes.len(), 1);
    assert_eq!(
        fields(&pass.quotes[0]),
        (0, "I lied to myself; it was over.", "Max Payne, the first", "Part II", "Chapter \"3\"")
    );
}

#[test]
fn record_with_a_missing_field_ends_the_pass() {
    let source = "quote;game;part;chapter\n\
first;g;p;c\n\
second;g;p\n\
third;g;p;c\n";
    let pass = parse_quotes(&bot(), "FALSE", source.as_bytes());
    assert_eq!(pass.error, Some(ParseError::MalformedRecord { record: 1 }));
    assert_eq!(pass.quotes.len(), 1);
    assert_eq!(fields(&pass.quotes[0]), (0, "first", "g", "p", "c"));
    assert_eq!(pass.writes.len(), 2);
    assert_eq!(text_of(&pass.writes[0], "quote"), Some("first".to_string()));
    assert_eq!(text_of(&pass.writes[1], "quote"), Some("first".to_string()));
}

#[test]
fn record_that_is_no_text_ends_the_pass() {
    let mut source: Vec<u8> = b"quote;game;part;chapter\nfirst;g;p;c\n".to_vec();
    source.extend_from_slice(&[0xff, 0xfe, b';', b'g', b';', b'p', b';', b'c', b'\n']);
    source.extend_from_slice(b"third;g;p;c\n");
    let pass = parse_quotes(&bot(), "FALSE", &source);
    assert_eq!(pass.error, Some(ParseError::MalformedRecord { record: 1 }));
    assert_eq!(pass.quotes.len(), 1);
    assert_eq!(pass.writes.len(), 2);
}

#[test]
fn file_with_three_columns_has_no_quote() {
    let source = "quote;game;part\nfirst;g;p\nsecond;g;p\n";
    let pass = parse_quotes(&bot(), "FALSE", source.as_bytes());
    assert_eq!(pass.error, Some(ParseError::MissingField { record: 0 }));
    assert!(pass.quotes.is_empty());
    assert!(pass.writes.is_empty());
}

#[test]
fn fields_after_the_fourth_are_not_read() {
    let source = "quote;game;part;chapter;note\nfirst;g;p;c;extra\n";
    let pass = parse_quotes(&bot(), "FALSE", source.as_bytes());
    assert_eq!(pass.error, None);
    assert_eq!(pass.quotes.len(), 1);
    assert_eq!(fields(&pass.quotes[0]), (0, "first", "g", "p", "c"));
}

#[test]
fn records_that_were_read_already_are_seeded_in_order() {
    let rows = vec![row("a", "g1", "p1", "c1"), row("b", "g2", "p2", "c2")];
    let pass = seed_records(&bot(), &rows);
    assert_eq!(pass.error, None);
    assert_eq!(pass.quotes.len(), 2);
    assert_eq!(fields(&pass.quotes[0]), (0, "a", "g1", "p1", "c1"));
    assert_eq!(fields(&pass.quotes[1]), (1, "b", "g2", "p2", "c2"));
    assert_eq!(pass.writes.len(), 4);
    assert_eq!(int_of(&pass.writes[0], "id"), Some(0));
    assert_eq!(int_of(&pass.writes[2], "id"), Some(1));
}

#[test]
fn record_that_could_not_be_read_ends_the_pass() {
    let rows = vec![
        row("a", "g", "p", "c"),
        row("b", "g", "p", "c"),
        Err("unreadable".to_string()),
        row("d", "g", "p", "c"),
    ];
    let pass = seed_records(&bot(), &rows);
    assert_eq!(pass.error, Some(ParseError::MalformedRecord { record: 2 }));
    let ids: Vec<i64> = pass.quotes.iter().map(|q| q.id).collect();
    assert_eq!(ids, vec![0, 1]);
    assert_eq!(pass.writes.len(), 4);
}

#[test]
fn short_record_ends_the_pass() {
    let rows: Vec<Result<Vec<String>, String>> = vec![
        row("a", "g", "p", "c"),
        Ok(vec!["b".to_string(), "g".to_string(), "p".to_string()]),
        row("c", "g", "p", "c"),
    ];
    let pass = seed_records(&bot(), &rows);
    assert_eq!(pass.error, Some(ParseError::MissingField { record: 1 }));
    assert_eq!(pass.quotes.len(), 1);
    assert_eq!(pass.writes.len(), 2);
}

#[test]
fn no_record_is_no_quote() {
    let rows: Vec<Result<Vec<String>, String>> = Vec::new();
    let pass = seed_records(&bot(), &rows);
    assert_eq!(pass.error, None);
    assert!(pass.quotes.is_empty());
    assert!(pass.writes.is_empty());
}

#[test]
fn bot_stores_a_quote_by_identifier_then_by_game() {
    let quote = Quote {
        id: 9,
        text: "t".to_string(),
        game: "g".to_string(),
        part: "p".to_string(),
        chapter: "c".to_string(),
    };
    let writes = bot().save_quote(&quote);
    assert_eq!(writes.len(), 2);
    assert!(writes[0].cql.starts_with("INSERT INTO quotes_by_id "));
    assert!(writes[1].cql.starts_with("INSERT INTO quotes_by_game "));
    assert_eq!(int_of(&writes[0], "id"), Some(9));
}

#[test]
fn bot_creates_four_tables() {
    let statements = bot().create_tables_if_not_exists();
    assert_eq!(statements.len(), 4);
    assert!(statements[0].cql.contains(" quotes_by_id "));
    assert!(statements[1].cql.contains(" quotes_by_game "));
    assert!(statements[2].cql.contains(" successfull_tweets_by_id "));
    assert!(statements[3].cql.contains(" unsuccessfull_tweets_by_id "));
}
