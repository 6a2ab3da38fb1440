//! The seeding of the corpus: from the delimited quote file to the quotes
//! and the writes that store them.

use vstd::prelude::*;
use crate::cassandra::{
    Quote, QuoteView, Statement, StatementView, insert_quote_by_game, insert_quote_by_id,
    quote_views, quote_writes, statement_views,
};
use crate::error::ParseError;
use crate::max_payne::MaxPayneBot;
use crate::records::{csv_rows, read_records, row_views};
use crate::text::same_text;

verus! {

/// The byte that parts the fields of a record: a semicolon.
pub const FIELD_DELIMITER: u8 = 59;

/// What the seeding flag reads once the corpus is in the store.
pub const QUOTES_SAVED: &'static str = "TRUE";

/// The fields that a record must have: text, game, part and chapter.
pub const FIELDS_PER_RECORD: usize = 4;

/// What one seeding pass comes to: the quotes that were read, the writes
/// that store them, and the fault that ended the pass early, if one did.
/// The writes that stand before a fault are still to be executed.
#[derive(Debug)]
pub struct SeedingPass {
    pub quotes: Vec<Quote>,
    pub writes: Vec<Statement>,
    pub error: Option<ParseError>,
}

/// What a [`SeedingPass`] is, as plain mathematics.
pub struct SeedingView {
    pub quotes: Seq<QuoteView>,
    pub writes: Seq<StatementView>,
    pub error: Option<ParseError>,
}

impl View for SeedingPass {
    type V = SeedingView;

    open spec fn view(&self) -> SeedingView {
        SeedingView {
            quotes: quote_views(self.quotes@),
            writes: statement_views(self.writes@),
            error: self.error,
        }
    }
}

/// The pass that read nothing.
pub open spec fn empty_pass() -> SeedingView {
    SeedingView { quotes: Seq::empty(), writes: Seq::empty(), error: None }
}

/// The quote that the fields of a record make under the identifier `id`.
pub open spec fn quote_of_fields(id: int, fields: Seq<Seq<char>>) -> QuoteView {
    QuoteView { id, text: fields[0], game: fields[1], part: fields[2], chapter: fields[3] }
}

/// What is wrong with the record `row`, which stands at `index` and would
/// get the identifier `id`; `None` where it makes a quote.
pub open spec fn record_fault(index: int, id: int, row: Option<Seq<Seq<char>>>) -> Option<
    ParseError,
> {
    match row {
        None => Some(ParseError::MalformedRecord { record: index as usize }),
        Some(fields) => if fields.len() < FIELDS_PER_RECORD {
            Some(ParseError::MissingField { record: index as usize })
        } else if id > i64::MAX {
            Some(ParseError::TooManyRecords { record: index as usize })
        } else {
            None
        },
    }
}

/// The pass over `rows`: record by record, each gets the next identifier,
/// counted from 0, and its two writes, until a record is at fault. The fault
/// ends the pass; what stands before it stays.
pub open spec fn seeding_of_rows(keyspace: Seq<char>, rows: Seq<Option<Seq<Seq<char>>>>)
    -> SeedingView
    decreases rows.len(),
{
    if rows.len() == 0 {
        empty_pass()
    } else {
        let before = seeding_of_rows(keyspace, rows.drop_last());
        if before.error.is_some() {
            before
        } else {
            let id = before.quotes.len() as int;
            match record_fault(rows.len() - 1, id, rows.last()) {
                Some(fault) => SeedingView { error: Some(fault), ..before },
                None => {
                    let quote = quote_of_fields(id, rows.last().unwrap());
                    SeedingView {
                        quotes: before.quotes.push(quote),
                        writes: before.writes + quote_writes(keyspace, quote),
                        error: None,
                    }
                },
            }
        }
    }
}

/// The pass over the quote file `source` under the seeding flag
/// `is_data_saved`: nothing where the flag says that the corpus is in the
/// store, else the pass over the records of the file.
pub open spec fn seeding_of(keyspace: Seq<char>, is_data_saved: Seq<char>, source: Seq<u8>)
    -> SeedingView {
    if is_data_saved == QUOTES_SAVED@ {
        empty_pass()
    } else {
        seeding_of_rows(keyspace, csv_rows(source, FIELD_DELIMITER, true))
    }
}

/// A pass that a fault has ended is not changed by the records that follow.
pub proof fn lemma_fault_ends_pass(
    keyspace: Seq<char>,
    rows: Seq<Option<Seq<Seq<char>>>>,
    k: int,
)
    requires
        0 <= k <= rows.len(),
        seeding_of_rows(keyspace, rows.take(k)).error.is_some(),
    ensures
        seeding_of_rows(keyspace, rows) == seeding_of_rows(keyspace, rows.take(k)),
    decreases rows.len(),
{
    if k == rows.len() {
        assert(rows.take(k) =~= rows);
    } else {
        assert(rows.drop_last().take(k) =~= rows.take(k));
        lemma_fault_ends_pass(keyspace, rows.drop_last(), k);
    }
}

/// Whether the seeding flag says that the corpus is in the store already:
/// it does where it reads `TRUE`, letter for letter.
pub fn quotes_already_saved(is_data_saved: &str) -> (saved: bool)
    ensures
        saved == (is_data_saved@ == QUOTES_SAVED@),
{
    same_text(is_data_saved, QUOTES_SAVED)
}

/// Runs a seeding pass over records that were read already: `Ok` with the
/// fields of a record, `Err` for a record that could not be read.
pub fn seed_records<E>(max_payne: &MaxPayneBot, rows: &Vec<Result<Vec<String>, E>>) -> (pass:
    SeedingPass)
    ensures
        pass@ == seeding_of_rows(max_payne.keyspace(), row_views(rows@)),
{
    let ghost keyspace = max_payne.keyspace();
    let ghost all = row_views(rows@);
    let mut quotes: Vec<Quote> = Vec::new();
    let mut writes: Vec<Statement> = Vec::new();
    let mut i: usize = 0;
    proof {
        assert(all.take(0) =~= Seq::empty());
        assert(quote_views(quotes@) =~= Seq::empty());
        assert(statement_views(writes@) =~= Seq::empty());
    }
    while i < rows.len()
        invariant
            i <= rows.len(),
            keyspace == max_payne.keyspace(),
            all == row_views(rows@),
            quotes@.len() == i,
            seeding_of_rows(keyspace, all.take(i as int)) == (SeedingView {
                quotes: quote_views(quotes@),
                writes: statement_views(writes@),
                error: None,
            }),
        decreases rows.len() - i,
    {
        proof {
            assert(all.take(i + 1).drop_last() =~= all.take(i as int));
            assert(all.take(i + 1).last() == all[i as int]);
        }
        let fault = match &rows[i] {
            Err(_) => Some(ParseError::MalformedRecord { record: i }),
            Ok(fields) => if fields.len() < FIELDS_PER_RECORD {
                Some(ParseError::MissingField { record: i })
            } else if i as u64 > i64::MAX as u64 {
                Some(ParseError::TooManyRecords { record: i })
            } else {
                None
            },
        };
        assert(fault == record_fault(i as int, i as int, all[i as int]));
        match &rows[i] {
            Ok(fields) if fault.is_none() => {
                let quote = Quote {
                    id: i as i64,
                    text: fields[0].clone(),
                    game: fields[1].clone(),
                    part: fields[2].clone(),
                    chapter: fields[3].clone(),
                };
                assert(quote@ == quote_of_fields(i as int, all[i as int].unwrap()));
                let mut pair = max_payne.save_quote(&quote);
                let ghost writes_before = writes@;
                let ghost quotes_before = quotes@;
                let ghost added = pair@;
                writes.append(&mut pair);
                quotes.push(quote);
                proof {
                    assert(quote_views(quotes@) =~= quote_views(quotes_before).push(quote@));
                    assert(statement_views(writes@) =~= statement_views(writes_before)
                        + statement_views(added));
                }
            },
            _ => {
                proof {
                    lemma_fault_ends_pass(keyspace, all, i + 1);
                }
                return SeedingPass { quotes, writes, error: fault };
            },
        }
        i += 1;
    }
    proof {
        assert(all.take(rows.len() as int) =~= all);
    }
    SeedingPass { quotes, writes, error: None }
}

/// Seeds the corpus from the quote file `source`, unless the seeding flag
/// `is_data_saved` says that it is in the store already. The file holds one
/// record to a line after a header line, with the fields text, game, part
/// and chapter parted by semicolons. The records get the identifiers 0, 1, 2
/// and so on in their order, and each its two writes.
pub fn parse_quotes(max_payne: &MaxPayneBot, is_data_saved: &str, source: &[u8]) -> (pass:
    SeedingPass)
    ensures
        pass@ == seeding_of(max_payne.keyspace(), is_data_saved@, source@),
{
    if quotes_already_saved(is_data_saved) {
        let pass = SeedingPass { quotes: Vec::new(), writes: Vec::new(), error: None };
        proof {
            assert(quote_views(pass.quotes@) =~= Seq::empty());
            assert(statement_views(pass.writes@) =~= Seq::empty());
        }
        return pass;
    }
    let rows = read_records(source, FIELD_DELIMITER, true);
    seed_records(max_payne, &rows)
}

/// Under the flag that says that the corpus is in the store, a seeding pass
/// yields no quote and no write, whatever the quote file holds.
pub proof fn lemma_saved_flag_skips_seeding(keyspace: Seq<char>, source: Seq<u8>)
    ensures
        seeding_of(keyspace, QUOTES_SAVED@, source).quotes.len() == 0,
        seeding_of(keyspace, QUOTES_SAVED@, source).writes.len() == 0,
        seeding_of(keyspace, QUOTES_SAVED@, source).error.is_none(),
{
}

/// The quotes of a pass are the leading records of the source, in their
/// order, and the identifier of each is its place among them, counted from
/// 0. A pass without a fault has read every record; a pass with a fault
/// stopped at the first record that is at fault, and the fault is that
/// record's.
pub proof fn lemma_seeded_identifiers_are_sequential(
    keyspace: Seq<char>,
    rows: Seq<Option<Seq<Seq<char>>>>,
)
    ensures
        ({
            let pass = seeding_of_rows(keyspace, rows);
            let n = pass.quotes.len() as int;
            &&& n <= rows.len()
            &&& forall|i: int| 0 <= i < n ==> (#[trigger] pass.quotes[i]).id == i
            &&& forall|i: int|
                0 <= i < n ==> #[trigger] pass.quotes[i] == quote_of_fields(i, rows[i].unwrap())
            &&& forall|i: int| 0 <= i < n ==> (#[trigger] record_fault(i, i, rows[i])).is_none()
            &&& pass.error.is_none() ==> n == rows.len()
            &&& pass.error.is_some() ==> n < rows.len() && pass.error == record_fault(
                n,
                n,
                rows[n],
            )
        }),
    decreases rows.len(),
{
    if rows.len() > 0 {
        let earlier = rows.drop_last();
        lemma_seeded_identifiers_are_sequential(keyspace, earlier);
        let before = seeding_of_rows(keyspace, earlier);
        let pass = seeding_of_rows(keyspace, rows);
        let n = pass.quotes.len() as int;
        assert forall|i: int| 0 <= i < n implies (#[trigger] pass.quotes[i]).id == i
            && pass.quotes[i] == quote_of_fields(i, rows[i].unwrap()) by {
            if i < before.quotes.len() {
                assert(pass.quotes[i] == before.quotes[i]);
                assert(earlier[i] == rows[i]);
            }
        }
        assert forall|i: int| 0 <= i < n implies (#[trigger] record_fault(
            i,
            i,
            rows[i],
        )).is_none() by {
            if i < before.quotes.len() {
                assert(earlier[i] == rows[i]);
                assert(record_fault(i, i, earlier[i]).is_none());
            }
        }
        if before.error.is_some() {
            assert(earlier[before.quotes.len() as int] == rows[before.quotes.len() as int]);
        }
    }
}

/// The writes of a pass are the two writes of each of its quotes, in the
/// order of the quotes: under the identifier first, under the game second.
pub proof fn lemma_seeded_writes_follow_quotes(
    keyspace: Seq<char>,
    rows: Seq<Option<Seq<Seq<char>>>>,
)
    ensures
        ({
            let pass = seeding_of_rows(keyspace, rows);
            &&& pass.writes.len() == 2 * pass.quotes.len()
            &&& forall|i: int|
                0 <= i < pass.quotes.len() ==> {
                    &&& pass.writes[2 * i] == insert_quote_by_id(keyspace, #[trigger] pass.quotes[i])
                    &&& pass.writes[2 * i + 1] == insert_quote_by_game(keyspace, pass.quotes[i])
                }
        }),
    decreases rows.len(),
{
    if rows.len() > 0 {
        lemma_seeded_writes_follow_quotes(keyspace, rows.drop_last());
    }
}

} // verus!
