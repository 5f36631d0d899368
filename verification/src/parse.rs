//! Extraction of holiday records from a stored document. The selector walk
//! over the document tree is an outside call; everything after it — the
//! per-field defaults, the trimming, and the dropping of rows without an
//! event label — is verified here.

use vstd::prelude::*;

use scraper::{Html, Selector};

use crate::holiday::{Holiday, HolidayView, RawRow, RawRowView};
use crate::text::{strip_parens, strip_parens_spec, trim, trim_spec};

verus! {

/// What the selector walk yields on a document text: one entry per
/// holiday-group row, in document order. The walk is a pure function of the
/// text, so its result carries a name rather than a definition.
pub uninterp spec fn raw_rows_of(html: Seq<char>) -> Seq<RawRowView>;

/// Relies on scraper: `Html::parse_document` builds a tree from the text
/// alone and `select` walks it in document order, so the rows returned are a
/// function of `html` alone. For each `tr.holiday-group` row it takes the
/// text of the row's first `.holiday-what` element, the `title` attribute of
/// the row's first `.holidate abbr` element, and the text of the row's first
/// `.dayname` element; `None` where the row has no such element.
#[verifier::external_body]
pub(crate) fn extract_raw_rows(html: &str) -> (rows: Vec<RawRow>)
    ensures
        rows.deep_view() == raw_rows_of(html@),
{
    let doc = Html::parse_document(html);
    let row_sel = Selector::parse("tr.holiday-group").unwrap();
    let event_sel = Selector::parse(".holiday-what").unwrap();
    let date_sel = Selector::parse(".holidate abbr").unwrap();
    let day_sel = Selector::parse(".dayname").unwrap();
    doc.select(&row_sel).map(|row| RawRow {
        event: row.select(&event_sel).next().map(|e| e.text().collect()),
        date: row.select(&date_sel).next().and_then(|e| e.attr("title")).map(String::from),
        day: row.select(&day_sel).next().map(|e| e.text().collect()),
    }).collect()
}

/// The text of an optional node: empty where the node is absent.
pub open spec fn opt_text(o: Option<Seq<char>>) -> Seq<char> {
    match o {
        Some(s) => s,
        None => Seq::empty(),
    }
}

/// The record one row yields: the event text trimmed, the date attribute as
/// it stands, and the day text trimmed and with parentheses removed.
pub open spec fn record_of_row(row: RawRowView) -> HolidayView {
    HolidayView {
        event: trim_spec(opt_text(row.event)),
        date: opt_text(row.date),
        day: strip_parens_spec(trim_spec(opt_text(row.day))),
    }
}

/// Whether a row names an event once trimmed; rows that do not (header and
/// spacer rows) yield no record.
pub open spec fn row_has_event(row: RawRowView) -> bool {
    trim_spec(opt_text(row.event)).len() > 0
}

/// The records a row sequence yields, in row order: one record per row that
/// names an event, rows without one skipped.
pub open spec fn records_of(rows: Seq<RawRowView>) -> Seq<HolidayView>
    decreases rows.len(),
{
    if rows.len() == 0 {
        Seq::empty()
    } else if row_has_event(rows.last()) {
        records_of(rows.drop_last()).push(record_of_row(rows.last()))
    } else {
        records_of(rows.drop_last())
    }
}

/// What a document text parses to.
pub open spec fn parsed_records(html: Seq<char>) -> Seq<HolidayView> {
    records_of(raw_rows_of(html))
}

fn opt_str(o: &Option<String>) -> (r: &str)
    ensures
        r@ == opt_text(o.deep_view()),
{
    match o {
        Some(s) => s.as_str(),
        None => {
            proof {
                reveal_strlit("");
                assert(""@ =~= Seq::<char>::empty());
            }
            ""
        },
    }
}

/// Applies the per-field defaults to extracted rows: every row that names an
/// event yields a record, in row order; the others are dropped.
pub fn rows_to_holidays(rows: &Vec<RawRow>) -> (r: Vec<Holiday>)
    ensures
        r.deep_view() == records_of(rows.deep_view()),
{
    let mut out: Vec<Holiday> = Vec::new();
    let mut i: usize = 0;
    while i < rows.len()
        invariant
            i <= rows@.len(),
            out.deep_view() == records_of(rows.deep_view().take(i as int)),
        decreases rows@.len() - i,
    {
        let row = &rows[i];
        let event = trim(opt_str(&row.event));
        let date = match &row.date {
            Some(s) => s.clone(),
            None => String::new(),
        };
        let day_trimmed = trim(opt_str(&row.day));
        let day = strip_parens(day_trimmed.as_str());
        proof {
            assert(rows.deep_view().take(i + 1).drop_last() =~= rows.deep_view().take(i as int));
            assert(rows.deep_view().take(i + 1).last() == rows.deep_view()[i as int]);
            assert(rows.deep_view()[i as int] == rows@[i as int].deep_view());
        }
        if event.unicode_len() > 0 {
            let h = Holiday { event, date, day };
            proof {
                assert(h.deep_view() == record_of_row(rows.deep_view()[i as int]));
            }
            out.push(h);
            proof {
                assert(out.deep_view() =~= records_of(rows.deep_view().take(i + 1)));
            }
        } else {
            proof {
                assert(out.deep_view() =~= records_of(rows.deep_view().take(i + 1)));
            }
        }
        i = i + 1;
    }
    proof {
        assert(rows.deep_view().take(rows@.len() as int) =~= rows.deep_view());
    }
    out
}

/// Parsing the same text twice yields identical record sequences: what a
/// document parses to is a function of the text alone.
pub proof fn lemma_parse_deterministic(a: Seq<char>, b: Seq<char>)
    requires
        a == b,
    ensures
        parsed_records(a) == parsed_records(b),
{
}

/// A row that names no event yields no record: appending such a row to any
/// row sequence leaves the extracted records unchanged.
pub proof fn lemma_row_without_event_omitted(rows: Seq<RawRowView>, row: RawRowView)
    requires
        !row_has_event(row),
    ensures
        records_of(rows.push(row)) == records_of(rows),
{
    assert(rows.push(row).drop_last() =~= rows);
    assert(rows.push(row).last() == row);
}

/// A row that names an event but has no date node yields a record whose date
/// is the empty string, appended in row order.
pub proof fn lemma_row_without_date_defaults_empty(rows: Seq<RawRowView>, row: RawRowView)
    requires
        row_has_event(row),
        row.date is None,
    ensures
        records_of(rows.push(row)) == records_of(rows).push(record_of_row(row)),
        record_of_row(row).date == Seq::<char>::empty(),
{
    assert(rows.push(row).drop_last() =~= rows);
    assert(rows.push(row).last() == row);
}

} // verus!
