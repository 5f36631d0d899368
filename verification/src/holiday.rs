//! The record a stored document is parsed into, and the raw shape of one
//! table row as the selectors hand it over, before defaults are applied.

use vstd::prelude::*;

verus! {

/// One holiday entry: the event name, the machine-readable date text, and
/// the weekday name. Order of records is document order.
#[derive(Clone, Debug)]
pub struct Holiday {
    pub event: String,
    pub date: String,
    pub day: String,
}

/// The mathematical value of a [`Holiday`]: its three texts.
pub ghost struct HolidayView {
    pub event: Seq<char>,
    pub date: Seq<char>,
    pub day: Seq<char>,
}

impl View for Holiday {
    type V = HolidayView;

    open spec fn view(&self) -> HolidayView {
        HolidayView { event: self.event@, date: self.date@, day: self.day@ }
    }
}

impl DeepView for Holiday {
    type V = HolidayView;

    open spec fn deep_view(&self) -> HolidayView {
        self.view()
    }
}

/// What the selectors yield for one holiday-group row: the text of the first
/// event-label node, the date attribute of the first date node, and the text
/// of the first day-name node; `None` where a row has no such node.
#[derive(Clone, Debug)]
pub struct RawRow {
    pub event: Option<String>,
    pub date: Option<String>,
    pub day: Option<String>,
}

/// The mathematical value of a [`RawRow`].
pub ghost struct RawRowView {
    pub event: Option<Seq<char>>,
    pub date: Option<Seq<char>>,
    pub day: Option<Seq<char>>,
}

impl View for RawRow {
    type V = RawRowView;

    open spec fn view(&self) -> RawRowView {
        RawRowView {
            event: self.event.deep_view(),
            date: self.date.deep_view(),
            day: self.day.deep_view(),
        }
    }
}

impl DeepView for RawRow {
    type V = RawRowView;

    open spec fn deep_view(&self) -> RawRowView {
        self.view()
    }
}

} // verus!
