//! The selection of a text field, counted in characters, and its exchange with
//! a native control, which counts in UTF-16 code units.

use crate::utf16;
use crate::utf16::{char_index_for_utf16_offset, utf16_offset_for_char_index};
use vstd::prelude::*;

verus! {

/// A range of characters between two cursor positions.
#[derive(Clone, Copy, Debug, PartialEq, Eq, Structural)]
pub struct NativeTextSelection {
    pub start: usize,
    pub end: usize,
}

impl Default for NativeTextSelection {
    /// The cursor in front of the text.
    fn default() -> (selection: Self)
        ensures
            selection.start == 0,
            selection.end == 0,
    {
        NativeTextSelection { start: 0, end: 0 }
    }
}

impl NativeTextSelection {
    /// The start does not lie behind the end.
    pub open spec fn is_normalized(self) -> bool {
        self.start <= self.end
    }

    /// The same two positions, the lesser one first.
    pub open spec fn in_order(self) -> Self {
        if self.start <= self.end {
            self
        } else {
            NativeTextSelection { start: self.end, end: self.start }
        }
    }

    /// The selection with both ends moved back to the end of a text of `len`
    /// characters where they lie past it.
    pub open spec fn within(self, len: int) -> Self {
        NativeTextSelection {
            start: if self.start <= len {
                self.start
            } else {
                len as usize
            },
            end: if self.end <= len {
                self.end
            } else {
                len as usize
            },
        }
    }

    /// The empty selection at one position.
    pub open spec fn at(position: int) -> Self {
        NativeTextSelection { start: position as usize, end: position as usize }
    }

    /// The same two positions, the lesser one first.
    pub fn normalized(self) -> (selection: Self)
        ensures
            selection == self.in_order(),
            selection.is_normalized(),
    {
        if self.start <= self.end {
            self
        } else {
            NativeTextSelection { start: self.end, end: self.start }
        }
    }

    /// The cursor at one position, with nothing selected.
    pub fn caret(position: usize) -> (selection: Self)
        ensures
            selection == Self::at(position as int),
            selection.start == position,
            selection.end == position,
    {
        NativeTextSelection { start: position, end: position }
    }

    /// The selection moved back to the end of a text of `len` characters where
    /// it lies past it.
    pub fn clamped(self, len: usize) -> (selection: Self)
        ensures
            selection == self.within(len as int),
    {
        NativeTextSelection {
            start: if self.start <= len {
                self.start
            } else {
                len
            },
            end: if self.end <= len {
                self.end
            } else {
                len
            },
        }
    }
}

/// The selection that a native control reports by the UTF-16 offsets of its two
/// ends. A missing range, or an end in front of the text, reports none.
pub open spec fn proxy_selection(text: Seq<char>, offsets: Option<(isize, isize)>) -> Option<
    NativeTextSelection,
> {
    match offsets {
        Some((start, end)) => if start >= 0 && end >= 0 {
            Some(
                (NativeTextSelection {
                    start: utf16::char_index_at(text, start as int) as usize,
                    end: utf16::char_index_at(text, end as int) as usize,
                }).in_order(),
            )
        } else {
            None
        },
        None => None,
    }
}

/// The UTF-16 offsets, start first, by which a native control is told a
/// selection. There are none where an offset is too large for the control's
/// signed counter.
pub open spec fn proxy_offsets(text: Seq<char>, selection: NativeTextSelection) -> Option<
    (isize, isize),
> {
    let start = utf16::utf16_offset(text, selection.in_order().start as int);
    let end = utf16::utf16_offset(text, selection.in_order().end as int);
    if start <= isize::MAX && end <= isize::MAX {
        Some((start as isize, end as isize))
    } else {
        None
    }
}

/// The selection that a native control reports by the UTF-16 offsets of its two
/// ends.
pub fn native_proxy_selection(text: &str, offsets: Option<(isize, isize)>) -> (selection: Option<
    NativeTextSelection,
>)
    ensures
        selection == proxy_selection(text@, offsets),
        selection is Some ==> selection->0.is_normalized() && selection->0.end <= text@.len(),
{
    match offsets {
        Some((start, end)) => {
            if start < 0 || end < 0 {
                return None;
            }
            let selection = NativeTextSelection {
                start: char_index_for_utf16_offset(text, start as usize),
                end: char_index_for_utf16_offset(text, end as usize),
            };
            Some(selection.normalized())
        },
        None => None,
    }
}

/// The UTF-16 offsets by which a native control is told a selection.
pub fn native_proxy_offsets(text: &str, selection: NativeTextSelection) -> (offsets: Option<
    (isize, isize),
>)
    ensures
        offsets == proxy_offsets(text@, selection),
{
    let selection = selection.normalized();
    let start: usize = utf16_offset_for_char_index(text, selection.start);
    let end: usize = utf16_offset_for_char_index(text, selection.end);
    if start <= isize::MAX as usize && end <= isize::MAX as usize {
        Some((start as isize, end as isize))
    } else {
        None
    }
}

/// Normalizing keeps the two positions, orders them, the lesser one first, and
/// changes nothing the second time.
pub proof fn law_normalizing_orders_the_ends(selection: NativeTextSelection)
    ensures
        selection.in_order().start <= selection.in_order().end,
        selection.in_order().start <= selection.start <= selection.in_order().end,
        selection.in_order().start <= selection.end <= selection.in_order().end,
        selection.is_normalized() <==> selection.start <= selection.end,
        selection.in_order().is_normalized(),
        selection.in_order().in_order() == selection.in_order(),
        selection.is_normalized() ==> selection.in_order() == selection,
        selection.in_order() == (NativeTextSelection {
            start: selection.end,
            end: selection.start,
        }).in_order(),
        selection.in_order().start == selection.start || selection.in_order().start
            == selection.end,
        selection.in_order().start + selection.in_order().end == selection.start + selection.end,
{
}

/// A selection that a native control was told is the one that it reports, in
/// order and within the text.
pub proof fn law_selection_round_trips(text: Seq<char>, selection: NativeTextSelection)
    requires
        text.len() <= usize::MAX,
        proxy_offsets(text, selection) is Some,
    ensures
        proxy_selection(text, proxy_offsets(text, selection)) == Some(
            selection.in_order().within(text.len() as int),
        ),
{
    let ordered = selection.in_order();
    utf16::law_char_index_round_trips(text, ordered.start as int);
    utf16::law_char_index_round_trips(text, ordered.end as int);
}

/// A selection that reaches past a text is moved back to its end, and no end of
/// it moves otherwise. An empty selection has both ends at its position.
pub proof fn law_ends_move_no_further_than_needed(selection: NativeTextSelection, len: usize)
    ensures
        selection.start <= len ==> selection.within(len as int).start == selection.start,
        selection.start >= len ==> selection.within(len as int).start == len,
        selection.end <= len ==> selection.within(len as int).end == selection.end,
        selection.end >= len ==> selection.within(len as int).end == len,
        NativeTextSelection::at(len as int).start == len,
        NativeTextSelection::at(len as int).end == len,
{
}

/// A native control is told a selection by the numbers of UTF-16 code units in
/// front of its two ends, the lesser one first; an end past the text counts as
/// its end. It is told unless such a number is too large for it to count.
pub proof fn law_control_is_told_code_units(text: Seq<char>, start: usize, end: usize)
    requires
        start <= end,
    ensures
        ({
            let first = utf16::encode_utf16(
                if start <= text.len() {
                    text.take(start as int)
                } else {
                    text
                },
            ).len();
            let last = utf16::encode_utf16(
                if end <= text.len() {
                    text.take(end as int)
                } else {
                    text
                },
            ).len();
            let told = proxy_offsets(text, NativeTextSelection { start, end });
            &&& first <= last
            &&& told is Some <==> last <= isize::MAX
            &&& told is Some ==> told == Some((first as isize, last as isize))
            &&& proxy_offsets(text, NativeTextSelection { start: end, end: start }) == told
        }),
{
    utf16::law_offset_counts_code_units(text, start as int);
    utf16::law_offset_counts_code_units(text, end as int);
    utf16::law_conversions_keep_order(text, start as int, end as int);
}

/// A native control that reports the numbers of UTF-16 code units in front of two
/// characters reports the selection between those two, from whichever end it
/// counts. One that reports no range, or a position in front of the text, reports
/// none.
pub proof fn law_control_reports_code_units(
    text: Seq<char>,
    first: int,
    last: int,
    start: isize,
    end: isize,
)
    requires
        0 <= first <= last <= text.len() <= usize::MAX,
        start == utf16::encode_utf16(text.take(first)).len(),
        end == utf16::encode_utf16(text.take(last)).len(),
    ensures
        ({
            let reported = proxy_selection(text, Some((start, end)));
            &&& reported is Some
            &&& reported->0.start == first
            &&& reported->0.end == last
            &&& proxy_selection(text, Some((end, start))) == reported
        }),
{
    utf16::law_offset_counts_code_units(text, first);
    utf16::law_offset_counts_code_units(text, last);
    utf16::law_char_index_round_trips(text, first);
    utf16::law_char_index_round_trips(text, last);
}

/// Whatever offsets a native control reports, each stands for the character index
/// that it stands for in the text, and the lesser index comes first. There is no
/// selection exactly where there is no range, or where an end of it lies in front
/// of the text.
pub proof fn law_reported_ends_are_converted(text: Seq<char>, start: isize, end: isize)
    requires
        text.len() <= usize::MAX,
    ensures
        proxy_selection(text, None) is None,
        proxy_selection(text, Some((start, end))) is Some <==> start >= 0 && end >= 0,
        start >= 0 && end >= 0 ==> ({
            let a = utf16::char_index_at(text, start as int);
            let b = utf16::char_index_at(text, end as int);
            let reported = proxy_selection(text, Some((start, end)))->0;
            &&& reported.start <= reported.end <= text.len()
            &&& (reported.start == a && reported.end == b) || (reported.start == b && reported.end
                == a)
        }),
{
    if start >= 0 && end >= 0 {
        utf16::law_utf16_offset_round_trips(text, start as int);
        utf16::law_utf16_offset_round_trips(text, end as int);
    }
}

/// A selection that is told to a native control is what the control reports when
/// it tells the same offsets back, whichever way round the selection was: in
/// order, and within the text.
pub proof fn law_told_selection_is_reported(
    text: &str,
    selection: NativeTextSelection,
    told: Option<(isize, isize)>,
    reported: Option<NativeTextSelection>,
    ordered: NativeTextSelection,
)
    requires
        text@.len() <= usize::MAX,
        call_ensures(native_proxy_offsets, (text, selection), told),
        call_ensures(native_proxy_selection, (text, told), reported),
        call_ensures(NativeTextSelection::normalized, (selection,), ordered),
        told is Some,
    ensures
        ordered.start <= ordered.end,
        (ordered.start == selection.start && ordered.end == selection.end) || (ordered.start
            == selection.end && ordered.end == selection.start),
        reported matches Some(reported) && {
            &&& ordered.start <= text@.len() ==> reported.start == ordered.start
            &&& ordered.start > text@.len() ==> reported.start == text@.len()
            &&& ordered.end <= text@.len() ==> reported.end == ordered.end
            &&& ordered.end > text@.len() ==> reported.end == text@.len()
        },
{
    law_selection_round_trips(text@, selection);
    law_normalizing_orders_the_ends(selection);
}

} // verus!
