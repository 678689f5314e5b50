//! The cursor and the viewport over a list of which only one window is loaded.
//!
//! A [`Window`] is plain data. What the prompt does to it is written here as
//! functions from one window to the next, and the laws of those functions are
//! proved beside them.

use vstd::prelude::*;
use vstd::arithmetic::div_mod::{lemma_fundamental_div_mod, lemma_fundamental_div_mod_converse};

verus! {

/// `a - b` where that is not negative, and zero elsewhere.
pub open spec fn floor_sub(a: int, b: int) -> int {
    if a >= b {
        a - b
    } else {
        0
    }
}

/// The smaller of two numbers.
pub open spec fn lesser(a: int, b: int) -> int {
    if a <= b {
        a
    } else {
        b
    }
}

/// The larger of two numbers.
pub open spec fn greater(a: int, b: int) -> int {
    if a >= b {
        a
    } else {
        b
    }
}

/// Which part of the list is loaded, and which item is highlighted.
#[derive(Copy, Clone, Debug, PartialEq, Eq, Structural)]
pub struct Window {
    /// Index in the list of the first loaded item.
    pub offset: usize,
    /// How many items are asked for in one fetch.
    pub window_length: usize,
    /// How many items the list has under the current filter, as last reported.
    pub total_length: usize,
    /// Index in the list of the highlighted item.
    pub cursor_index: usize,
}

impl Window {
    /// The window that a prompt starts with: nothing is known of the list yet,
    /// and the viewport begins at the cursor.
    pub open spec fn starting(starting_cursor: usize, window_length: usize) -> Window {
        Window {
            offset: starting_cursor,
            window_length,
            total_length: 0,
            cursor_index: starting_cursor,
        }
    }

    /// The windows that a prompt can be in: in a list that is not empty the
    /// cursor is on an item, and the cursor is inside the viewport.
    pub open spec fn wf(self) -> bool {
        &&& self.total_length > 0 ==> self.cursor_index < self.total_length
        &&& self.offset <= self.cursor_index <= self.offset + self.window_length
        &&& self.window_length > 0 ==> self.cursor_index < self.offset + self.window_length
    }

    /// Whether the viewport begins at or before the cursor. Every window that
    /// comes of putting the cursor somewhere is like that, whether or not the
    /// list reaches the cursor.
    pub open spec fn anchored(self) -> bool {
        self.offset <= self.cursor_index
    }

    /// Whether the cursor may be put on `index`: an item of the list, or zero
    /// while the list is empty.
    pub open spec fn admits(self, index: usize) -> bool {
        index <= floor_sub(self.total_length as int, 1)
    }

    /// The offset that goes with a cursor: the least of the cursor itself,
    /// the last offset from which a full window still fits in the list, and
    /// the index half a window before the cursor. So the viewport never
    /// begins after the cursor, never runs past the end of a list that fills
    /// it, and keeps the cursor near its middle where the list allows.
    pub open spec fn derived_offset(cursor: int, total: int, length: int) -> int {
        lesser(lesser(cursor, floor_sub(total, length)), floor_sub(cursor, length / 2))
    }

    /// The window with the cursor put on `new_index`. Where that is where the
    /// cursor is already, nothing changes; elsewhere the offset follows.
    pub open spec fn with_cursor(self, new_index: usize) -> Window {
        if new_index == self.cursor_index {
            self
        } else {
            Window {
                offset: Self::derived_offset(
                    new_index as int,
                    self.total_length as int,
                    self.window_length as int,
                ) as usize,
                cursor_index: new_index,
                ..self
            }
        }
    }

    /// The index `quantity` items above the cursor, going round from the first
    /// item to the last.
    pub open spec fn index_above(self, quantity: usize) -> int {
        (self.cursor_index - quantity) % (self.total_length as int)
    }

    /// The index `quantity` items below the cursor, going round from the last
    /// item to the first.
    pub open spec fn index_below(self, quantity: usize) -> int {
        (self.cursor_index + quantity) % (self.total_length as int)
    }

    /// The window after the cursor has gone up by `quantity`. An empty list
    /// has nowhere to go.
    pub open spec fn moved_up(self, quantity: usize) -> Window {
        if self.total_length == 0 {
            self
        } else {
            self.with_cursor(self.index_above(quantity) as usize)
        }
    }

    /// The window after the cursor has gone down by `quantity`. An empty list
    /// has nowhere to go.
    pub open spec fn moved_down(self, quantity: usize) -> Window {
        if self.total_length == 0 {
            self
        } else {
            self.with_cursor(self.index_below(quantity) as usize)
        }
    }

    /// The window after the cursor has gone to the first item.
    pub open spec fn moved_to_start(self) -> Window {
        if self.total_length == 0 {
            self
        } else {
            self.with_cursor(0)
        }
    }

    /// The window after the cursor has gone to the last item.
    pub open spec fn moved_to_end(self) -> Window {
        if self.total_length == 0 {
            self
        } else {
            self.with_cursor((self.total_length - 1) as usize)
        }
    }

    /// The cursor brought into the viewport: not before the offset, and
    /// before the index one window length after it. In a window of no length
    /// that is the offset itself.
    pub open spec fn cursor_in_view(self) -> int {
        greater(
            self.offset as int,
            lesser(self.cursor_index as int, self.offset + self.window_length - 1),
        )
    }

    /// Where the cursor belongs once the list has `total` items: brought into
    /// the viewport first, and then into the list, so on the last item where
    /// the list ends before that, or on zero in an empty list. Where the
    /// viewport and the list overlap this is the index of the overlap that is
    /// nearest to the cursor; where the list ends before the offset it lies in
    /// the list and not in the viewport.
    pub open spec fn clamped_cursor(self, total: usize) -> int {
        lesser(self.cursor_in_view(), floor_sub(total as int, 1))
    }

    /// The window after a fetch has reported `total` items: the total is
    /// taken over and the cursor is brought back into the viewport and the
    /// list. Where that moves the cursor, the offset follows it.
    pub open spec fn refreshed(self, total: usize) -> Window {
        (Window { total_length: total, ..self }).with_cursor(self.clamped_cursor(total) as usize)
    }

    /// Distance from the offset to the cursor, which is the position of the
    /// highlighted item among the loaded ones where the cursor is not before
    /// the offset; zero where it is.
    pub open spec fn fetched_index(self) -> int {
        floor_sub(self.cursor_index as int, self.offset as int)
    }

    /// Whether the viewport begins at the start of the list.
    pub open spec fn at_first_page(self) -> bool {
        self.offset == 0
    }

    /// Whether the viewport reaches the end of the list.
    pub open spec fn at_last_page(self) -> bool {
        self.offset + self.window_length >= self.total_length
    }

    /// Whether `count` loaded items fit this window: no more than were asked
    /// for, and none beyond the end of the list.
    pub open spec fn fits(self, count: nat) -> bool {
        &&& count <= self.window_length
        &&& count <= floor_sub(self.total_length as int, self.offset as int)
    }
}

/// Going down by `quantity` from `cursor` in a list of `total` items, with
/// the quantity reduced to less than one full turn first.
pub proof fn lemma_index_below(cursor: int, quantity: int, total: int)
    requires
        0 <= cursor < total,
        0 <= quantity,
    ensures
        0 <= quantity % total < total,
        (cursor + quantity) % total == if cursor + quantity % total < total {
            cursor + quantity % total
        } else {
            cursor + quantity % total - total
        },
{
    let turns = quantity / total;
    let rest = quantity % total;
    lemma_fundamental_div_mod(quantity, total);
    if cursor + rest < total {
        lemma_fundamental_div_mod_converse(cursor + quantity, total, turns, cursor + rest);
    } else {
        assert((turns + 1) * total == total * turns + total) by (nonlinear_arith);
        lemma_fundamental_div_mod_converse(
            cursor + quantity,
            total,
            turns + 1,
            cursor + rest - total,
        );
    }
}

/// Going up by `quantity` from `cursor` in a list of `total` items, with the
/// quantity reduced to less than one full turn first.
pub proof fn lemma_index_above(cursor: int, quantity: int, total: int)
    requires
        0 <= cursor < total,
        0 <= quantity,
    ensures
        0 <= quantity % total < total,
        (cursor - quantity) % total == if quantity % total <= cursor {
            cursor - quantity % total
        } else {
            cursor + total - quantity % total
        },
{
    let turns = quantity / total;
    let rest = quantity % total;
    lemma_fundamental_div_mod(quantity, total);
    if rest <= cursor {
        assert((-turns) * total == -(total * turns)) by (nonlinear_arith);
        lemma_fundamental_div_mod_converse(cursor - quantity, total, -turns, cursor - rest);
    } else {
        assert((-turns - 1) * total == -(total * turns) - total) by (nonlinear_arith);
        lemma_fundamental_div_mod_converse(
            cursor - quantity,
            total,
            -turns - 1,
            cursor + total - rest,
        );
    }
}

impl Window {
    /// A prompt starts in a valid window, wherever its cursor starts.
    pub proof fn starting_is_wf(starting_cursor: usize, window_length: usize)
        ensures
            Self::starting(starting_cursor, window_length).wf(),
    {
    }

    /// The offset that goes with a cursor is an index again. It is at most
    /// the cursor, at most the last offset from which a full window fits, and
    /// at least half a window before the cursor where there is that much
    /// before it.
    pub proof fn derived_offset_bounds(cursor: usize, total: usize, length: usize)
        ensures
            0 <= Self::derived_offset(cursor as int, total as int, length as int) <= cursor,
            Self::derived_offset(cursor as int, total as int, length as int) <= floor_sub(
                total as int,
                length as int,
            ),
            Self::derived_offset(cursor as int, total as int, length as int) <= floor_sub(
                cursor as int,
                length as int / 2,
            ),
    {
    }

    /// Putting the cursor on an index that the window admits leaves a valid
    /// window.
    pub proof fn with_cursor_is_wf(self, new_index: usize)
        requires
            self.wf(),
            self.admits(new_index),
        ensures
            self.with_cursor(new_index).wf(),
    {
    }

    /// Moving the cursor up leaves a valid window, and in a list that is not
    /// empty the cursor lands on the index `quantity` above, going round.
    pub proof fn moved_up_is_wf(self, quantity: usize)
        requires
            self.wf(),
        ensures
            self.moved_up(quantity).wf(),
            self.total_length > 0 ==> self.moved_up(quantity).cursor_index == self.index_above(
                quantity,
            ),
            self.total_length > 0 ==> 0 <= self.index_above(quantity) < self.total_length,
    {
        if self.total_length > 0 {
            lemma_index_above(
                self.cursor_index as int,
                quantity as int,
                self.total_length as int,
            );
        }
    }

    /// Moving the cursor down leaves a valid window, and in a list that is not
    /// empty the cursor lands on the index `quantity` below, going round.
    pub proof fn moved_down_is_wf(self, quantity: usize)
        requires
            self.wf(),
        ensures
            self.moved_down(quantity).wf(),
            self.total_length > 0 ==> self.moved_down(quantity).cursor_index == self.index_below(
                quantity,
            ),
            self.total_length > 0 ==> 0 <= self.index_below(quantity) < self.total_length,
    {
        if self.total_length > 0 {
            lemma_index_below(
                self.cursor_index as int,
                quantity as int,
                self.total_length as int,
            );
        }
    }

    /// Jumping to either end of the list leaves a valid window.
    pub proof fn moved_to_ends_is_wf(self)
        requires
            self.wf(),
        ensures
            self.moved_to_start().wf(),
            self.moved_to_end().wf(),
    {
    }

    /// A valid window begins at or before its cursor, and so does every
    /// window after the cursor has been put somewhere, valid or not.
    pub proof fn anchored_is_kept(self, new_index: usize)
        ensures
            self.wf() ==> self.anchored(),
            self.anchored() ==> self.with_cursor(new_index).anchored(),
    {
    }

    /// Whatever total a fetch reports, the refreshed window is valid, as long
    /// as the viewport began at or before the cursor. So a cursor that was put
    /// beyond the list is back on an item after the next fetch.
    pub proof fn refreshed_is_wf(self, total: usize)
        requires
            self.anchored(),
        ensures
            self.refreshed(total).wf(),
            self.refreshed(total).total_length == total,
            self.refreshed(total).window_length == self.window_length,
    {
    }

    /// In a valid window over a list that is not empty, the cursor is on an
    /// item, and where the window has any length the viewport reaches the
    /// cursor.
    pub proof fn cursor_is_in_view(self)
        requires
            self.wf(),
            self.total_length > 0,
            self.window_length > 0,
        ensures
            0 <= self.cursor_index < self.total_length,
            0 <= self.offset,
            self.offset + self.window_length >= lesser(
                self.cursor_index + 1,
                self.total_length as int,
            ),
    {
    }

    /// Moving down by the length of the whole list brings the cursor back to
    /// where it was, and leaves the window as it was. The same holds upwards.
    pub proof fn full_turn_returns(self)
        requires
            self.wf(),
            self.total_length > 0,
        ensures
            self.moved_down(self.total_length) == self,
            self.moved_up(self.total_length) == self,
    {
        lemma_index_below(
            self.cursor_index as int,
            self.total_length as int,
            self.total_length as int,
        );
        lemma_index_above(
            self.cursor_index as int,
            self.total_length as int,
            self.total_length as int,
        );
        lemma_fundamental_div_mod_converse(
            self.total_length as int,
            self.total_length as int,
            1,
            0,
        );
    }

    /// Putting the cursor where it already is changes nothing.
    pub proof fn with_cursor_same_is_noop(self)
        ensures
            self.with_cursor(self.cursor_index) == self,
    {
    }

    /// When a fetch reports a list that ends at or before the cursor, the
    /// cursor goes to the last item of that list, or to zero where the list is
    /// empty. When the list still holds the cursor, the cursor stays.
    pub proof fn refreshed_clamps_cursor(self, total: usize)
        requires
            self.wf(),
        ensures
            0 < total <= self.cursor_index ==> self.refreshed(total).cursor_index == total - 1,
            total == 0 ==> self.refreshed(total).cursor_index == 0,
            self.cursor_index < total ==> self.refreshed(total) == (Window {
                total_length: total,
                ..self
            }),
    {
    }

    /// Where the viewport and the list overlap, the cursor that a refresh
    /// settles on lies in both, and is the index of the overlap nearest to
    /// where the cursor was: the cursor itself if it lies in the overlap, the
    /// offset if the cursor was before it, and the last index of the overlap
    /// if the cursor was beyond it.
    pub proof fn clamped_cursor_in_both(self, total: usize)
        requires
            self.window_length > 0,
            self.offset < total,
        ensures
            self.offset <= self.clamped_cursor(total) < self.offset + self.window_length,
            0 <= self.clamped_cursor(total) <= total - 1,
            self.clamped_cursor(total) == greater(
                self.offset as int,
                lesser(
                    self.cursor_index as int,
                    lesser(self.offset + self.window_length - 1, total - 1),
                ),
            ),
    {
    }

    /// In a valid window the cursor is inside the viewport already, so a
    /// refresh has only to bring it into the list.
    pub proof fn clamped_cursor_of_wf(self, total: usize)
        requires
            self.wf(),
        ensures
            self.cursor_in_view() == self.cursor_index,
            self.clamped_cursor(total) == lesser(
                self.cursor_index as int,
                floor_sub(total as int, 1),
            ),
    {
    }

    /// Loaded items that fit a window still fit it after the cursor is put
    /// elsewhere.
    pub proof fn with_cursor_keeps_fit(self, new_index: usize, count: nat)
        requires
            self.fits(count),
        ensures
            self.with_cursor(new_index).fits(count),
    {
    }

    /// Items that were fetched at this window's offset, within what was asked
    /// for and within the list that the fetch reports, fit the refreshed
    /// window.
    pub proof fn refreshed_fits(self, total: usize, count: nat)
        requires
            (Window { total_length: total, ..self }).fits(count),
        ensures
            self.refreshed(total).fits(count),
    {
    }
}

} // verus!
