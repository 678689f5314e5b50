//! The select prompt: a cursor over a list of which only the visible window
//! is ever loaded.

use vstd::prelude::*;
use crate::action::CustomSelectPromptAction;
use crate::config::{CustomSelect, CustomSelectConfig};
use crate::error::InquireResult;
use crate::input::{InputActionResult, TextInput};
use crate::list_option::{ListOption, Page};
use crate::result::ActionResult;
use crate::window::{floor_sub, lemma_index_above, lemma_index_below, Window};

verus! {

/// The source of the options of a select prompt.
///
/// The list is never handed over whole. A fetch names the filter text, the
/// index at which the window begins and the number of options wanted, and
/// gets back the options of that window together with the length of the whole
/// filtered list.
pub trait OptionFetcher<T> {
    /// The options of the list filtered by `input`, from index `offset` on,
    /// and the number of options in that whole list. At most `amount` options
    /// come back, and none from beyond the end of the list.
    fn fetch(&self, input: &str, offset: usize, amount: usize) -> (fetched: (Vec<T>, usize))
        ensures
            fetched.0@.len() <= amount,
            fetched.0@.len() <= floor_sub(fetched.1 as int, offset as int),
    ;
}

/// What a select prompt is, for the purpose of saying what its operations do.
pub ghost struct PromptView<T, I> {
    /// The question shown above the filter.
    pub message: Seq<char>,
    /// The hint shown below the options, if any.
    pub help_message: Option<Seq<char>>,
    /// The settings of the prompt.
    pub config: CustomSelectConfig,
    /// The cursor and the viewport.
    pub window: Window,
    /// The options that were fetched last, in order.
    pub options: Seq<T>,
    /// The text input that holds the filter.
    pub input: I,
}

impl<T, I> PromptView<T, I> {
    /// The states that a prompt can be in: the window is valid, it is as long
    /// as the page size says, and the loaded options fit it.
    pub open spec fn wf(self) -> bool {
        &&& self.window.wf()
        &&& self.window.window_length == self.config.page_size
        &&& self.window.fits(self.options.len())
    }

    /// What every prompt is, whatever has been done to it: the viewport is as
    /// long as the page size says and begins at or before the cursor. The
    /// cursor itself may have been put beyond the viewport or beyond the list;
    /// the next fetch brings it back.
    pub open spec fn anchored(self) -> bool {
        &&& self.window.anchored()
        &&& self.window.window_length == self.config.page_size
    }

    /// Whether the cursor is on one of the loaded options: it is not before
    /// the offset, and its distance from the offset is the position of a
    /// loaded option.
    pub open spec fn has_highlighted(self) -> bool {
        &&& self.window.offset <= self.window.cursor_index
        &&& self.window.cursor_index - self.window.offset < self.options.len()
    }

    /// The highlighted option with its index in the list. It means something
    /// only where the cursor is on a loaded option.
    pub open spec fn highlighted(self) -> ListOption<T> {
        ListOption {
            index: self.window.cursor_index,
            value: self.options[self.window.fetched_index()],
        }
    }

    /// The loaded options once the highlighted one has been taken out: the
    /// last option stands in its place, and the rest are where they were.
    pub open spec fn options_without_highlighted(self) -> Seq<T> {
        self.options.update(self.window.fetched_index(), self.options.last()).drop_last()
    }

    /// Whether this is what `before` becomes by a fetch: the options are
    /// replaced by what the fetch handed back for the window of `before`, the
    /// total is the one it reported, and the cursor is back inside the list.
    /// Nothing else changes.
    pub open spec fn refetched_from(self, before: Self) -> bool {
        &&& (Window { total_length: self.window.total_length, ..before.window }).fits(
            self.options.len(),
        )
        &&& self == (PromptView {
            window: before.window.refreshed(self.window.total_length),
            options: self.options,
            ..before
        })
    }

    /// Whether this is what `before` becomes once its text input has
    /// reported `report` for an edit: fetched again where the text changed,
    /// and left as it is elsewhere.
    pub open spec fn followed_up(self, before: Self, report: InputActionResult) -> bool {
        if report == InputActionResult::ContentChanged {
            self.refetched_from(before)
        } else {
            self == before
        }
    }

    /// While the list is empty no option is loaded, so the cursor is on none
    /// and there is no answer to give.
    pub proof fn empty_list_has_no_answer(self)
        requires
            self.wf(),
            self.window.total_length == 0,
        ensures
            self.options.len() == 0,
            !self.has_highlighted(),
    {
    }

    /// A fetch leaves a prompt valid, whatever the source hands back within
    /// what it may, and makes it valid where the cursor had been put beyond
    /// the viewport or the list. Where the prompt was valid and the list now
    /// ends at or before the cursor, the cursor is on the last option
    /// afterwards; where the list is empty, the cursor is on none.
    pub proof fn refetched_is_wf(self, before: Self)
        requires
            before.anchored(),
            self.refetched_from(before),
        ensures
            self.wf(),
            before.wf() && 0 < self.window.total_length <= before.window.cursor_index
                ==> self.window.cursor_index == self.window.total_length - 1,
            self.window.total_length == 0 ==> !self.has_highlighted(),
    {
        before.window.refreshed_is_wf(self.window.total_length);
        before.window.refreshed_fits(self.window.total_length, self.options.len());
    }

    /// A valid prompt is anchored.
    pub proof fn wf_is_anchored(self)
        requires
            self.wf(),
        ensures
            self.anchored(),
    {
    }
}

/// What moving the cursor means for the screen: a redraw where the window is
/// no longer what it was, nothing elsewhere.
pub open spec fn redraw_between(before: Window, after: Window) -> ActionResult {
    if before == after {
        ActionResult::Clean
    } else {
        ActionResult::NeedsRedraw
    }
}

/// Where an action that moves the cursor takes a window: up or down by one
/// option or by one window length, going round, or to either end of the list.
/// An edit of the filter text moves nothing.
pub open spec fn moved_by(window: Window, action: CustomSelectPromptAction) -> Window {
    match action {
        CustomSelectPromptAction::MoveUp => window.moved_up(1),
        CustomSelectPromptAction::MoveDown => window.moved_down(1),
        CustomSelectPromptAction::PageUp => window.moved_up(window.window_length),
        CustomSelectPromptAction::PageDown => window.moved_down(window.window_length),
        CustomSelectPromptAction::MoveToStart => window.moved_to_start(),
        CustomSelectPromptAction::MoveToEnd => window.moved_to_end(),
        CustomSelectPromptAction::FilterInput(_) => window,
    }
}

/// Whatever the action, a valid window is valid after it.
pub proof fn moved_by_is_wf(window: Window, action: CustomSelectPromptAction)
    requires
        window.wf(),
    ensures
        moved_by(window, action).wf(),
{
    window.moved_up_is_wf(1);
    window.moved_down_is_wf(1);
    window.moved_up_is_wf(window.window_length);
    window.moved_down_is_wf(window.window_length);
    window.moved_to_ends_is_wf();
}

/// In an empty list no action moves the cursor or the viewport, and none
/// asks for a redraw.
pub proof fn empty_list_goes_nowhere(window: Window, action: CustomSelectPromptAction)
    requires
        window.total_length == 0,
    ensures
        moved_by(window, action) == window,
        redraw_between(window, moved_by(window, action)) == ActionResult::Clean,
{
}

/// A select prompt whose options come from an [`OptionFetcher`], one window
/// at a time.
#[verifier::reject_recursive_types(T)]
pub struct CustomSelectPrompt<'a, T, I> {
    message: &'a str,
    config: CustomSelectConfig,
    options_fetcher: Box<dyn OptionFetcher<T>>,
    fetched_options: Vec<T>,
    window: Window,
    help_message: Option<&'a str>,
    input: I,
}

impl<'a, T, I: TextInput> View for CustomSelectPrompt<'a, T, I> {
    type V = PromptView<T, I>;

    closed spec fn view(&self) -> PromptView<T, I> {
        PromptView {
            message: self.message@,
            help_message: match self.help_message {
                Some(text) => Some(text@),
                None => None,
            },
            config: self.config,
            window: self.window,
            options: self.fetched_options@,
            input: self.input,
        }
    }
}

impl<'a, T, I: TextInput> CustomSelectPrompt<'a, T, I> {
    /// A prompt made from `so`. Its cursor and its viewport start at the
    /// starting cursor, and nothing is loaded yet: the list is taken to be
    /// empty until the first fetch.
    pub fn new(so: CustomSelect<'a, T>) -> (made: InquireResult<Self>)
        ensures
            made matches Ok(prompt) && {
                &&& prompt@.wf()
                &&& prompt@.message == so.message@
                &&& prompt@.help_message == match so.help_message {
                    Some(text) => Some(text@),
                    None => None,
                }
                &&& prompt@.config == (CustomSelectConfig {
                    vim_mode: so.vim_mode,
                    page_size: so.page_size,
                })
                &&& prompt@.window == Window::starting(so.starting_cursor, so.page_size)
                &&& prompt@.options == Seq::<T>::empty()
                &&& match so.starting_filter_input {
                    Some(content) => call_ensures(I::new_with, (content,), prompt@.input),
                    None => call_ensures(I::new, (), prompt@.input),
                }
            },
    {
        let input = match so.starting_filter_input {
            Some(content) => I::new_with(content),
            None => I::new(),
        };
        Ok(
            CustomSelectPrompt {
                message: so.message,
                config: CustomSelectConfig { vim_mode: so.vim_mode, page_size: so.page_size },
                fetched_options: Vec::new(),
                window: Window {
                    offset: so.starting_cursor,
                    window_length: so.page_size,
                    total_length: 0,
                    cursor_index: so.starting_cursor,
                },
                options_fetcher: so.options_fetcher,
                help_message: so.help_message,
                input,
            },
        )
    }

    /// Moves the cursor up by `qty` options, going round from the first
    /// option to the last. In an empty list nothing happens. The cursor goes
    /// round whatever `wrap` says.
    #[allow(unused_variables)]
    pub fn move_cursor_up(&mut self, qty: usize, wrap: bool) -> (result: ActionResult)
        requires
            old(self)@.wf(),
        ensures
            final(self)@ == (PromptView { window: old(self)@.window.moved_up(qty), ..old(self)@ }),
            result == redraw_between(old(self)@.window, final(self)@.window),
            final(self)@.wf(),
    {
        if self.window.total_length == 0 {
            return ActionResult::Clean;
        }
        let steps = qty % self.window.total_length;
        let new_index = if steps <= self.window.cursor_index {
            self.window.cursor_index - steps
        } else {
            self.window.total_length - (steps - self.window.cursor_index)
        };
        proof {
            lemma_index_above(
                old(self)@.window.cursor_index as int,
                qty as int,
                old(self)@.window.total_length as int,
            );
        }
        self.update_cursor_position(new_index)
    }

    /// Moves the cursor down by `qty` options, going round from the last
    /// option to the first. In an empty list nothing happens. The cursor goes
    /// round whatever `wrap` says.
    #[allow(unused_variables)]
    pub fn move_cursor_down(&mut self, qty: usize, wrap: bool) -> (result: ActionResult)
        requires
            old(self)@.wf(),
        ensures
            final(self)@ == (PromptView {
                window: old(self)@.window.moved_down(qty),
                ..old(self)@
            }),
            result == redraw_between(old(self)@.window, final(self)@.window),
            final(self)@.wf(),
    {
        if self.window.total_length == 0 {
            return ActionResult::Clean;
        }
        let steps = qty % self.window.total_length;
        let room = self.window.total_length - self.window.cursor_index;
        let new_index = if steps < room {
            self.window.cursor_index + steps
        } else {
            steps - room
        };
        proof {
            lemma_index_below(
                old(self)@.window.cursor_index as int,
                qty as int,
                old(self)@.window.total_length as int,
            );
        }
        self.update_cursor_position(new_index)
    }

    /// Puts the cursor on `new_position`. Where the cursor is there already,
    /// nothing changes and nothing has to be drawn. Elsewhere the offset
    /// follows the cursor: it is the cursor itself, or the last offset from
    /// which a full window fits, or half a window before the cursor, whichever
    /// is least.
    ///
    /// The prompt stays valid where `new_position` is an option of the list,
    /// or zero while the list is empty. Elsewhere the cursor is beyond the
    /// list until the next fetch brings it back.
    pub fn update_cursor_position(&mut self, new_position: usize) -> (result: ActionResult)
        ensures
            final(self)@ == (PromptView {
                window: old(self)@.window.with_cursor(new_position),
                ..old(self)@
            }),
            result == redraw_between(old(self)@.window, final(self)@.window),
            old(self)@.wf() && old(self)@.window.admits(new_position) ==> final(self)@.wf(),
            old(self)@.anchored() ==> final(self)@.anchored(),
    {
        if new_position != self.window.cursor_index {
            self.window.cursor_index = new_position;
            self.window.offset = self.window.cursor_index.min(
                self.window.total_length.saturating_sub(self.window.window_length),
            ).min(new_position.saturating_sub(self.window.window_length / 2));
            ActionResult::NeedsRedraw
        } else {
            ActionResult::Clean
        }
    }

    /// Whether the cursor is on one of the loaded options. A cursor before
    /// the offset is on none. The prompt is left as it is.
    pub fn has_answer_highlighted(&mut self) -> (highlighted: bool)
        ensures
            highlighted == old(self)@.has_highlighted(),
            *final(self) == *old(self),
    {
        self.window.offset <= self.window.cursor_index && self.window.cursor_index
            - self.window.offset < self.fetched_options.len()
    }

    /// The distance from the offset to the cursor, which is the position of
    /// the highlighted option among the loaded ones where the cursor is not
    /// before the offset; zero where it is.
    pub fn fetched_index_from_cursor_index(&self) -> (index: usize)
        ensures
            index == self@.window.fetched_index(),
    {
        self.window.cursor_index.saturating_sub(self.window.offset)
    }

    /// Takes the highlighted option out of the loaded ones and returns it
    /// with its index in the list. The last loaded option moves into the gap.
    pub fn get_final_answer(&mut self) -> (answer: ListOption<T>)
        requires
            old(self)@.wf(),
            old(self)@.has_highlighted(),
        ensures
            answer == old(self)@.highlighted(),
            final(self)@ == (PromptView {
                options: old(self)@.options_without_highlighted(),
                ..old(self)@
            }),
            final(self)@.wf(),
    {
        let index = self.fetched_index_from_cursor_index();
        let value = self.fetched_options.swap_remove(index);
        ListOption::new(self.window.cursor_index, value)
    }

    /// Takes over what a fetch handed back for the current window: `options`
    /// replace the loaded ones and `total_length` the total. The cursor is
    /// brought into the viewport, from the offset up to but not including the
    /// index one window length after it, and then into the list: a cursor
    /// that the list no longer reaches goes to the last option, or to zero in
    /// an empty list. Where that moves the cursor, the offset follows it.
    ///
    /// Any window is taken, also one whose cursor was put beyond the viewport
    /// or the list: the prompt is valid afterwards.
    pub fn load_fetched(&mut self, options: Vec<T>, total_length: usize)
        requires
            (Window { total_length, ..old(self)@.window }).fits(options@.len()),
        ensures
            final(self)@ == (PromptView {
                window: old(self)@.window.refreshed(total_length),
                options: options@,
                ..old(self)@
            }),
            final(self)@.refetched_from(old(self)@),
            old(self)@.anchored() ==> final(self)@.wf(),
    {
        self.fetched_options = options;
        self.window.total_length = total_length;
        let in_view = match self.window.offset.checked_add(self.window.window_length) {
            Some(end) => self.window.cursor_index.min(end.saturating_sub(1)),
            None => self.window.cursor_index,
        };
        let new_position = in_view.max(self.window.offset).min(
            self.window.total_length.saturating_sub(1),
        );
        self.update_cursor_position(new_position);
        proof {
            old(self)@.window.refreshed_fits(total_length, options@.len());
            if old(self)@.anchored() {
                old(self)@.window.refreshed_is_wf(total_length);
            }
        }
    }

    /// Asks the source for the current window under the current filter text
    /// and takes over what comes back, as [`Self::load_fetched`] says.
    pub fn refetch(&mut self)
        ensures
            final(self)@.refetched_from(old(self)@),
            old(self)@.anchored() ==> final(self)@.wf(),
    {
        let (options, total_length) = self.options_fetcher.fetch(
            self.input.content(),
            self.window.offset,
            self.window.window_length,
        );
        self.load_fetched(options, total_length);
    }

    /// Loads the first window. A prompt is to be set up once, before it is
    /// first drawn.
    pub fn setup(&mut self) -> (outcome: InquireResult<()>)
        ensures
            outcome is Ok,
            final(self)@.refetched_from(old(self)@),
            old(self)@.anchored() ==> final(self)@.wf(),
    {
        self.refetch();
        Ok(())
    }

    /// The answer, if the cursor is on a loaded option: that option, taken
    /// out of the loaded ones, with its index in the list. Where the cursor is
    /// on none there is no answer, and the prompt is left as it is.
    pub fn submit(&mut self) -> (outcome: InquireResult<Option<ListOption<T>>>)
        requires
            old(self)@.wf(),
        ensures
            outcome matches Ok(answer) && if old(self)@.has_highlighted() {
                &&& answer == Some(old(self)@.highlighted())
                &&& final(self)@ == (PromptView {
                    options: old(self)@.options_without_highlighted(),
                    ..old(self)@
                })
            } else {
                &&& answer is None
                &&& final(self)@ == old(self)@
            },
            final(self)@.wf(),
    {
        let answer = match self.has_answer_highlighted() {
            true => Some(self.get_final_answer()),
            false => None,
        };
        Ok(answer)
    }

    /// Carries out one action.
    ///
    /// An action that moves the cursor does so, and then the window is
    /// fetched again, whether or not the cursor moved; a redraw is needed
    /// where the cursor moved. An edit of the filter text goes to the text
    /// input, and the window is fetched again only where the input reports
    /// that its text changed; whether a redraw is needed is for the input to
    /// say.
    pub fn handle(&mut self, action: CustomSelectPromptAction) -> (outcome: InquireResult<
        ActionResult,
    >)
        requires
            old(self)@.wf(),
        ensures
            action !is FilterInput ==> {
                let moved = (PromptView {
                    window: moved_by(old(self)@.window, action),
                    ..old(self)@
                });
                &&& outcome matches Ok(redraw) && redraw == redraw_between(
                    old(self)@.window,
                    moved.window,
                )
                &&& final(self)@.refetched_from(moved)
            },
            action is FilterInput ==> {
                let edited = (PromptView { input: final(self)@.input, ..old(self)@ });
                &&& outcome matches Ok(redraw) && exists|report: InputActionResult|
                    redraw == #[trigger] ActionResult::of_input(report) && final(self)@.followed_up(
                        edited,
                        report,
                    )
            },
            final(self)@.wf(),
    {
        let result = match action {
            CustomSelectPromptAction::MoveUp => {
                let result = self.move_cursor_up(1, true);
                self.refetch();
                result
            },
            CustomSelectPromptAction::MoveDown => {
                let result = self.move_cursor_down(1, true);
                self.refetch();
                result
            },
            CustomSelectPromptAction::PageUp => {
                let result = self.move_cursor_up(self.window.window_length, true);
                self.refetch();
                result
            },
            CustomSelectPromptAction::PageDown => {
                let result = self.move_cursor_down(self.window.window_length, true);
                self.refetch();
                result
            },
            CustomSelectPromptAction::MoveToStart => {
                let result = if self.window.total_length == 0 {
                    ActionResult::Clean
                } else {
                    self.update_cursor_position(0)
                };
                self.refetch();
                result
            },
            CustomSelectPromptAction::MoveToEnd => {
                let result = if self.window.total_length == 0 {
                    ActionResult::Clean
                } else {
                    self.update_cursor_position(self.window.total_length - 1)
                };
                self.refetch();
                result
            },
            CustomSelectPromptAction::FilterInput(input_action) => {
                let result = self.input.handle(input_action);
                self.input_handled(result)
            },
        };
        Ok(result)
    }

    /// Follows up on an edit that the text input has carried out and
    /// reported as `result`: where the text changed, the window is fetched
    /// again under the new text; elsewhere the prompt is left as it is.
    /// Whether a redraw is needed is what the input reported.
    pub fn input_handled(&mut self, result: InputActionResult) -> (redraw: ActionResult)
        requires
            old(self)@.wf(),
        ensures
            redraw == ActionResult::of_input(result),
            final(self)@.followed_up(old(self)@, result),
            final(self)@.wf(),
    {
        if let InputActionResult::ContentChanged = result {
            self.refetch();
        }
        ActionResult::from(result)
    }

    /// The page to draw: the loaded options, each with its index in the
    /// list, the position of the highlighted one among them if the cursor is
    /// on one, whether the viewport touches the start and the end of the
    /// list, and the length of the list.
    pub fn page(&self) -> (page: Page<ListOption<&T>>)
        requires
            self@.wf(),
        ensures
            page.first == self@.window.at_first_page(),
            page.last == self@.window.at_last_page(),
            page.total == self@.window.total_length,
            page.cursor == if self@.has_highlighted() {
                Some((self@.window.cursor_index - self@.window.offset) as usize)
            } else {
                None
            },
            page.content@.len() == self@.options.len(),
            forall|i: int|
                0 <= i < page.content@.len() ==> (#[trigger] page.content@[i]).index
                    == self@.window.offset + i && *page.content@[i].value == self@.options[i],
    {
        let mut content: Vec<ListOption<&T>> = Vec::new();
        let mut i: usize = 0;
        while i < self.fetched_options.len()
            invariant
                self@.wf(),
                i <= self.fetched_options@.len(),
                content@.len() == i,
                forall|j: int|
                    0 <= j < i ==> (#[trigger] content@[j]).index == self.window.offset + j
                        && *content@[j].value == self.fetched_options@[j],
            decreases self.fetched_options@.len() - i,
        {
            content.push(ListOption::new(self.window.offset + i, &self.fetched_options[i]));
            i += 1;
        }
        let index = self.fetched_index_from_cursor_index();
        Page {
            first: self.window.offset == 0,
            last: match self.window.offset.checked_add(self.window.window_length) {
                Some(end) => end >= self.window.total_length,
                None => true,
            },
            content,
            cursor: if self.window.offset <= self.window.cursor_index && index
                < self.fetched_options.len() {
                Some(index)
            } else {
                None
            },
            total: self.window.total_length,
        }
    }

    /// The question shown above the filter.
    pub fn message(&self) -> (message: &str)
        ensures
            message@ == self@.message,
    {
        self.message
    }

    /// The hint shown below the options, if any.
    pub fn help_message(&self) -> (help: Option<&str>)
        ensures
            self@.help_message == match help {
                Some(text) => Some(text@),
                None => None,
            },
    {
        self.help_message
    }

    /// The settings of the prompt.
    pub fn config(&self) -> (config: &CustomSelectConfig)
        ensures
            *config == self@.config,
    {
        &self.config
    }

    /// The cursor and the viewport as they stand.
    pub fn window(&self) -> (window: Window)
        ensures
            window == self@.window,
    {
        self.window
    }

    /// The text input that holds the filter.
    pub fn input(&self) -> (input: &I)
        ensures
            *input == self@.input,
    {
        &self.input
    }
}

} // verus!
