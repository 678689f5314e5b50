//! The settings of a select prompt.

use vstd::prelude::*;
use vstd::std_specs::convert::FromSpecImpl;
use crate::prompt::OptionFetcher;

verus! {

/// Everything a select prompt is made from.
#[verifier::reject_recursive_types(T)]
pub struct CustomSelect<'a, T> {
    /// The question shown above the filter.
    pub message: &'a str,
    /// A hint shown below the options, if any.
    pub help_message: Option<&'a str>,
    /// How many options are on screen at a time.
    pub page_size: usize,
    /// Whether `j` and `k` move the cursor.
    pub vim_mode: bool,
    /// Index of the option that the cursor starts on.
    pub starting_cursor: usize,
    /// Text that the filter starts with, if any.
    pub starting_filter_input: Option<&'a str>,
    /// The source of the options.
    pub options_fetcher: Box<dyn OptionFetcher<T>>,
}

/// The settings that stay in force while a select prompt runs.
#[derive(Copy, Clone, Debug, PartialEq, Eq, Structural)]
pub struct CustomSelectConfig {
    /// Whether to use vim-style keybindings.
    pub vim_mode: bool,
    /// Page size of the list of options.
    pub page_size: usize,
}

impl<'a, 'b, T> From<&'b CustomSelect<'a, T>> for CustomSelectConfig {
    /// The settings that `value` asks for.
    fn from(value: &'b CustomSelect<'a, T>) -> (config: Self) {
        CustomSelectConfig { vim_mode: value.vim_mode, page_size: value.page_size }
    }
}

impl<'a, 'b, T> FromSpecImpl<&'b CustomSelect<'a, T>> for CustomSelectConfig {
    open spec fn obeys_from_spec() -> bool {
        true
    }

    open spec fn from_spec(value: &'b CustomSelect<'a, T>) -> Self {
        CustomSelectConfig { vim_mode: value.vim_mode, page_size: value.page_size }
    }
}

} // verus!
