//! A select prompt over a list that is fetched one window at a time: the
//! decoding of keys into actions, the cursor and viewport arithmetic, and the
//! protocol that refreshes the visible window.

pub mod action;
pub mod config;
pub mod error;
pub mod input;
pub mod key;
pub mod list_option;
pub mod prompt;
pub mod result;
pub mod window;

pub use action::CustomSelectPromptAction;
pub use config::{CustomSelect, CustomSelectConfig};
pub use error::{InquireError, InquireResult};
pub use input::{InputAction, InputActionResult, LineDirection, Magnitude, TextInput};
pub use key::{Key, KeyModifiers};
pub use list_option::{ListOption, Page};
pub use prompt::{CustomSelectPrompt, OptionFetcher};
pub use result::ActionResult;
pub use window::Window;
