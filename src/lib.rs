//! Selection state and navigation rules of a terminal browser over a catalog
//! of trading cards grouped into sets.

pub mod browser;
pub mod card;
pub mod input;

pub use browser::{App, BrowserView, Step};
pub use card::{Card, DetailLine};
pub use input::{input_for_key, Input, Key};
