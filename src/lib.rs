//! Price history tracking for products of an online shop: the store of
//! tracked products, the rules by which it grows, the command grammar of the
//! interactive loop, and the display helpers.

pub mod command;
pub mod data;
pub mod types;
pub mod util;

pub use command::{list_line, parse_command, update_all, Command};
pub use data::{AddError, AppData, OnePrice, ProductHistory};
pub use types::{FetchError, StockStatus, WebData};
pub use util::{commafy, omitted_string};
