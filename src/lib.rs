//! A small logging facade: a two-tier severity filter, a registry holding one
//! sink and one optional extension, and a dispatcher that decides, for each
//! record, which of them receive it and in what order.
//!
//! The library works on values: a [`Filter`], a [`Registry`] or a [`Linked`]
//! dispatcher is owned by whoever publishes it to the rest of the program,
//! and [`log`] hands back the receivers of a record, in the order in which
//! they are to be called.
pub mod dispatch;
pub mod filter;
pub mod laws;
pub mod level;
pub mod record;
pub mod registry;

pub use dispatch::{log, Delivery, Linked};
pub use filter::{get_min_level, set_min_level, Filter};
pub use level::Level;
pub use record::{format_line, Metadata, Payload};
pub use registry::{get_extension, get_logger, set_extension, set_logger, Registry};
