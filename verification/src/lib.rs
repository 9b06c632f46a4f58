//! A terminal pager library: the viewport buffer, the domain-event
//! mapping, and the pager-loop state machine, with contracts.
//!
//! Terminal control, file reading and thread plumbing live outside the
//! library; the library holds every decision those layers make.

pub mod buffer;
pub mod error;
pub mod events;
pub mod input;
pub mod pager;

pub use buffer::clip_string;
pub use buffer::Direction;
pub use buffer::PagerBuffer;
pub use error::ErrorKind;
pub use events::LeastEvent;
pub use input::InputMode;
