//! Test fixtures for a JavaScript runtime's op and object-wrapping machinery:
//! a point object whose coordinates are held as `f64` bit patterns, a few
//! object wraps, a line-recording output sink, and a named store of captured
//! runtime statistics.

pub mod dom_point;
pub mod object_wrap;
pub mod output;
pub mod test_data;

pub use dom_point::{DOMPoint, DOMPointReadOnly};
pub use object_wrap::{Foo, TestEnumWrap, TestObjectWrap};
pub use output::{op_log_info, Output};
pub use test_data::{op_stats_capture, op_stats_delete, op_stats_diff, op_stats_dump, TestData};
