//! Lightweight error values made at the place of failure: errors with a
//! fixed or a formatted message, errors that wrap a cause, and helpers that
//! end a computation early with such an error.
pub mod adhoc;
pub mod flow;
pub mod report;
pub mod template;
pub mod wrap;

pub use adhoc::{err, format_err, AdhocError, FormatError};
pub use flow::{bail, bail_fmt, ensure, ensure_fmt, AnyError};
pub use report::{NoCause, Reportable};
pub use template::FormatArgs;
pub use wrap::{format_wrap_err, wrap, wrap_fmt, FormatWrap, FormatWrapError, StaticWrap, WrapError};
