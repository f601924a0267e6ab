//! Ending a computation early with an error without a cause.
//!
//! Each helper returns a `Result` that the caller hands straight back, most
//! often with `?`. Where the caller's own error type is broader, `?` converts
//! through `From`; [`AnyError`] is such a type for both kinds of error made
//! here.
use vstd::prelude::*;
use crate::adhoc::{err, format_err, AdhocError, FormatError};
use crate::report::{NoCause, Reportable};
use crate::template::FormatArgs;

verus! {

/// Ends early with the fixed message `msg`, raised at `site`, unless `cond`
/// holds.
pub fn ensure(cond: bool, site: u64, msg: &'static str) -> (r: Result<(), AdhocError>)
    ensures
        match r {
            Ok(_) => cond,
            Err(e) => {
                &&& !cond
                &&& e.message_view() == msg@
                &&& e.cause_view() is None
                &&& e.site_view() == site
            },
        },
{
    if !cond {
        return Err(err(site, msg));
    }
    Ok(())
}

/// Ends early with `args` formatted as the message unless `cond` holds.
/// Nothing is formatted when `cond` holds.
pub fn ensure_fmt(cond: bool, args: &FormatArgs) -> (r: Result<(), FormatError>)
    requires
        !cond ==> args.fits(),
    ensures
        match r {
            Ok(_) => cond,
            Err(e) => {
                &&& !cond
                &&& args.rendered() == Some(e.message_view())
                &&& e.cause_view() is None
            },
        },
{
    if !cond {
        return Err(format_err(args));
    }
    Ok(())
}

/// Ends with the fixed message `msg`, raised at `site`, always.
pub fn bail<T>(site: u64, msg: &'static str) -> (r: Result<T, AdhocError>)
    ensures
        match r {
            Ok(_) => false,
            Err(e) => {
                &&& e.message_view() == msg@
                &&& e.cause_view() is None
                &&& e.site_view() == site
            },
        },
{
    Err(err(site, msg))
}

/// Ends with `args` formatted as the message, always.
pub fn bail_fmt<T>(args: &FormatArgs) -> (r: Result<T, FormatError>)
    requires
        args.fits(),
    ensures
        match r {
            Ok(_) => false,
            Err(e) => {
                &&& args.rendered() == Some(e.message_view())
                &&& e.cause_view() is None
            },
        },
{
    Err(format_err(args))
}

/// Either kind of error without a cause, for callers that return both.
#[derive(Debug)]
pub enum AnyError {
    Fixed(AdhocError),
    Formatted(FormatError),
}

impl From<AdhocError> for AnyError {
    fn from(e: AdhocError) -> (r: AnyError) {
        AnyError::Fixed(e)
    }
}

impl vstd::std_specs::convert::FromSpecImpl<AdhocError> for AnyError {
    open spec fn obeys_from_spec() -> bool {
        true
    }

    open spec fn from_spec(e: AdhocError) -> AnyError {
        AnyError::Fixed(e)
    }
}

impl From<FormatError> for AnyError {
    fn from(e: FormatError) -> (r: AnyError) {
        AnyError::Formatted(e)
    }
}

impl vstd::std_specs::convert::FromSpecImpl<FormatError> for AnyError {
    open spec fn obeys_from_spec() -> bool {
        true
    }

    open spec fn from_spec(e: FormatError) -> AnyError {
        AnyError::Formatted(e)
    }
}

impl Reportable for AnyError {
    type Cause = NoCause;

    open spec fn message_view(&self) -> Seq<char> {
        match self {
            AnyError::Fixed(e) => e.message_view(),
            AnyError::Formatted(e) => e.message_view(),
        }
    }

    open spec fn cause_view(&self) -> Option<NoCause> {
        None
    }

    open spec fn chain_view(&self) -> Seq<Seq<char>> {
        match self {
            AnyError::Fixed(e) => e.chain_view(),
            AnyError::Formatted(e) => e.chain_view(),
        }
    }

    proof fn lemma_chain_starts_with_message(&self) {
        match self {
            AnyError::Fixed(e) => e.lemma_chain_starts_with_message(),
            AnyError::Formatted(e) => e.lemma_chain_starts_with_message(),
        }
    }

    fn message(&self) -> (r: String) {
        match self {
            AnyError::Fixed(e) => e.message(),
            AnyError::Formatted(e) => e.message(),
        }
    }

    fn cause(&self) -> (r: Option<&NoCause>) {
        None
    }

    fn chain(&self) -> (r: Vec<String>) {
        match self {
            AnyError::Fixed(e) => e.chain(),
            AnyError::Formatted(e) => e.chain(),
        }
    }
}

} // verus!
