//! Errors without a cause: one with a fixed message, one with a formatted one.
//!
//! A fixed-message error carries a site tag chosen by the caller, so that
//! errors raised at different places stay distinguishable even where their
//! text is the same. This trades the zero size of a type per call site for
//! one integer of data.
use vstd::prelude::*;
use crate::report::{NoCause, Reportable};
use crate::template::FormatArgs;

verus! {

/// An error with a fixed message and no cause.
#[derive(Debug)]
pub struct AdhocError {
    site: u64,
    msg: &'static str,
}

/// Makes an error with the fixed message `msg`, raised at `site`.
pub fn err(site: u64, msg: &'static str) -> (r: AdhocError)
    ensures
        r.message_view() == msg@,
        r.cause_view() is None,
        r.site_view() == site,
{
    AdhocError { site, msg }
}

impl AdhocError {
    pub closed spec fn site_view(&self) -> u64 {
        self.site
    }

    /// The tag of the place that raised this error.
    pub fn site(&self) -> (r: u64)
        ensures
            r == self.site_view(),
    {
        self.site
    }
}

impl Reportable for AdhocError {
    type Cause = NoCause;

    closed spec fn message_view(&self) -> Seq<char> {
        self.msg@
    }

    closed spec fn cause_view(&self) -> Option<NoCause> {
        None
    }

    closed spec fn chain_view(&self) -> Seq<Seq<char>> {
        seq![self.msg@]
    }

    proof fn lemma_chain_starts_with_message(&self) {
    }

    fn message(&self) -> (r: String) {
        String::from_str(self.msg)
    }

    fn cause(&self) -> (r: Option<&NoCause>) {
        None
    }

    fn chain(&self) -> (r: Vec<String>) {
        let r = vec![String::from_str(self.msg)];
        assert(r@.map_values(|s: String| s@) =~= seq![self.msg@]);
        r
    }
}

/// An error whose message was formatted at run time, with no cause.
#[derive(Debug)]
pub struct FormatError {
    msg: String,
}

/// Makes an error whose message is `args` formatted once, now.
pub fn format_err(args: &FormatArgs) -> (r: FormatError)
    requires
        args.fits(),
    ensures
        args.rendered() == Some(r.message_view()),
        r.cause_view() is None,
{
    FormatError { msg: args.render().unwrap() }
}

impl Reportable for FormatError {
    type Cause = NoCause;

    closed spec fn message_view(&self) -> Seq<char> {
        self.msg@
    }

    closed spec fn cause_view(&self) -> Option<NoCause> {
        None
    }

    closed spec fn chain_view(&self) -> Seq<Seq<char>> {
        seq![self.msg@]
    }

    proof fn lemma_chain_starts_with_message(&self) {
    }

    fn message(&self) -> (r: String) {
        self.msg.clone()
    }

    fn cause(&self) -> (r: Option<&NoCause>) {
        None
    }

    fn chain(&self) -> (r: Vec<String>) {
        let r = vec![self.msg.clone()];
        assert(r@.map_values(|s: String| s@) =~= seq![self.msg@]);
        r
    }
}

} // verus!
