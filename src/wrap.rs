//! Errors that wrap a cause. Each comes from a builder made where the message
//! is written, which is applied later, once the cause exists.
use vstd::prelude::*;
use crate::report::Reportable;
use crate::template::FormatArgs;

verus! {

/// An error with a fixed message that owns its cause.
#[derive(Debug)]
pub struct WrapError<E> {
    site: u64,
    msg: &'static str,
    source: E,
}

/// The builder of a [`WrapError`]: a fixed message waiting for its cause.
pub struct StaticWrap {
    site: u64,
    msg: &'static str,
}

impl StaticWrap {
    pub closed spec fn spec_new(site: u64, msg: &'static str) -> StaticWrap {
        StaticWrap { site, msg }
    }

    pub closed spec fn spec_apply<E>(self, source: E) -> WrapError<E> {
        WrapError { site: self.site, msg: self.msg, source }
    }

    /// The error with this message and `source` as its cause.
    pub fn apply<E>(self, source: E) -> (r: WrapError<E>)
        ensures
            r == self.spec_apply(source),
    {
        WrapError { site: self.site, msg: self.msg, source }
    }
}

/// A builder of errors with the fixed message `msg`, raised at `site`.
pub fn wrap(site: u64, msg: &'static str) -> (r: StaticWrap)
    ensures
        r == StaticWrap::spec_new(site, msg),
{
    StaticWrap { site, msg }
}

/// A cause wrapped under a fixed message shows exactly that message, never
/// the cause's own text, and holds the very cause it was given.
pub proof fn lemma_wrap_keeps_message_and_cause<E: Reportable>(site: u64, msg: &'static str, cause: E)
    ensures
        StaticWrap::spec_new(site, msg).spec_apply(cause).message_view() == msg@,
        StaticWrap::spec_new(site, msg).spec_apply(cause).cause_view() == Some(cause),
        StaticWrap::spec_new(site, msg).spec_apply(cause).site_view() == site,
{
}

impl<E: Reportable> WrapError<E> {
    pub closed spec fn site_view(&self) -> u64 {
        self.site
    }

    /// The tag of the place that raised this error.
    pub fn site(&self) -> (r: u64)
        ensures
            r == self.site_view(),
    {
        self.site
    }

    /// Gives the cause back, the very value that was wrapped.
    pub fn into_cause(self) -> (r: E)
        ensures
            self.cause_view() == Some(r),
    {
        self.source
    }
}

impl<E: Reportable> Reportable for WrapError<E> {
    type Cause = E;

    closed spec fn message_view(&self) -> Seq<char> {
        self.msg@
    }

    closed spec fn cause_view(&self) -> Option<E> {
        Some(self.source)
    }

    closed spec fn chain_view(&self) -> Seq<Seq<char>> {
        seq![self.msg@] + self.source.chain_view()
    }

    proof fn lemma_chain_starts_with_message(&self) {
    }

    fn message(&self) -> (r: String) {
        String::from_str(self.msg)
    }

    fn cause(&self) -> (r: Option<&E>) {
        Some(&self.source)
    }

    fn chain(&self) -> (r: Vec<String>) {
        let mut r = vec![String::from_str(self.msg)];
        let mut rest = self.source.chain();
        r.append(&mut rest);
        assert(r@.map_values(|s: String| s@) =~= self.chain_view());
        r
    }
}

/// An error with a formatted message that owns its cause.
#[derive(Debug)]
pub struct FormatWrapError<E> {
    msg: String,
    source: E,
}

/// Makes an error whose message is `args` formatted once, now, and whose
/// cause is `source`.
pub fn format_wrap_err<E: Reportable>(source: E, args: &FormatArgs) -> (r: FormatWrapError<E>)
    requires
        args.fits(),
    ensures
        args.rendered() == Some(r.message_view()),
        r.cause_view() == Some(source),
{
    FormatWrapError { msg: args.render().unwrap(), source }
}

impl<E: Reportable> FormatWrapError<E> {
    /// Gives the cause back, the very value that was wrapped.
    pub fn into_cause(self) -> (r: E)
        ensures
            self.cause_view() == Some(r),
    {
        self.source
    }
}

impl<E: Reportable> Reportable for FormatWrapError<E> {
    type Cause = E;

    closed spec fn message_view(&self) -> Seq<char> {
        self.msg@
    }

    closed spec fn cause_view(&self) -> Option<E> {
        Some(self.source)
    }

    closed spec fn chain_view(&self) -> Seq<Seq<char>> {
        seq![self.msg@] + self.source.chain_view()
    }

    proof fn lemma_chain_starts_with_message(&self) {
    }

    fn message(&self) -> (r: String) {
        self.msg.clone()
    }

    fn cause(&self) -> (r: Option<&E>) {
        Some(&self.source)
    }

    fn chain(&self) -> (r: Vec<String>) {
        let mut r = vec![self.msg.clone()];
        let mut rest = self.source.chain();
        r.append(&mut rest);
        assert(r@.map_values(|s: String| s@) =~= self.chain_view());
        r
    }
}

/// The builder of a [`FormatWrapError`]: a template and its arguments
/// waiting for the cause. Nothing is formatted before the cause arrives.
pub struct FormatWrap {
    args: FormatArgs,
}

impl FormatWrap {
    pub closed spec fn args_view(&self) -> FormatArgs {
        self.args
    }

    /// The error whose message is the arguments formatted now, with
    /// `source` as its cause.
    pub fn apply<E: Reportable>(self, source: E) -> (r: FormatWrapError<E>)
        requires
            self.args_view().fits(),
        ensures
            self.args_view().rendered() == Some(r.message_view()),
            r.cause_view() == Some(source),
    {
        format_wrap_err(source, &self.args)
    }
}

/// A builder of errors whose message is `args` formatted.
pub fn wrap_fmt(args: FormatArgs) -> (r: FormatWrap)
    ensures
        r.args_view() == args,
{
    FormatWrap { args }
}

} // verus!
