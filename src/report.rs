//! The capability every error of this crate offers: a message, at most one
//! direct cause, and the chain of messages down to the root cause.
use vstd::prelude::*;

verus! {

/// Something that can be reported as an error.
pub trait Reportable {
    /// The type of the direct cause, for errors that have one.
    type Cause;

    /// The message shown for this error alone, without its causes.
    spec fn message_view(&self) -> Seq<char>;

    /// The direct cause, if any.
    spec fn cause_view(&self) -> Option<Self::Cause>;

    /// The messages from this error down to its root cause, this one first.
    spec fn chain_view(&self) -> Seq<Seq<char>>;

    /// The chain of messages starts with this error's own message.
    proof fn lemma_chain_starts_with_message(&self)
        ensures
            self.chain_view().len() >= 1,
            self.chain_view()[0] == self.message_view(),
    ;

    /// The text to show for this error.
    fn message(&self) -> (r: String)
        ensures
            r@ == self.message_view(),
    ;

    /// The error that caused this one, if any.
    fn cause(&self) -> (r: Option<&Self::Cause>)
        ensures
            match r {
                Some(c) => self.cause_view() == Some(*c),
                None => self.cause_view() is None,
            },
    ;

    /// The messages of this error and of each cause below it, in order.
    fn chain(&self) -> (r: Vec<String>)
        ensures
            r@.map_values(|s: String| s@) == self.chain_view(),
    ;
}

/// The cause type of errors that have none: no value of it is ever handed out.
#[derive(Debug)]
pub struct NoCause;

} // verus!
