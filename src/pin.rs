//! The capabilities that the multiplexer needs of the lines wired to it.
//!
//! A hardware abstraction layer implements these for its pins. Each output line
//! is modelled by the history of the levels it has been asked to take, each with
//! the outcome that the line reported.

use vstd::prelude::*;

verus! {

/// One request to an output line: the level asked for (`true` for high) and
/// what the line reported.
pub type Drive<E> = (bool, Result<(), E>);

/// A digital output line whose level can be set, each time fallibly.
pub trait OutputPin {
    /// What the line reports when it cannot take a level.
    type Error;

    /// Every request made of this line so far, oldest first.
    ///
    /// An implementation verified against this trait must define it. One
    /// written outside the verifier need not, and keeps this placeholder: it is
    /// then trusted to behave as if it kept such a history, that is, to make
    /// exactly one request of the hardware per call and to report its outcome.
    closed spec fn drives(&self) -> Seq<Drive<Self::Error>> {
        arbitrary()
    }

    /// Drives the line low.
    fn set_low(&mut self) -> (r: Result<(), Self::Error>)
        ensures
            final(self).drives() == old(self).drives().push((false, r)),
    ;

    /// Drives the line high.
    fn set_high(&mut self) -> (r: Result<(), Self::Error>)
        ensures
            final(self).drives() == old(self).drives().push((true, r)),
    ;
}

/// A digital input line. What it reads depends on the outside world; the
/// contracts only say which outcomes are readings of which operation.
pub trait InputPin {
    /// What the line reports when it cannot be read.
    type Error;

    /// Whether `r` is an outcome that asking this line "is it high?" can give.
    ///
    /// As with `OutputPin::drives`, an implementation outside the verifier
    /// keeps this placeholder.
    closed spec fn high_reading(&self, r: Result<bool, Self::Error>) -> bool {
        arbitrary()
    }

    /// Whether `r` is an outcome that asking this line "is it low?" can give.
    closed spec fn low_reading(&self, r: Result<bool, Self::Error>) -> bool {
        arbitrary()
    }

    /// Whether the line reads high.
    fn is_high(&self) -> (r: Result<bool, Self::Error>)
        ensures
            self.high_reading(r),
    ;

    /// Whether the line reads low.
    fn is_low(&self) -> (r: Result<bool, Self::Error>)
        ensures
            self.low_reading(r),
    ;
}

/// A line that an analogue-to-digital converter of type `ADC` can sample,
/// identified by a fixed channel identifier.
pub trait AnalogChannel<ADC> {
    /// The converter's name for a channel.
    type Id;

    /// The identifier of this line's channel, the same on every call.
    ///
    /// As with `OutputPin::drives`, an implementation outside the verifier
    /// keeps this placeholder.
    closed spec fn channel_id() -> Self::Id {
        arbitrary()
    }

    /// Returns the identifier of this line's channel.
    fn channel() -> (r: Self::Id)
        ensures
            r == Self::channel_id(),
    ;
}

} // verus!
