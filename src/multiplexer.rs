//! The multiplexer: selecting a channel, enabling the chip, and the shared line.

use crate::pin::{AnalogChannel, Drive, InputPin, OutputPin};
use crate::u4::U4;
use vstd::prelude::*;

verus! {

/// Bit `k` of a channel index, `(value >> k) & 1`, as a line level.
pub open spec fn channel_bit(channel: U4, k: u16) -> bool {
    ((channel@ as u16 >> k) & 1u16) != 0u16
}

/// `after` is `before` with one more request: for `level`, with `outcome`.
pub open spec fn driven_once<P: OutputPin>(
    before: P,
    after: P,
    level: bool,
    outcome: Result<(), P::Error>,
) -> bool {
    after.drives() == before.drives().push((level, outcome))
}

/// Which select line failed while a channel was being selected, with the
/// line's own error.
#[derive(Clone, Copy, Debug, PartialEq, Eq)]
pub enum MultiplexSelectionError<E0, E1, E2, E3> {
    Select0(E0),
    Select1(E1),
    Select2(E2),
    Select3(E3),
}

/// A sixteen-channel multiplexer of the CD74HC4067 kind, wired to four select
/// lines, a shared input/output line and an active-low enable line.
///
/// It does not track which channel is selected: that is the chip's own state.
/// Selecting a channel and then using the shared line are two separate steps,
/// so a caller that shares one multiplexer among tasks must hold it exclusively
/// across both.
pub struct Multiplexer<S0, S1, S2, S3, IO, EN> {
    select0: S0,
    select1: S1,
    select2: S2,
    select3: S3,
    io: IO,
    enable: EN,
}

impl<S0, S1, S2, S3, IO, EN> Multiplexer<S0, S1, S2, S3, IO, EN> {
    /// The line wired to select input 0.
    pub closed spec fn line0(&self) -> S0 {
        self.select0
    }

    /// The line wired to select input 1.
    pub closed spec fn line1(&self) -> S1 {
        self.select1
    }

    /// The line wired to select input 2.
    pub closed spec fn line2(&self) -> S2 {
        self.select2
    }

    /// The line wired to select input 3.
    pub closed spec fn line3(&self) -> S3 {
        self.select3
    }

    /// The shared input/output line.
    pub closed spec fn io_line(&self) -> IO {
        self.io
    }

    /// The enable line; a placeholder where the chip's enable input is wired fixed.
    pub closed spec fn enable_line(&self) -> EN {
        self.enable
    }

    /// Builds a multiplexer from lines that are already configured.
    pub fn new(select0: S0, select1: S1, select2: S2, select3: S3, io: IO, enable: EN) -> (r: Self)
        ensures
            r.line0() == select0,
            r.line1() == select1,
            r.line2() == select2,
            r.line3() == select3,
            r.io_line() == io,
            r.enable_line() == enable,
    {
        Multiplexer { select0, select1, select2, select3, io, enable }
    }

    /// Selects a channel: drives select line `k` to bit `k` of the index, in the
    /// order 0, 1, 2, 3.
    ///
    /// The first line that fails stops the selection: its error is returned,
    /// tagged with the line, and the lines after it are left untouched. Lines
    /// already driven are not set back.
    pub fn select(&mut self, selection: U4) -> (r: Result<
        (),
        MultiplexSelectionError<S0::Error, S1::Error, S2::Error, S3::Error>,
    >) where S0: OutputPin, S1: OutputPin, S2: OutputPin, S3: OutputPin
        ensures
            final(self).io_line() == old(self).io_line(),
            final(self).enable_line() == old(self).enable_line(),
            match r {
                Ok(()) => {
                    &&& driven_once(old(self).line0(), final(self).line0(), channel_bit(selection, 0), Ok(()))
                    &&& driven_once(old(self).line1(), final(self).line1(), channel_bit(selection, 1), Ok(()))
                    &&& driven_once(old(self).line2(), final(self).line2(), channel_bit(selection, 2), Ok(()))
                    &&& driven_once(old(self).line3(), final(self).line3(), channel_bit(selection, 3), Ok(()))
                },
                Err(MultiplexSelectionError::Select0(e)) => {
                    &&& driven_once(old(self).line0(), final(self).line0(), channel_bit(selection, 0), Err(e))
                    &&& final(self).line1() == old(self).line1()
                    &&& final(self).line2() == old(self).line2()
                    &&& final(self).line3() == old(self).line3()
                },
                Err(MultiplexSelectionError::Select1(e)) => {
                    &&& driven_once(old(self).line0(), final(self).line0(), channel_bit(selection, 0), Ok(()))
                    &&& driven_once(old(self).line1(), final(self).line1(), channel_bit(selection, 1), Err(e))
                    &&& final(self).line2() == old(self).line2()
                    &&& final(self).line3() == old(self).line3()
                },
                Err(MultiplexSelectionError::Select2(e)) => {
                    &&& driven_once(old(self).line0(), final(self).line0(), channel_bit(selection, 0), Ok(()))
                    &&& driven_once(old(self).line1(), final(self).line1(), channel_bit(selection, 1), Ok(()))
                    &&& driven_once(old(self).line2(), final(self).line2(), channel_bit(selection, 2), Err(e))
                    &&& final(self).line3() == old(self).line3()
                },
                Err(MultiplexSelectionError::Select3(e)) => {
                    &&& driven_once(old(self).line0(), final(self).line0(), channel_bit(selection, 0), Ok(()))
                    &&& driven_once(old(self).line1(), final(self).line1(), channel_bit(selection, 1), Ok(()))
                    &&& driven_once(old(self).line2(), final(self).line2(), channel_bit(selection, 2), Ok(()))
                    &&& driven_once(old(self).line3(), final(self).line3(), channel_bit(selection, 3), Err(e))
                },
            },
    {
        let value: u16 = u16::from(selection);
        match set_pin(&mut self.select0, (value >> 0u16 & 1u16) != 0) {
            Ok(()) => {},
            Err(e) => return Err(MultiplexSelectionError::Select0(e)),
        }
        match set_pin(&mut self.select1, (value >> 1u16 & 1u16) != 0) {
            Ok(()) => {},
            Err(e) => return Err(MultiplexSelectionError::Select1(e)),
        }
        match set_pin(&mut self.select2, (value >> 2u16 & 1u16) != 0) {
            Ok(()) => {},
            Err(e) => return Err(MultiplexSelectionError::Select2(e)),
        }
        match set_pin(&mut self.select3, (value >> 3u16 & 1u16) != 0) {
            Ok(()) => {},
            Err(e) => return Err(MultiplexSelectionError::Select3(e)),
        }
        Ok(())
    }

    /// Enables the chip: drives the enable line low, as the chip's enable
    /// input is active low. The line's error is passed on unchanged.
    pub fn enable(&mut self) -> (r: Result<(), EN::Error>) where EN: OutputPin
        ensures
            driven_once(old(self).enable_line(), final(self).enable_line(), false, r),
            final(self).line0() == old(self).line0(),
            final(self).line1() == old(self).line1(),
            final(self).line2() == old(self).line2(),
            final(self).line3() == old(self).line3(),
            final(self).io_line() == old(self).io_line(),
    {
        self.enable.set_low()
    }

    /// Disables the chip: drives the enable line high. The line's error is
    /// passed on unchanged.
    pub fn disable(&mut self) -> (r: Result<(), EN::Error>) where EN: OutputPin
        ensures
            driven_once(old(self).enable_line(), final(self).enable_line(), true, r),
            final(self).line0() == old(self).line0(),
            final(self).line1() == old(self).line1(),
            final(self).line2() == old(self).line2(),
            final(self).line3() == old(self).line3(),
            final(self).io_line() == old(self).io_line(),
    {
        self.enable.set_high()
    }
}

/// Writing to the multiplexer writes to the shared line, and so to whichever
/// channel the chip has routed there.
impl<S0, S1, S2, S3, IO, EN> OutputPin for Multiplexer<S0, S1, S2, S3, IO, EN> where IO: OutputPin {
    type Error = IO::Error;

    closed spec fn drives(&self) -> Seq<Drive<IO::Error>> {
        self.io.drives()
    }

    fn set_low(&mut self) -> (r: Result<(), IO::Error>)
        ensures
            driven_once(old(self).io_line(), final(self).io_line(), false, r),
            final(self).line0() == old(self).line0(),
            final(self).line1() == old(self).line1(),
            final(self).line2() == old(self).line2(),
            final(self).line3() == old(self).line3(),
            final(self).enable_line() == old(self).enable_line(),
    {
        self.io.set_low()
    }

    fn set_high(&mut self) -> (r: Result<(), IO::Error>)
        ensures
            driven_once(old(self).io_line(), final(self).io_line(), true, r),
            final(self).line0() == old(self).line0(),
            final(self).line1() == old(self).line1(),
            final(self).line2() == old(self).line2(),
            final(self).line3() == old(self).line3(),
            final(self).enable_line() == old(self).enable_line(),
    {
        self.io.set_high()
    }
}

/// Reading the multiplexer reads the shared line, and so whichever channel the
/// chip has routed there.
impl<S0, S1, S2, S3, IO, EN> InputPin for Multiplexer<S0, S1, S2, S3, IO, EN> where IO: InputPin {
    type Error = IO::Error;

    /// A reading of the multiplexer is a reading of its shared line.
    open spec fn high_reading(&self, r: Result<bool, IO::Error>) -> bool {
        self.io_line().high_reading(r)
    }

    open spec fn low_reading(&self, r: Result<bool, IO::Error>) -> bool {
        self.io_line().low_reading(r)
    }

    fn is_high(&self) -> (r: Result<bool, IO::Error>) {
        self.io.is_high()
    }

    fn is_low(&self) -> (r: Result<bool, IO::Error>) {
        self.io.is_low()
    }
}

/// The multiplexer is sampled through the converter channel of its shared line.
impl<ADC, S0, S1, S2, S3, IO, EN> AnalogChannel<ADC> for Multiplexer<S0, S1, S2, S3, IO, EN> where
    IO: AnalogChannel<ADC>,
 {
    type Id = IO::Id;

    open spec fn channel_id() -> IO::Id {
        IO::channel_id()
    }

    fn channel() -> (r: IO::Id) {
        IO::channel()
    }
}

/// Drives `pin` high when `on` holds, else low.
fn set_pin<P: OutputPin>(pin: &mut P, on: bool) -> (r: Result<(), P::Error>)
    ensures
        driven_once(*old(pin), *final(pin), on, r),
        r is Ok ==> driven_once(*old(pin), *final(pin), on, Ok(())),
{
    let r = if on {
        pin.set_high()
    } else {
        pin.set_low()
    };
    proof {
        // a successful outcome is `Ok(())`: its one field is the unit value
        if r is Ok {
            assert(r->Ok_0 == ());
        }
    }
    r
}

} // verus!
