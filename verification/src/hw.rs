//! Trusted boundary to the GPIO subsystem. Each structure here owns pins of
//! the board together with a ghost record of what has been commanded at this
//! boundary. The records start empty when a structure is assembled and are
//! extended only by the `external_body` wrappers below, one outside call
//! each; no verified code can write them afterwards. All the driver's
//! contracts rest on these records and on the pin-number observers bound by
//! the claim and conversion contracts.

use vstd::prelude::*;

use crate::device::PinLevel;
use crate::encoding::WireEvent;

verus! {

#[verifier::external_type_specification]
#[verifier::external_body]
pub struct ExGpio(rppal::gpio::Gpio);

#[verifier::external_type_specification]
#[verifier::external_body]
pub struct ExPin(rppal::gpio::Pin);

#[verifier::external_type_specification]
#[verifier::external_body]
pub struct ExInputPin(rppal::gpio::InputPin);

#[verifier::external_type_specification]
#[verifier::external_body]
pub struct ExOutputPin(rppal::gpio::OutputPin);

#[verifier::external_type_specification]
#[verifier::external_body]
pub struct ExGpioError(rppal::gpio::Error);

#[verifier::external_type_specification]
#[verifier::external_body]
pub struct ExDelay(rppal::hal::Delay);

/// The BCM number a claimed pin is bound to: what rppal::gpio::Pin::pin
/// returns, fixed at the claim and never rebound.
pub uninterp spec fn pin_bcm(pin: rppal::gpio::Pin) -> u8;

/// The BCM number an output pin is bound to: what
/// rppal::gpio::OutputPin::pin returns.
pub uninterp spec fn output_bcm(pin: rppal::gpio::OutputPin) -> u8;

/// The BCM number an input pin is bound to: what
/// rppal::gpio::InputPin::pin returns.
pub uninterp spec fn input_bcm(pin: rppal::gpio::InputPin) -> u8;

/// Relies on rppal::gpio::Gpio::new: opens the GPIO peripheral, and fails
/// when the board cannot be identified or the GPIO device cannot be opened.
pub assume_specification[ rppal::gpio::Gpio::new ]() -> (r: Result<
    rppal::gpio::Gpio,
    rppal::gpio::Error,
>);

/// Relies on rppal::gpio::Gpio::get: claims the pin with the given BCM
/// number, and fails when the number is out of range or the pin is taken.
/// A returned pin is bound to exactly the requested number.
pub assume_specification[ rppal::gpio::Gpio::get ](
    gpio: &rppal::gpio::Gpio,
    pin: u8,
) -> (r: Result<rppal::gpio::Pin, rppal::gpio::Error>)
    ensures
        r matches Ok(p) ==> pin_bcm(p) == pin,
;

/// Relies on rppal::gpio::Pin::into_output: reconfigures the claimed pin as
/// a digital output, leaving its logic level unchanged and keeping its
/// binding.
pub assume_specification[ rppal::gpio::Pin::into_output ](pin: rppal::gpio::Pin) -> (r:
    rppal::gpio::OutputPin)
    ensures
        output_bcm(r) == pin_bcm(pin),
;

/// Relies on rppal::gpio::Pin::into_input_pullup: reconfigures the claimed
/// pin as a digital input with the built-in pull-up resistor enabled,
/// keeping its binding.
pub assume_specification[ rppal::gpio::Pin::into_input_pullup ](pin: rppal::gpio::Pin) -> (r:
    rppal::gpio::InputPin)
    ensures
        input_bcm(r) == pin_bcm(pin),
;

/// Relies on rppal::hal::Delay::new: constructs the (stateless) delay
/// provider.
pub assume_specification[ rppal::hal::Delay::new ]() -> (r: rppal::hal::Delay);

/// The two output lines of the LED link (clock and data) and the inter-bit
/// timer, with the ghost trace of every wire command issued through them.
pub struct LedLink {
    clk: rppal::gpio::OutputPin,
    dat: rppal::gpio::OutputPin,
    timer: rppal::hal::Delay,
    clk_bcm: Ghost<u8>,
    dat_bcm: Ghost<u8>,
    events: Ghost<Seq<WireEvent>>,
}

impl LedLink {
    /// The BCM number the clock line is bound to.
    pub closed spec fn clk_bcm(self) -> u8 {
        self.clk_bcm@
    }

    /// The BCM number the data line is bound to.
    pub closed spec fn dat_bcm(self) -> u8 {
        self.dat_bcm@
    }

    /// Every wire command issued on this link since construction, in order.
    pub closed spec fn events(self) -> Seq<WireEvent> {
        self.events@
    }

    /// Builds the link from the two converted output lines and the timer.
    /// A fresh link keeps the lines' bindings and has issued no wire
    /// command; afterwards only the trusted wrappers below extend the
    /// record.
    pub(crate) fn assemble(
        clk: rppal::gpio::OutputPin,
        dat: rppal::gpio::OutputPin,
        timer: rppal::hal::Delay,
    ) -> (link: LedLink)
        ensures
            link.clk_bcm() == output_bcm(clk),
            link.dat_bcm() == output_bcm(dat),
            link.events() == Seq::<WireEvent>::empty(),
    {
        let ghost clk_n = output_bcm(clk);
        let ghost dat_n = output_bcm(dat);
        LedLink {
            clk,
            dat,
            timer,
            clk_bcm: Ghost(clk_n),
            dat_bcm: Ghost(dat_n),
            events: Ghost(Seq::empty()),
        }
    }

    /// Relies on rppal::gpio::OutputPin::set_high on the data line.
    #[verifier::external_body]
    pub(crate) fn data_high(&mut self)
        ensures
            final(self).events() == old(self).events().push(WireEvent::Data(true)),
            final(self).clk_bcm() == old(self).clk_bcm(),
            final(self).dat_bcm() == old(self).dat_bcm(),
    {
        self.dat.set_high();
    }

    /// Relies on rppal::gpio::OutputPin::set_low on the data line.
    #[verifier::external_body]
    pub(crate) fn data_low(&mut self)
        ensures
            final(self).events() == old(self).events().push(WireEvent::Data(false)),
            final(self).clk_bcm() == old(self).clk_bcm(),
            final(self).dat_bcm() == old(self).dat_bcm(),
    {
        self.dat.set_low();
    }

    /// Relies on rppal::gpio::OutputPin::set_high on the clock line.
    #[verifier::external_body]
    pub(crate) fn clock_high(&mut self)
        ensures
            final(self).events() == old(self).events().push(WireEvent::ClockHigh),
            final(self).clk_bcm() == old(self).clk_bcm(),
            final(self).dat_bcm() == old(self).dat_bcm(),
    {
        self.clk.set_high();
    }

    /// Relies on rppal::gpio::OutputPin::set_low on the clock line.
    #[verifier::external_body]
    pub(crate) fn clock_low(&mut self)
        ensures
            final(self).events() == old(self).events().push(WireEvent::ClockLow),
            final(self).clk_bcm() == old(self).clk_bcm(),
            final(self).dat_bcm() == old(self).dat_bcm(),
    {
        self.clk.set_low();
    }

    /// Relies on rppal::hal::Delay's embedded_hal::delay::DelayNs impl:
    /// blocks the calling thread for at least `ns` nanoseconds (a spin
    /// sleep; the host may stretch it arbitrarily, never shorten it below
    /// the request).
    #[verifier::external_body]
    pub(crate) fn hold_ns(&mut self, ns: u32)
        ensures
            final(self).events() == old(self).events().push(WireEvent::Hold(ns)),
            final(self).clk_bcm() == old(self).clk_bcm(),
            final(self).dat_bcm() == old(self).dat_bcm(),
    {
        embedded_hal::delay::DelayNs::delay_ns(&mut self.timer, ns)
    }
}

/// The fan's output line, with the ghost record of every level commanded on
/// it.
pub struct FanLine {
    pin: rppal::gpio::OutputPin,
    bcm: Ghost<u8>,
    history: Ghost<Seq<bool>>,
}

impl FanLine {
    /// The BCM number the fan line is bound to.
    pub closed spec fn bcm(self) -> u8 {
        self.bcm@
    }

    /// Every level commanded on the fan line since construction, in order
    /// (true = high).
    pub closed spec fn history(self) -> Seq<bool> {
        self.history@
    }

    /// Builds the fan line from the converted output pin. A fresh line
    /// keeps the pin's binding and has been commanded nothing; afterwards
    /// only the trusted wrappers below extend the record.
    pub(crate) fn assemble(pin: rppal::gpio::OutputPin) -> (line: FanLine)
        ensures
            line.bcm() == output_bcm(pin),
            line.history() == Seq::<bool>::empty(),
    {
        let ghost n = output_bcm(pin);
        FanLine { pin, bcm: Ghost(n), history: Ghost(Seq::empty()) }
    }

    /// Relies on rppal::gpio::OutputPin::set_high: drives the fan line to
    /// logical high.
    #[verifier::external_body]
    pub(crate) fn drive_high(&mut self)
        ensures
            final(self).history() == old(self).history().push(true),
            final(self).bcm() == old(self).bcm(),
    {
        self.pin.set_high();
    }

    /// Relies on rppal::gpio::OutputPin::set_low: drives the fan line to
    /// logical low.
    #[verifier::external_body]
    pub(crate) fn drive_low(&mut self)
        ensures
            final(self).history() == old(self).history().push(false),
            final(self).bcm() == old(self).bcm(),
    {
        self.pin.set_low();
    }
}

/// The button's input line. It offers no write operation at all, so reading
/// it can mutate no pin state.
pub struct ButtonLine {
    pin: rppal::gpio::InputPin,
    bcm: Ghost<u8>,
}

impl ButtonLine {
    /// The BCM number the button line is bound to.
    pub closed spec fn bcm(self) -> u8 {
        self.bcm@
    }

    /// Builds the button line from the converted pull-up input pin, keeping
    /// its binding.
    pub(crate) fn assemble(pin: rppal::gpio::InputPin) -> (line: ButtonLine)
        ensures
            line.bcm() == input_bcm(pin),
    {
        let ghost n = input_bcm(pin);
        ButtonLine { pin, bcm: Ghost(n) }
    }

    /// Relies on rppal::gpio::InputPin::read: returns the line's
    /// instantaneous logic level. The level depends on the hardware alone,
    /// so nothing is promised of the result beyond its two-valued type.
    #[verifier::external_body]
    pub(crate) fn read(&self) -> PinLevel {
        match self.pin.read() {
            rppal::gpio::Level::High => PinLevel::High,
            rppal::gpio::Level::Low => PinLevel::Low,
        }
    }
}

} // verus!
