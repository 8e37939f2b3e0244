//! The device handle: exclusive ownership of the four GPIO lines (clock,
//! data, button, fan), with the LED color protocol, fan switching and button
//! polling. Every contract is stated over the records kept at the trusted
//! pin boundary: the wire commands issued on the LED link, the levels
//! commanded on the fan line, and the BCM numbers the lines are bound to.

use vstd::prelude::*;

use crate::encoding::byte_bits;
use crate::encoding::byte_bits_spec;
use crate::encoding::byte_events;
use crate::encoding::clamped_brightness;
use crate::encoding::command_byte_spec;
use crate::encoding::events_of_bits;
use crate::encoding::events_of_bytes;
use crate::encoding::frame_bytes_spec;
use crate::encoding::frame_events_spec;
use crate::encoding::lemma_events_of_bits_take_step;
use crate::encoding::lemma_events_of_bytes_concat;
use crate::encoding::lemma_events_of_bytes_four;
use crate::encoding::lemma_events_of_bytes_push;
use crate::encoding::WireEvent;
use crate::encoding::HALF_CYCLE_NS;
use crate::hw::ButtonLine;
use crate::hw::FanLine;
use crate::hw::LedLink;

verus! {

/// Logic level of a GPIO pin.
#[derive(Clone, Copy, Debug, PartialEq, Eq, Structural)]
pub enum PinLevel {
    Low,
    High,
}

/// Failure to acquire the four pins at construction: no handle is produced.
#[derive(Debug)]
pub struct AcquisitionError {
    /// BCM number of the pin whose claim failed, or `None` when the GPIO
    /// peripheral itself could not be opened.
    pub pin: Option<u8>,
    /// The GPIO subsystem's own account of the failure.
    pub source: rppal::gpio::Error,
}

/// BCM number of the LED clock line.
pub const CLOCK_PIN: u8 = 14;

/// BCM number of the LED data line.
pub const DATA_PIN: u8 = 15;

/// BCM number of the button line.
pub const BUTTON_PIN: u8 = 17;

/// BCM number of the fan line.
pub const FAN_PIN: u8 = 18;

pub struct Fanshim {
    link: LedLink,
    btn: ButtonLine,
    fan: FanLine,
}

impl Fanshim {
    /// Every wire command issued on the LED link (clock and data lines)
    /// since construction, in order.
    pub closed spec fn led_events(self) -> Seq<WireEvent> {
        self.link.events()
    }

    /// Every level commanded on the fan line since construction, in order
    /// (true = high).
    pub closed spec fn fan_history(self) -> Seq<bool> {
        self.fan.history()
    }

    /// The level last commanded on the fan line, or `None` before the first
    /// command (the pin's initial output state is whatever the GPIO
    /// subsystem left there).
    pub open spec fn fan_commanded(self) -> Option<bool> {
        if self.fan_history().len() == 0 {
            None
        } else {
            Some(self.fan_history().last())
        }
    }

    /// The BCM numbers the four lines are bound to, in clock, data, button,
    /// fan order; fixed at construction and never rebound.
    pub closed spec fn pins_bound(self) -> (u8, u8, u8, u8) {
        (self.link.clk_bcm(), self.link.dat_bcm(), self.btn.bcm(), self.fan.bcm())
    }

    /// Acquires the four pins by their fixed BCM numbers: clock and data as
    /// outputs, the button as an input with pull-up, the fan as an output.
    /// If any acquisition fails, the whole construction fails, the error
    /// names the pin whose claim failed (or none, when the GPIO peripheral
    /// itself could not be opened), and no handle is produced. A fresh
    /// handle is bound to exactly the four fixed pins, has issued no wire
    /// command, and has not yet commanded the fan line.
    pub fn default_config() -> (result: Result<Fanshim, AcquisitionError>)
        ensures
            result matches Ok(fs) ==> {
                &&& fs.pins_bound() == (CLOCK_PIN, DATA_PIN, BUTTON_PIN, FAN_PIN)
                &&& fs.led_events() == Seq::<WireEvent>::empty()
                &&& fs.fan_history() == Seq::<bool>::empty()
                &&& fs.fan_commanded() is None
            },
            result matches Err(e) ==> (e.pin is None || e.pin == Some(CLOCK_PIN) || e.pin == Some(
                DATA_PIN,
            ) || e.pin == Some(BUTTON_PIN) || e.pin == Some(FAN_PIN)),
    {
        let gpio = match rppal::gpio::Gpio::new() {
            Ok(g) => g,
            Err(e) => {
                return Err(AcquisitionError { pin: None, source: e });
            },
        };
        let clk = match gpio.get(CLOCK_PIN) {
            Ok(p) => p,
            Err(e) => {
                return Err(AcquisitionError { pin: Some(CLOCK_PIN), source: e });
            },
        };
        let dat = match gpio.get(DATA_PIN) {
            Ok(p) => p,
            Err(e) => {
                return Err(AcquisitionError { pin: Some(DATA_PIN), source: e });
            },
        };
        let btn = match gpio.get(BUTTON_PIN) {
            Ok(p) => p,
            Err(e) => {
                return Err(AcquisitionError { pin: Some(BUTTON_PIN), source: e });
            },
        };
        let fan = match gpio.get(FAN_PIN) {
            Ok(p) => p,
            Err(e) => {
                return Err(AcquisitionError { pin: Some(FAN_PIN), source: e });
            },
        };
        let link = LedLink::assemble(clk.into_output(), dat.into_output(), rppal::hal::Delay::new());
        let btn = ButtonLine::assemble(btn.into_input_pullup());
        let fan = FanLine::assemble(fan.into_output());
        Ok(Fanshim { link, btn, fan })
    }

    /// Drives the fan line to logical high. Cannot fail, and touches no
    /// other line; the resulting commanded level does not depend on the
    /// state before the call, so repeating the call changes nothing further.
    pub fn fan_on(&mut self)
        ensures
            final(self).fan_history() == old(self).fan_history().push(true),
            final(self).fan_commanded() == Some(true),
            final(self).led_events() == old(self).led_events(),
            final(self).pins_bound() == old(self).pins_bound(),
    {
        self.fan.drive_high();
    }

    /// Drives the fan line to logical low. Cannot fail, and touches no
    /// other line; the resulting commanded level does not depend on the
    /// state before the call, so repeating the call changes nothing further.
    pub fn fan_off(&mut self)
        ensures
            final(self).fan_history() == old(self).fan_history().push(false),
            final(self).fan_commanded() == Some(false),
            final(self).led_events() == old(self).led_events(),
            final(self).pins_bound() == old(self).pins_bound(),
    {
        self.fan.drive_low();
    }

    /// Clocks one byte out on the data line, most significant bit first:
    /// for each bit the data line is set to the bit's value, then the clock
    /// line is pulsed high and low, each phase held for the inter-bit delay.
    /// The fan and button lines are untouched.
    fn write_byte(&mut self, byte: u8)
        ensures
            final(self).led_events() == old(self).led_events() + byte_events(byte),
            final(self).fan_history() == old(self).fan_history(),
            final(self).pins_bound() == old(self).pins_bound(),
    {
        let levels = byte_bits(byte);
        let mut i: usize = 0;
        while i < 8
            invariant
                i <= 8,
                levels@ == byte_bits_spec(byte),
                self.link.events() == old(self).link.events() + events_of_bits(
                    byte_bits_spec(byte).take(i as int),
                ),
                self.link.clk_bcm() == old(self).link.clk_bcm(),
                self.link.dat_bcm() == old(self).link.dat_bcm(),
                self.btn == old(self).btn,
                self.fan == old(self).fan,
            decreases 8 - i,
        {
            let ghost pre = self.link.events();
            if levels[i] {
                self.link.data_high();
            } else {
                self.link.data_low();
            }
            self.link.clock_high();
            self.link.hold_ns(HALF_CYCLE_NS);
            self.link.clock_low();
            self.link.hold_ns(HALF_CYCLE_NS);
            proof {
                let bits = byte_bits_spec(byte);
                lemma_events_of_bits_take_step(bits, i as int);
                assert(self.link.events() =~= pre + crate::encoding::bit_events(bits[i as int]));
                assert(self.link.events() =~= old(self).link.events() + events_of_bits(
                    bits.take(i as int + 1),
                ));
            }
            i += 1;
        }
        proof {
            assert(byte_bits_spec(byte).take(8) =~= byte_bits_spec(byte));
        }
    }

    /// Start of frame: four zero bytes.
    fn sof(&mut self)
        ensures
            final(self).led_events() == old(self).led_events() + events_of_bytes(
                seq![0u8, 0u8, 0u8, 0u8],
            ),
            final(self).fan_history() == old(self).fan_history(),
            final(self).pins_bound() == old(self).pins_bound(),
    {
        self.write_byte(0);
        self.write_byte(0);
        self.write_byte(0);
        self.write_byte(0);
        proof {
            lemma_events_of_bytes_four(0);
            assert(self.link.events() =~= old(self).link.events() + events_of_bytes(
                seq![0u8, 0u8, 0u8, 0u8],
            ));
        }
    }

    /// End of frame: four bytes of 255.
    fn eof(&mut self)
        ensures
            final(self).led_events() == old(self).led_events() + events_of_bytes(
                seq![255u8, 255u8, 255u8, 255u8],
            ),
            final(self).fan_history() == old(self).fan_history(),
            final(self).pins_bound() == old(self).pins_bound(),
    {
        self.write_byte(255);
        self.write_byte(255);
        self.write_byte(255);
        self.write_byte(255);
        proof {
            lemma_events_of_bytes_four(255);
            assert(self.link.events() =~= old(self).link.events() + events_of_bytes(
                seq![255u8, 255u8, 255u8, 255u8],
            ));
        }
    }

    /// Applies one color command to the LED, synchronously and completely:
    /// clocks out the four zero bytes of the start of frame, the command
    /// byte (224 plus the brightness, after the range rule), the color in
    /// blue, green, red order, and the four 255 bytes of the end of frame.
    /// The fan and button lines are untouched.
    pub fn color(&mut self, br: u8, r: u8, g: u8, b: u8)
        ensures
            final(self).led_events() == old(self).led_events() + frame_events_spec(br, r, g, b),
            final(self).fan_history() == old(self).fan_history(),
            final(self).pins_bound() == old(self).pins_bound(),
    {
        let brightness = clamped_brightness(br);
        self.sof();
        self.write_byte(224 + brightness);
        self.write_byte(b);
        self.write_byte(g);
        self.write_byte(r);
        self.eof();
        proof {
            let cmd = command_byte_spec(br);
            let s4 = seq![0u8, 0u8, 0u8, 0u8];
            let s9 = s4.push(cmd).push(b).push(g).push(r);
            let t4 = seq![255u8, 255u8, 255u8, 255u8];
            lemma_events_of_bytes_push(s4, cmd);
            lemma_events_of_bytes_push(s4.push(cmd), b);
            lemma_events_of_bytes_push(s4.push(cmd).push(b), g);
            lemma_events_of_bytes_push(s4.push(cmd).push(b).push(g), r);
            lemma_events_of_bytes_concat(s9, t4);
            assert(frame_bytes_spec(br, r, g, b) =~= s9 + t4);
            assert(self.link.events() =~= old(self).link.events() + frame_events_spec(br, r, g, b));
        }
    }

    /// Turns the LED off: exactly one color command with zero brightness and
    /// zero color, so the wire sees the same frame as `color(0, 0, 0, 0)`.
    pub fn led_off(&mut self)
        ensures
            final(self).led_events() == old(self).led_events() + frame_events_spec(0, 0, 0, 0),
            final(self).fan_history() == old(self).fan_history(),
            final(self).pins_bound() == old(self).pins_bound(),
    {
        self.color(0, 0, 0, 0);
    }

    /// Reads the instantaneous logic level of the button line: one of
    /// exactly two values, with no debouncing. The receiver is shared, and
    /// the button line offers no write operation, so no pin state is
    /// mutated.
    pub fn btn_state(&self) -> (level: PinLevel)
        ensures
            level == PinLevel::High || level == PinLevel::Low,
    {
        self.btn.read()
    }
}

} // verus!
