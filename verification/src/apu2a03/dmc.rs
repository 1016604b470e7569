//! The delta modulation channel: plays 1-bit delta-encoded samples that it
//! reads from CPU memory, one byte at a time, and can raise an IRQ when a
//! sample ends.

use vstd::prelude::*;
use crate::apu2a03::tone_source::TimedAPUChannel;
use crate::bits::lemma_register_masks;

verus! {

/// The DMC rates in CPU clocks (NTSC).
pub const DMC_PERIOD_RATES_NTSC: [u16; 16] = [
    428, 380, 340, 320, 286, 254, 226, 214, 190, 160, 142, 128, 106, 84, 72, 54,
];

#[derive(Clone, Copy)]
pub struct Dmc {
    pub period: u16,
    pub current_timer: u16,
    pub samples_address: u16,
    pub samples_length: u16,
    pub samples_address_counter: u16,
    pub samples_remaining_bytes_counter: u16,
    pub sample_buffer: u8,
    pub sample_buffer_empty: bool,
    pub output_shift_register: u8,
    pub shifter_remaining_bits_counter: u8,
    pub output_silence_flag: bool,
    pub silence_on_next_empty: bool,
    pub output_level: u8,
    pub loop_flag: bool,
    pub irq_enabled_flag: bool,
    pub irq_pin_state: bool,
    pub is_irq_change_requested: bool,
}

/// The address after `address` in sample memory: it wraps from 0xFFFF
/// to 0x8000.
pub open spec fn next_sample_address(address: u16) -> u16 {
    if address == 0xFFFF {
        0x8000
    } else {
        (address + 1) as u16
    }
}

impl Dmc {
    /// A channel at power-up.
    pub open spec fn spec_new() -> Dmc {
        Dmc {
            period: 0,
            current_timer: 0,
            samples_address: 0,
            samples_length: 0,
            samples_address_counter: 0,
            samples_remaining_bytes_counter: 0,
            sample_buffer: 0,
            sample_buffer_empty: true,
            output_shift_register: 0,
            shifter_remaining_bits_counter: 0,
            output_silence_flag: false,
            silence_on_next_empty: false,
            output_level: 0,
            loop_flag: false,
            irq_enabled_flag: false,
            irq_pin_state: false,
            is_irq_change_requested: false,
        }
    }

    /// The output unit after one step: the level moves by 2 in the
    /// direction of the next bit (staying in 0..=127) unless silenced, and
    /// the shift register moves on; after the eighth bit the next byte is
    /// taken from the sample buffer, or the unit falls silent when it is
    /// empty.
    pub open spec fn spec_output_step(self) -> Dmc {
        let bit_set = self.output_shift_register & 1 != 0;
        let level: u8 = if self.output_silence_flag {
            self.output_level
        } else if bit_set && self.output_level <= 125 {
            (self.output_level + 2) as u8
        } else if !bit_set && self.output_level >= 2 {
            (self.output_level - 2) as u8
        } else {
            self.output_level
        };
        let shifted = Dmc {
            output_level: level,
            output_shift_register: self.output_shift_register >> 1u8,
            // a counter at 0 wraps around to 255
            shifter_remaining_bits_counter: ((self.shifter_remaining_bits_counter + 255) % 256) as u8,
            ..self
        };
        if shifted.shifter_remaining_bits_counter != 0 {
            shifted
        } else if shifted.sample_buffer_empty {
            Dmc { shifter_remaining_bits_counter: 8, output_silence_flag: true, ..shifted }
        } else {
            Dmc {
                shifter_remaining_bits_counter: 8,
                output_shift_register: shifted.sample_buffer,
                sample_buffer_empty: true,
                output_silence_flag: shifted.silence_on_next_empty,
                silence_on_next_empty: false,
                ..shifted
            }
        }
    }

    /// The state after `submit_buffer_byte(byte)`: the byte fills the buffer,
    /// the address moves on, and one byte less remains; when none remain
    /// the sample restarts (loop) or the IRQ is raised (IRQ enabled).
    pub open spec fn spec_after_byte(self, byte: u8) -> Dmc {
        let read = Dmc {
            sample_buffer: byte,
            sample_buffer_empty: false,
            samples_address_counter: next_sample_address(self.samples_address_counter),
            samples_remaining_bytes_counter: if self.samples_remaining_bytes_counter == 0 {
                0
            } else {
                (self.samples_remaining_bytes_counter - 1) as u16
            },
            ..self
        };
        if read.samples_remaining_bytes_counter != 0 {
            read
        } else if read.loop_flag {
            Dmc {
                samples_remaining_bytes_counter: read.samples_length,
                samples_address_counter: read.samples_address,
                ..read
            }
        } else if read.irq_enabled_flag {
            Dmc { irq_pin_state: true, is_irq_change_requested: true, ..read }
        } else {
            read
        }
    }

    pub fn new() -> (d: Self)
        ensures
            d == Dmc::spec_new(),
    {
        Self {
            period: 0,
            current_timer: 0,
            samples_address: 0,
            samples_length: 0,
            samples_address_counter: 0,
            samples_remaining_bytes_counter: 0,
            sample_buffer: 0,
            sample_buffer_empty: true,
            output_shift_register: 0,
            shifter_remaining_bits_counter: 0,
            output_silence_flag: false,
            silence_on_next_empty: false,
            output_level: 0,
            loop_flag: false,
            irq_enabled_flag: false,
            irq_pin_state: false,
            is_irq_change_requested: false,
        }
    }

    /// Enables or disables the IRQ; disabling clears the IRQ pin and asks
    /// for the change to be seen.
    pub fn set_irq_enabled_flag(&mut self, flag: bool)
        ensures
            *final(self) == (if flag {
                Dmc { irq_enabled_flag: true, ..*old(self) }
            } else {
                Dmc { irq_enabled_flag: false, irq_pin_state: false, is_irq_change_requested: true, ..*old(self) }
            }),
    {
        self.irq_enabled_flag = flag;
        if !flag {
            self.irq_pin_state = false;
            self.is_irq_change_requested = true;
        }
    }

    pub fn set_loop_flag(&mut self, flag: bool)
        ensures
            *final(self) == (Dmc { loop_flag: flag, ..*old(self) }),
    {
        self.loop_flag = flag;
    }

    /// Selects the rate: the table's period in CPU clocks, halved to count
    /// APU clocks.
    pub fn set_rate_index(&mut self, rate_index: u8)
        ensures
            *final(self) == (Dmc {
                period: DMC_PERIOD_RATES_NTSC@[(rate_index & 0xF) as int] / 2,
                ..*old(self)
            }),
    {
        proof {
            lemma_register_masks(rate_index);
        }
        // since the table is in CPU clocks, /2 to make it in APU clocks periods
        self.period = DMC_PERIOD_RATES_NTSC[(rate_index & 0xF) as usize] / 2;
    }

    pub fn set_direct_output_level_load(&mut self, output_level: u8)
        ensures
            *final(self) == (Dmc { output_level: output_level & 0x7F, ..*old(self) }),
    {
        self.output_level = output_level & 0x7F;
    }

    /// The sample starts at 0xC000 + 64 * `address`.
    pub fn set_samples_address(&mut self, address: u8)
        ensures
            *final(self) == (Dmc { samples_address: (0xC000 + 64 * address) as u16, ..*old(self) }),
    {
        assert(0xC000u16 | ((address as u16) << 6u16) == 0xC000 + 64 * address) by (bit_vector);
        self.samples_address = 0xC000 | ((address as u16) << 6);
    }

    /// The sample is 16 * `length` + 1 bytes long.
    pub fn set_samples_length(&mut self, length: u8)
        ensures
            *final(self) == (Dmc { samples_length: (16 * length + 1) as u16, ..*old(self) }),
    {
        assert((length as u16) << 4u16 == 16 * length) by (bit_vector);
        self.samples_length = ((length as u16) << 4) + 1;
    }

    /// The address the channel wants read next: when its buffer is empty
    /// and bytes of the sample remain.
    pub fn request_dmc_reader_read(&self) -> (r: Option<u16>)
        ensures
            r == (if self.sample_buffer_empty && self.samples_remaining_bytes_counter != 0 {
                Some(self.samples_address_counter)
            } else {
                None
            }),
    {
        if self.sample_buffer_empty && self.samples_remaining_bytes_counter != 0 {
            Some(self.samples_address_counter)
        } else {
            None
        }
    }

    /// Hands the channel the byte it asked for.
    pub fn submit_buffer_byte(&mut self, byte: u8)
        requires
            old(self).sample_buffer_empty,
        ensures
            *final(self) == old(self).spec_after_byte(byte),
    {
        self.sample_buffer = byte;
        self.sample_buffer_empty = false;
        self.samples_address_counter = if self.samples_address_counter == 0xFFFF {
            // overflow
            0x8000
        } else {
            self.samples_address_counter + 1
        };
        self.samples_remaining_bytes_counter = self.samples_remaining_bytes_counter.saturating_sub(1);
        if self.samples_remaining_bytes_counter == 0 {
            if self.loop_flag {
                self.restart_sample();
            } else if self.irq_enabled_flag {
                self.irq_pin_state = true;
                self.is_irq_change_requested = true;
            }
        }
    }

    pub fn sample_remaining_bytes_more_than_0(&self) -> (r: bool)
        ensures
            r == (self.samples_remaining_bytes_counter > 0),
    {
        self.samples_remaining_bytes_counter > 0
    }

    pub fn get_irq_pin_state(&self) -> (r: bool)
        ensures
            r == self.irq_pin_state,
    {
        self.irq_pin_state
    }

    pub fn is_irq_change_requested(&self) -> (r: bool)
        ensures
            r == self.is_irq_change_requested,
    {
        self.is_irq_change_requested
    }

    pub fn clear_irq_request_pin(&mut self)
        ensures
            *final(self) == (Dmc { is_irq_change_requested: false, ..*old(self) }),
    {
        self.is_irq_change_requested = false;
    }

    pub fn clear_interrupt_flag(&mut self)
        ensures
            *final(self) == (Dmc { irq_pin_state: false, is_irq_change_requested: true, ..*old(self) }),
    {
        self.irq_pin_state = false;
        self.is_irq_change_requested = true;
    }

    /// Stops the sample; the output falls silent once the buffer empties.
    pub fn clear_sample_remaining_bytes_and_silence(&mut self)
        ensures
            *final(self) == (Dmc {
                samples_remaining_bytes_counter: 0,
                silence_on_next_empty: true,
                ..*old(self)
            }),
    {
        self.samples_remaining_bytes_counter = 0;
        self.silence_on_next_empty = true;
    }

    /// Starts the sample again from its address with its full length.
    pub fn restart_sample(&mut self)
        ensures
            *final(self) == (Dmc {
                samples_remaining_bytes_counter: old(self).samples_length,
                samples_address_counter: old(self).samples_address,
                ..*old(self)
            }),
    {
        self.samples_remaining_bytes_counter = self.samples_length;
        self.samples_address_counter = self.samples_address;
    }

    /// The channel's level, 0 to 127.
    pub fn output_level(&self) -> (level: u8)
        ensures
            level == self.output_level & 0x7F,
    {
        self.output_level & 0x7F
    }
}

impl TimedAPUChannel for Dmc {
    /// When the timer has run out the output unit steps and the timer
    /// reloads from the period; otherwise the timer counts down.
    open spec fn spec_timer_clock(self) -> Dmc {
        if self.current_timer == 0 {
            Dmc { current_timer: self.period, ..self.spec_output_step() }
        } else {
            Dmc { current_timer: (self.current_timer - 1) as u16, ..self }
        }
    }

    /// The channel can always be clocked.
    open spec fn spec_can_clock(self) -> bool {
        true
    }

    fn timer_clock(&mut self) {
        if self.current_timer == 0 {
            if !self.output_silence_flag {
                if self.output_shift_register & 1 != 0 && self.output_level <= 125 {
                    self.output_level += 2;
                } else if self.output_shift_register & 1 == 0 && self.output_level >= 2 {
                    self.output_level -= 2;
                }
            }
            self.output_shift_register >>= 1;
            self.shifter_remaining_bits_counter = self.shifter_remaining_bits_counter.wrapping_sub(1);
            if self.shifter_remaining_bits_counter == 0 {
                self.shifter_remaining_bits_counter = 8;
                if self.sample_buffer_empty {
                    self.output_silence_flag = true;
                } else {
                    self.output_silence_flag = false;
                    self.output_shift_register = self.sample_buffer;
                    self.sample_buffer_empty = true;
                    if self.silence_on_next_empty {
                        self.output_silence_flag = true;
                        self.silence_on_next_empty = false;
                    }
                }
            }
            self.current_timer = self.period;
        } else {
            self.current_timer -= 1;
        }
    }
}

/// The output level stays in 0..=127: one timer clock keeps it there.
pub proof fn lemma_output_level_in_range(d: Dmc)
    requires
        d.output_level <= 127,
    ensures
        d.spec_timer_clock().output_level <= 127,
{
}

/// Once the shift counter is running (1 to 8) it stays so: a timer clock
/// never leaves it at 0.
pub proof fn lemma_can_clock_again(d: Dmc)
    requires
        1 <= d.shifter_remaining_bits_counter <= 8,
    ensures
        1 <= d.spec_timer_clock().shifter_remaining_bits_counter <= 8,
{
}

/// A sample of n bytes (n > 0, loop clear, IRQ enabled) raises the IRQ on
/// its last byte, and not before: after each of the first n - 1 bytes some
/// remain and the pin is as it was.
pub proof fn lemma_last_byte_raises_irq(d: Dmc, byte: u8)
    requires
        !d.loop_flag,
        d.irq_enabled_flag,
        d.samples_remaining_bytes_counter >= 1,
    ensures
        d.samples_remaining_bytes_counter == 1 ==> d.spec_after_byte(byte).irq_pin_state
            && d.spec_after_byte(byte).samples_remaining_bytes_counter == 0,
        d.samples_remaining_bytes_counter > 1 ==> d.spec_after_byte(byte).irq_pin_state == d.irq_pin_state
            && d.spec_after_byte(byte).samples_remaining_bytes_counter == d.samples_remaining_bytes_counter - 1,
{
}

/// The delta step of the output unit: unless silenced, a 1 bit at the bottom
/// of the shift register raises the level by 2 and a 0 bit lowers it by 2,
/// each only while the result stays within 0..127; the register moves down
/// one bit, and after its last bit it takes the byte waiting in the buffer.
/// A silenced unit keeps its level.
pub proof fn lemma_output_delta(d: Dmc)
    ensures
        ({
            let n = d.spec_output_step();
            let up = d.output_shift_register % 2 == 1;
            &&& d.output_silence_flag ==> n.output_level == d.output_level
            &&& (!d.output_silence_flag && up && d.output_level + 2 <= 127) ==> n.output_level
                == d.output_level + 2
            &&& (!d.output_silence_flag && !up && d.output_level >= 2) ==> n.output_level
                == d.output_level - 2
            &&& (!d.output_silence_flag && up && d.output_level + 2 > 127) ==> n.output_level
                == d.output_level
            &&& (!d.output_silence_flag && !up && d.output_level < 2) ==> n.output_level
                == d.output_level
            &&& d.shifter_remaining_bits_counter != 1 ==> n.output_shift_register as int
                == d.output_shift_register / 2
            &&& (d.shifter_remaining_bits_counter == 1 && !d.sample_buffer_empty) ==> n.output_shift_register
                == d.sample_buffer && n.shifter_remaining_bits_counter == 8 && n.sample_buffer_empty
        }),
{
    crate::bits::lemma_byte_sign(d.output_shift_register);
    crate::bits::lemma_byte_bits_low(d.output_shift_register);
    crate::bits::lemma_byte_shift_right(d.output_shift_register);
}

} // verus!
