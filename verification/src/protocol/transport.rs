//! The transport: every exchange with the controller, framed exactly as the
//! chip's bus protocol requires and gated by the hardware-ready line.

use crate::error::Error;
use crate::hal::clock;
use crate::hal::gpio::InputPin;
use crate::hal::gpio::OutputPin;
use crate::hal::gpio::PinState;
use crate::hal::spi::SpiTransfer;
use crate::protocol::commands::Command;
use crate::protocol::commands::UserCommand;
use crate::protocol::registers::Register;
use crate::protocol::wire;
use vstd::prelude::*;

verus! {

/// Default budget for a hardware-ready wait, in milliseconds.
pub const DEFAULT_TIMEOUT_MS: u64 = 5000;

/// The wire-protocol transport: owns the bus, the ready line, and the
/// chip-select line, and frames every exchange.
///
/// Every operation first waits, within the configured budget, for the ready
/// line to go high; its contract states the exact bytes the operation shifts
/// out, over the views of [`SpiTransfer`].
#[derive(Debug)]
pub struct Transport<SPI, HRDY, CS> {
    /// The bus the transport drives.
    pub spi: SPI,
    /// The ready line gating every exchange.
    pub hrdy: HRDY,
    /// The chip-select line framing every exchange.
    pub cs: CS,
    /// The ready-wait budget in milliseconds.
    pub timeout_ms: u64,
}

impl<SPI, HRDY, CS> Transport<SPI, HRDY, CS> where
    SPI: SpiTransfer,
    HRDY: InputPin,
    CS: OutputPin,
 {
    /// What every exchange leaves unchanged: the ready line and the
    /// configured budget.
    pub open spec fn spec_same_config(self, other: Self) -> bool {
        &&& self.hrdy == other.hrdy
        &&& self.timeout_ms == other.timeout_ms
    }

    /// Creates a transport over the given bus and lines, with the default
    /// ready-wait budget.
    pub fn new(spi: SPI, hrdy: HRDY, cs: CS) -> (r: Transport<SPI, HRDY, CS>)
        ensures
            r.spi == spi,
            r.hrdy == hrdy,
            r.cs == cs,
            r.timeout_ms == DEFAULT_TIMEOUT_MS,
    {
        Transport { spi, hrdy, cs, timeout_ms: DEFAULT_TIMEOUT_MS }
    }

    /// Sets the ready-wait budget in milliseconds.
    pub fn set_timeout(&mut self, timeout_ms: u64)
        ensures
            final (self).timeout_ms == timeout_ms,
            final (self).spi == old(self).spi,
            final (self).hrdy == old(self).hrdy,
            final (self).cs == old(self).cs,
    {
        self.timeout_ms = timeout_ms;
    }

    /// Borrows the bus, for inspection.
    pub fn spi(&self) -> (r: &SPI)
        ensures
            r == self.spi,
    {
        &self.spi
    }

    /// Borrows the bus mutably, to prime or inspect a binding that carries
    /// its own state.
    pub fn spi_mut(&mut self) -> (r: &mut SPI)
        ensures
            *r == old(self).spi,
            final (self).spi == *final (r),
            final (self).hrdy == old(self).hrdy,
            final (self).cs == old(self).cs,
            final (self).timeout_ms == old(self).timeout_ms,
    {
        &mut self.spi
    }

    /// Borrows the chip-select line, for inspection.
    pub fn cs(&self) -> (r: &CS)
        ensures
            r == self.cs,
    {
        &self.cs
    }

    /// Waits for the ready line to go high, within the configured budget.
    ///
    /// Fails with a timeout error carrying the budget when the line is not
    /// observed high in time, or with the pin's own error.
    pub fn wait_ready(&self) -> (r: Result<(), Error>)
        ensures
            r is Ok ==> self.hrdy.pin_state() == PinState::High,
            r matches Err(e) ==> e.is_bus_wait(self.timeout_ms),
            self.hrdy.pin_state() == PinState::High ==> (r matches Err(e) ==> e.is_hardware()),
    {
        let start = clock::instant_now();
        let mut polls_left: u64 = u64::MAX;
        while polls_left > 0
            invariant
                self.hrdy.pin_state() == PinState::High ==> polls_left == u64::MAX,
            decreases polls_left,
        {
            match self.hrdy.is_high() {
                Ok(true) => {
                    return Ok(());
                },
                Ok(false) => {},
                Err(e) => {
                    return Err(e);
                },
            }
            if clock::elapsed_millis(&start) > self.timeout_ms {
                return Err(Error::Timeout(self.timeout_ms));
            }
            polls_left -= 1;
            clock::spin_hint();
        }
        Err(Error::Timeout(self.timeout_ms))
    }

    /// Shifts one 16-bit word out, big-endian.
    fn write_u16(&mut self, value: u16) -> (r: Result<(), Error>)
        ensures
            r is Ok ==> {
                &&& final (self).spi.sent() == old(self).spi.sent() + wire::word_bytes(value)
                &&& final (self).spi.pending() == wire::consume(old(self).spi.pending(), 2)
            },
            final (self).cs == old(self).cs,
            final (self).hrdy == old(self).hrdy,
            final (self).timeout_ms == old(self).timeout_ms,
            r matches Err(e) ==> e.is_hardware(),
    {
        let hi = (value / 256) as u8;
        let lo = (value % 256) as u8;
        self.spi.transfer_byte(hi)?;
        self.spi.transfer_byte(lo)?;
        proof {
            assert(final (self).spi.sent() =~= old(self).spi.sent() + wire::word_bytes(value));
            wire::lemma_consume_consume(old(self).spi.pending(), 1, 1);
        }
        Ok(())
    }

    /// Shifts one zero byte out and returns the byte received in exchange.
    fn exchange_zero_byte(&mut self) -> (r: Result<u8, Error>)
        ensures
            r matches Ok(b) ==> {
                &&& final (self).spi.sent() == old(self).spi.sent() + wire::zero_bytes(1)
                &&& b == wire::resp_byte(old(self).spi.pending(), 0)
                &&& final (self).spi.pending() == wire::consume(old(self).spi.pending(), 1)
            },
            final (self).cs == old(self).cs,
            final (self).hrdy == old(self).hrdy,
            final (self).timeout_ms == old(self).timeout_ms,
            r matches Err(e) ==> e.is_hardware(),
    {
        let b = self.spi.transfer_byte(0x00)?;
        proof {
            assert(final (self).spi.sent() =~= old(self).spi.sent() + wire::zero_bytes(1));
        }
        Ok(b)
    }

    /// Reads one 16-bit word, big-endian, by shifting two zero bytes out.
    fn read_u16(&mut self) -> (r: Result<u16, Error>)
        ensures
            r matches Ok(v) ==> {
                &&& final (self).spi.sent() == old(self).spi.sent() + wire::zero_bytes(2)
                &&& v == wire::resp_word(old(self).spi.pending(), 0)
                &&& final (self).spi.pending() == wire::consume(old(self).spi.pending(), 2)
            },
            final (self).cs == old(self).cs,
            final (self).hrdy == old(self).hrdy,
            final (self).timeout_ms == old(self).timeout_ms,
            r matches Err(e) ==> e.is_hardware(),
    {
        let high = self.exchange_zero_byte()?;
        let low = self.exchange_zero_byte()?;
        proof {
            assert(final (self).spi.sent() =~= old(self).spi.sent() + wire::zero_bytes(2));
            wire::lemma_consume_consume(old(self).spi.pending(), 1, 1);
            wire::lemma_resp_byte_consume(old(self).spi.pending(), 1, 0);
        }
        Ok(high as u16 * 256 + low as u16)
    }

    /// Writes a command opcode: the command preamble, then the opcode, one
    /// exchange each, gated by the ready line.
    pub fn write_command(&mut self, cmd: Command) -> (r: Result<(), Error>)
        ensures
            r is Ok ==> {
                &&& final (self).spi.sent() == old(self).spi.sent() + wire::cmd_frame(
                    cmd.spec_code(),
                )
                &&& final (self).spi.pending() == wire::consume(old(self).spi.pending(), 4)
                &&& final (self).cs.pin_state() == PinState::High
            },
            old(self).spec_same_config(*final (self)),
            r matches Err(e) ==> e.is_bus_wait(old(self).timeout_ms),
    {
        self.write_opcode(cmd.as_u16())
    }

    /// Writes a user command opcode, framed exactly as a command write.
    pub fn write_user_command(&mut self, cmd: UserCommand) -> (r: Result<(), Error>)
        ensures
            r is Ok ==> {
                &&& final (self).spi.sent() == old(self).spi.sent() + wire::cmd_frame(
                    cmd.spec_code(),
                )
                &&& final (self).spi.pending() == wire::consume(old(self).spi.pending(), 4)
                &&& final (self).cs.pin_state() == PinState::High
            },
            old(self).spec_same_config(*final (self)),
            r matches Err(e) ==> e.is_bus_wait(old(self).timeout_ms),
    {
        self.write_opcode(cmd.as_u16())
    }

    /// Writes one opcode word under the command preamble.
    fn write_opcode(&mut self, code: u16) -> (r: Result<(), Error>)
        ensures
            r is Ok ==> {
                &&& final (self).spi.sent() == old(self).spi.sent() + wire::cmd_frame(code)
                &&& final (self).spi.pending() == wire::consume(old(self).spi.pending(), 4)
                &&& final (self).cs.pin_state() == PinState::High
            },
            old(self).spec_same_config(*final (self)),
            r matches Err(e) ==> e.is_bus_wait(old(self).timeout_ms),
    {
        self.wait_ready()?;
        self.cs.set_low()?;
        self.write_u16(wire::PREAMBLE_WRITE_CMD)?;
        self.wait_ready()?;
        self.write_u16(code)?;
        self.cs.set_high()?;
        proof {
            assert(final (self).spi.sent() =~= old(self).spi.sent() + wire::cmd_frame(code));
            wire::lemma_consume_consume(old(self).spi.pending(), 2, 2);
        }
        Ok(())
    }

    /// Writes one data word: the data preamble, then the word, gated by the
    /// ready line.
    pub fn write_data(&mut self, data: u16) -> (r: Result<(), Error>)
        ensures
            r is Ok ==> {
                &&& final (self).spi.sent() == old(self).spi.sent() + wire::data_frame(data)
                &&& final (self).spi.pending() == wire::consume(old(self).spi.pending(), 4)
                &&& final (self).cs.pin_state() == PinState::High
            },
            old(self).spec_same_config(*final (self)),
            r matches Err(e) ==> e.is_bus_wait(old(self).timeout_ms),
    {
        self.wait_ready()?;
        self.cs.set_low()?;
        self.write_u16(wire::PREAMBLE_WRITE_DATA)?;
        self.wait_ready()?;
        self.write_u16(data)?;
        self.cs.set_high()?;
        proof {
            assert(final (self).spi.sent() =~= old(self).spi.sent() + wire::data_frame(data));
            wire::lemma_consume_consume(old(self).spi.pending(), 2, 2);
        }
        Ok(())
    }

    /// Writes a batch of data words in one data-write session: one data
    /// preamble, then every word.
    pub fn write_data_batch(&mut self, data: &[u16]) -> (r: Result<(), Error>)
        ensures
            r is Ok ==> {
                &&& final (self).spi.sent() == old(self).spi.sent() + wire::batch_frame(data@)
                &&& final (self).spi.pending() == wire::consume(
                    old(self).spi.pending(),
                    2 + 2 * data@.len() as int,
                )
                &&& final (self).cs.pin_state() == PinState::High
            },
            old(self).spec_same_config(*final (self)),
            r matches Err(e) ==> e.is_bus_wait(old(self).timeout_ms),
    {
        self.wait_ready()?;
        self.cs.set_low()?;
        self.write_u16(wire::PREAMBLE_WRITE_DATA)?;
        self.wait_ready()?;
        let mut i: usize = 0;
        while i < data.len()
            invariant
                i <= data@.len(),
                self.spi.sent() == old(self).spi.sent() + wire::word_bytes(
                    wire::PREAMBLE_WRITE_DATA,
                ) + wire::words_bytes(data@.take(i as int)),
                self.spi.pending() == wire::consume(old(self).spi.pending(), 2 + 2 * i),
                self.hrdy == old(self).hrdy,
                self.timeout_ms == old(self).timeout_ms,
            decreases data@.len() - i,
        {
            let ghost before = self.spi.pending();
            self.write_u16(data[i])?;
            i += 1;
            proof {
                assert(data@.take(i as int) =~= data@.take(i - 1).push(data@[i - 1]));
                wire::lemma_words_bytes_push(data@.take(i - 1), data@[i - 1]);
                assert(self.spi.sent() =~= old(self).spi.sent() + wire::word_bytes(
                    wire::PREAMBLE_WRITE_DATA,
                ) + wire::words_bytes(data@.take(i as int)));
                wire::lemma_consume_consume(old(self).spi.pending(), 2 + 2 * (i - 1), 2);
            }
        }
        self.cs.set_high()?;
        proof {
            assert(data@.take(data@.len() as int) =~= data@);
            assert(final (self).spi.sent() =~= old(self).spi.sent() + wire::batch_frame(data@));
        }
        Ok(())
    }

    /// Reads one data word: the read preamble, the device's two-byte
    /// turnaround gap, then the word, gated by the ready line.
    pub fn read_data(&mut self) -> (r: Result<u16, Error>)
        ensures
            r matches Ok(v) ==> {
                &&& final (self).spi.sent() == old(self).spi.sent() + wire::read_frame(1)
                &&& v == wire::resp_word(old(self).spi.pending(), 4)
                &&& final (self).spi.pending() == wire::consume(old(self).spi.pending(), 6)
                &&& final (self).cs.pin_state() == PinState::High
            },
            old(self).spec_same_config(*final (self)),
            r matches Err(e) ==> e.is_bus_wait(old(self).timeout_ms),
    {
        self.wait_ready()?;
        self.cs.set_low()?;
        self.write_u16(wire::PREAMBLE_READ_DATA)?;
        self.wait_ready()?;
        self.exchange_zero_byte()?;
        self.exchange_zero_byte()?;
        self.wait_ready()?;
        let data = self.read_u16()?;
        self.cs.set_high()?;
        proof {
            assert(final (self).spi.sent() =~= old(self).spi.sent() + wire::read_frame(1));
            let p = old(self).spi.pending();
            wire::lemma_consume_consume(p, 2, 1);
            wire::lemma_consume_consume(p, 3, 1);
            wire::lemma_consume_consume(p, 4, 2);
            wire::lemma_resp_byte_consume(p, 4, 0);
            wire::lemma_resp_byte_consume(p, 4, 1);
        }
        Ok(data)
    }

    /// Reads a batch of data words in one read session: the read preamble,
    /// the two-byte turnaround gap, then every word, in request order.
    pub fn read_data_batch(&mut self, count: usize) -> (r: Result<Vec<u16>, Error>)
        ensures
            r matches Ok(v) ==> {
                &&& v@ == wire::resp_words(old(self).spi.pending(), 4, count as int)
                &&& v@.len() == count
                &&& final (self).spi.sent() == old(self).spi.sent() + wire::read_frame(
                    count as int,
                )
                &&& final (self).spi.pending() == wire::consume(
                    old(self).spi.pending(),
                    4 + 2 * count,
                )
                &&& final (self).cs.pin_state() == PinState::High
            },
            old(self).spec_same_config(*final (self)),
            r matches Err(e) ==> e.is_bus_wait(old(self).timeout_ms),
    {
        let mut result: Vec<u16> = Vec::new();
        self.wait_ready()?;
        self.cs.set_low()?;
        self.write_u16(wire::PREAMBLE_READ_DATA)?;
        self.wait_ready()?;
        self.exchange_zero_byte()?;
        self.exchange_zero_byte()?;
        self.wait_ready()?;
        proof {
            let p = old(self).spi.pending();
            wire::lemma_consume_consume(p, 2, 1);
            wire::lemma_consume_consume(p, 3, 1);
            assert(self.spi.sent() =~= old(self).spi.sent() + wire::word_bytes(
                wire::PREAMBLE_READ_DATA,
            ) + wire::zero_bytes(2));
        }
        let mut k: usize = 0;
        while k < count
            invariant
                k <= count,
                result@ == wire::resp_words(old(self).spi.pending(), 4, k as int),
                result@.len() == k,
                self.spi.sent() == old(self).spi.sent() + wire::word_bytes(
                    wire::PREAMBLE_READ_DATA,
                ) + wire::zero_bytes(2 + 2 * k),
                self.spi.pending() == wire::consume(old(self).spi.pending(), 4 + 2 * k),
                self.hrdy == old(self).hrdy,
                self.timeout_ms == old(self).timeout_ms,
            decreases count - k,
        {
            let w = self.read_u16()?;
            result.push(w);
            k += 1;
            proof {
                let p = old(self).spi.pending();
                wire::lemma_consume_consume(p, 4 + 2 * (k - 1), 2);
                wire::lemma_resp_byte_consume(p, 4 + 2 * (k - 1), 0);
                wire::lemma_resp_byte_consume(p, 4 + 2 * (k - 1), 1);
                assert(result@ =~= wire::resp_words(p, 4, k as int));
                assert(self.spi.sent() =~= old(self).spi.sent() + wire::word_bytes(
                    wire::PREAMBLE_READ_DATA,
                ) + wire::zero_bytes(2 + 2 * k));
            }
        }
        self.cs.set_high()?;
        proof {
            assert(final (self).spi.sent() =~= old(self).spi.sent() + wire::read_frame(
                count as int,
            ));
        }
        Ok(result)
    }

    /// Writes a command opcode followed by its argument words, each argument
    /// in a data-write exchange of its own.
    pub fn write_command_with_args(&mut self, cmd: Command, args: &[u16]) -> (r: Result<
        (),
        Error,
    >)
        ensures
            r is Ok ==> {
                &&& final (self).spi.sent() == old(self).spi.sent() + wire::cmd_frame(
                    cmd.spec_code(),
                ) + wire::data_frames(args@)
                &&& final (self).spi.pending() == wire::consume(
                    old(self).spi.pending(),
                    4 + 4 * args@.len() as int,
                )
                &&& final (self).cs.pin_state() == PinState::High
            },
            old(self).spec_same_config(*final (self)),
            r matches Err(e) ==> e.is_bus_wait(old(self).timeout_ms),
    {
        self.write_command(cmd)?;
        self.write_args(args)?;
        proof {
            assert(final (self).spi.sent() =~= old(self).spi.sent() + wire::cmd_frame(
                cmd.spec_code(),
            ) + wire::data_frames(args@));
            wire::lemma_consume_consume(old(self).spi.pending(), 4, 4 * args@.len() as int);
        }
        Ok(())
    }

    /// Writes a user command opcode followed by its argument words.
    pub fn write_user_command_with_args(&mut self, cmd: UserCommand, args: &[u16]) -> (r: Result<
        (),
        Error,
    >)
        ensures
            r is Ok ==> {
                &&& final (self).spi.sent() == old(self).spi.sent() + wire::cmd_frame(
                    cmd.spec_code(),
                ) + wire::data_frames(args@)
                &&& final (self).spi.pending() == wire::consume(
                    old(self).spi.pending(),
                    4 + 4 * args@.len() as int,
                )
                &&& final (self).cs.pin_state() == PinState::High
            },
            old(self).spec_same_config(*final (self)),
            r matches Err(e) ==> e.is_bus_wait(old(self).timeout_ms),
    {
        self.write_user_command(cmd)?;
        self.write_args(args)?;
        proof {
            assert(final (self).spi.sent() =~= old(self).spi.sent() + wire::cmd_frame(
                cmd.spec_code(),
            ) + wire::data_frames(args@));
            wire::lemma_consume_consume(old(self).spi.pending(), 4, 4 * args@.len() as int);
        }
        Ok(())
    }

    /// Writes each word in a data-write exchange of its own.
    fn write_args(&mut self, args: &[u16]) -> (r: Result<(), Error>)
        ensures
            r is Ok ==> {
                &&& final (self).spi.sent() == old(self).spi.sent() + wire::data_frames(args@)
                &&& final (self).spi.pending() == wire::consume(
                    old(self).spi.pending(),
                    4 * args@.len() as int,
                )
                &&& (final (self).cs.pin_state() == PinState::High || (args@.len() == 0
                    && final (self).cs == old(self).cs))
            },
            old(self).spec_same_config(*final (self)),
            r matches Err(e) ==> e.is_bus_wait(old(self).timeout_ms),
    {
        let mut i: usize = 0;
        proof {
            assert(wire::consume(old(self).spi.pending(), 0) =~= old(self).spi.pending());
            assert(old(self).spi.sent() + wire::data_frames(args@.take(0)) =~= old(
                self,
            ).spi.sent());
        }
        while i < args.len()
            invariant
                i <= args@.len(),
                self.spi.sent() == old(self).spi.sent() + wire::data_frames(args@.take(i as int)),
                self.spi.pending() == wire::consume(old(self).spi.pending(), 4 * i),
                i > 0 ==> self.cs.pin_state() == PinState::High,
                i == 0 ==> self.cs == old(self).cs,
                self.hrdy == old(self).hrdy,
                self.timeout_ms == old(self).timeout_ms,
            decreases args@.len() - i,
        {
            self.write_data(args[i])?;
            i += 1;
            proof {
                assert(args@.take(i as int) =~= args@.take(i - 1).push(args@[i - 1]));
                wire::lemma_data_frames_push(args@.take(i - 1), args@[i - 1]);
                assert(self.spi.sent() =~= old(self).spi.sent() + wire::data_frames(
                    args@.take(i as int),
                ));
                wire::lemma_consume_consume(old(self).spi.pending(), 4 * (i - 1), 4);
            }
        }
        proof {
            assert(args@.take(args@.len() as int) =~= args@);
        }
        Ok(())
    }

    /// Reads a register: the register-read command, the address as data, then
    /// one data word, which is the register's value.
    pub fn read_register(&mut self, reg: Register) -> (r: Result<u16, Error>)
        ensures
            r matches Ok(v) ==> {
                &&& final (self).spi.sent() == old(self).spi.sent() + wire::reg_read_frames(
                    reg.spec_addr(),
                )
                &&& v == wire::resp_word(old(self).spi.pending(), 12)
                &&& final (self).spi.pending() == wire::consume(old(self).spi.pending(), 14)
                &&& final (self).cs.pin_state() == PinState::High
            },
            old(self).spec_same_config(*final (self)),
            r matches Err(e) ==> e.is_bus_wait(old(self).timeout_ms),
    {
        self.write_command(Command::RegRead)?;
        self.write_data(reg.addr())?;
        let v = self.read_data()?;
        proof {
            let p = old(self).spi.pending();
            assert(final (self).spi.sent() =~= old(self).spi.sent() + wire::reg_read_frames(
                reg.spec_addr(),
            ));
            wire::lemma_consume_consume(p, 4, 4);
            wire::lemma_consume_consume(p, 8, 6);
            wire::lemma_resp_byte_consume(p, 8, 4);
            wire::lemma_resp_byte_consume(p, 8, 5);
        }
        Ok(v)
    }

    /// Writes a register: the register-write command, the address, the value.
    pub fn write_register(&mut self, reg: Register, value: u16) -> (r: Result<(), Error>)
        ensures
            r is Ok ==> {
                &&& final (self).spi.sent() == old(self).spi.sent() + wire::reg_write_frames(
                    reg.spec_addr(),
                    value,
                )
                &&& final (self).spi.pending() == wire::consume(old(self).spi.pending(), 12)
                &&& final (self).cs.pin_state() == PinState::High
            },
            old(self).spec_same_config(*final (self)),
            r matches Err(e) ==> e.is_bus_wait(old(self).timeout_ms),
    {
        self.write_command(Command::RegWrite)?;
        self.write_data(reg.addr())?;
        self.write_data(value)?;
        proof {
            let p = old(self).spi.pending();
            assert(final (self).spi.sent() =~= old(self).spi.sent() + wire::reg_write_frames(
                reg.spec_addr(),
                value,
            ));
            wire::lemma_consume_consume(p, 4, 4);
            wire::lemma_consume_consume(p, 8, 4);
        }
        Ok(())
    }
}

} // verus!
