//! The controller session: owns a transport and the reset line, sequences the
//! power-up protocol, and exposes power states and the engine-idle wait.

pub mod builder;

pub use builder::IT8951Builder;

use crate::error::Error;
use crate::hal::clock;
use crate::hal::gpio::InputPin;
use crate::hal::gpio::OutputPin;
use crate::hal::gpio::PinState;
use crate::hal::spi::SpiTransfer;
use crate::protocol::commands::Command;
use crate::protocol::commands::UserCommand;
use crate::protocol::registers::Register;
use crate::protocol::transport::Transport;
use crate::protocol::wire;
use crate::types::spec_device_info_ok;
use crate::types::DeviceInfo;
use vstd::prelude::*;

verus! {

/// How long the reset line is held low, and how long the device settles after
/// reset, in milliseconds.
pub const RESET_HOLD_MS: u64 = 100;

/// The 20 words the identification query reads out of a device response
/// stream. The first eight stream bytes are consumed while the query's
/// command frame, the read preamble and the turnaround gap are on the bus;
/// the words follow.
pub open spec fn spec_devinfo_words(p: Seq<u8>) -> Seq<u16> {
    wire::resp_words(p, 8, 20)
}

/// The bytes shifted out by `j` polls of the engine-status register.
pub open spec fn spec_lut_poll_frames(j: int) -> Seq<u8>
    decreases j,
{
    if j <= 0 {
        Seq::empty()
    } else {
        spec_lut_poll_frames(j - 1) + wire::reg_read_frames(0x1224)
    }
}

/// What initialization puts on the bus, as a function of the device's
/// response stream `p` and the configured target VCOM value: the
/// identification query, the image-buffer address programmed into its two
/// register halves (high half first), the packed-mode enable, the VCOM read,
/// and — only when the value read differs from the target — the VCOM write.
pub open spec fn spec_init_frames(p: Seq<u8>, vcom: u16) -> Seq<u8> {
    let words = spec_devinfo_words(p);
    wire::cmd_frame(0x0302) + wire::read_frame(20) + wire::reg_write_frames(0x020A, words[3])
        + wire::reg_write_frames(0x0208, words[2]) + wire::reg_write_frames(0x0004, 1)
        + wire::cmd_frame(0x0039) + wire::data_frame(0) + wire::read_frame(1) + (if wire::resp_word(
        p,
        96,
    ) == vcom {
        Seq::<u8>::empty()
    } else {
        wire::cmd_frame(0x0039) + wire::data_frame(1) + wire::data_frame(vcom)
    })
}

/// The response bytes initialization consumes: 98 when the VCOM value read
/// already equals the target, 110 with the extra VCOM write.
pub open spec fn spec_init_consumed(p: Seq<u8>, vcom: u16) -> int {
    if wire::resp_word(p, 96) == vcom {
        98
    } else {
        110
    }
}

/// What an engine-idle wait puts on the bus and reads back: `j` polls of the
/// engine-status register, at least one; every poll but the last read a
/// nonzero status out of the response stream, and the last read zero.
pub open spec fn spec_lut_wait_trace(
    pre_sent: Seq<u8>,
    pre_pending: Seq<u8>,
    post_sent: Seq<u8>,
    post_pending: Seq<u8>,
    j: int,
) -> bool {
    &&& 1 <= j
    &&& post_sent == pre_sent + spec_lut_poll_frames(j)
    &&& post_pending == wire::consume(pre_pending, 14 * j)
    &&& wire::resp_word(pre_pending, 14 * (j - 1) + 12) == 0
    &&& forall|i: int|
        1 <= i < j ==> #[trigger] wire::resp_word(pre_pending, 14 * (i - 1) + 12) != 0
}

/// One controller session.
///
/// Owns the transport and the reset line. `device_info` is present exactly
/// after a successful [`IT8951::init`]; every display operation requires it.
/// `vcom` is the configured target VCOM value, synchronized with the device
/// during initialization.
#[derive(Debug)]
pub struct IT8951<SPI, HRDY, CS, RESET> {
    /// The wire-protocol transport.
    pub transport: Transport<SPI, HRDY, CS>,
    /// The reset control line, active low.
    pub reset: RESET,
    /// The device description, present after successful initialization.
    pub device_info: Option<DeviceInfo>,
    /// The configured VCOM value, in hundredths of a volt, negated.
    pub vcom: u16,
}

impl<SPI, HRDY, CS, RESET> IT8951<SPI, HRDY, CS, RESET> where
    SPI: SpiTransfer,
    HRDY: InputPin,
    CS: OutputPin,
    RESET: OutputPin,
 {
    /// What every operation leaves untouched: the ready line, the configured
    /// budget, and the reset line.
    pub open spec fn spec_same_session(self, other: Self) -> bool {
        &&& self.transport.spec_same_config(other.transport)
        &&& self.reset == other.reset
    }

    /// Creates a session over the given bus and lines, with `vcom` as the
    /// target VCOM value and no device description yet.
    pub fn new(spi: SPI, hrdy: HRDY, cs: CS, reset: RESET, vcom: u16) -> (r: IT8951<
        SPI,
        HRDY,
        CS,
        RESET,
    >)
        ensures
            r.transport.spi == spi,
            r.transport.hrdy == hrdy,
            r.transport.cs == cs,
            r.transport.timeout_ms == crate::protocol::transport::DEFAULT_TIMEOUT_MS,
            r.reset == reset,
            r.device_info is None,
            r.vcom == vcom,
    {
        IT8951 { transport: Transport::new(spi, hrdy, cs), reset, device_info: None, vcom }
    }

    /// Creates a builder for configuring a session.
    pub fn builder() -> (r: IT8951Builder)
        ensures
            r.vcom == 1500,
    {
        IT8951Builder::new()
    }

    /// Initializes the device: hardware reset, settle delay, identification
    /// query, image-buffer address programming (high half first, low half
    /// second — the device latches the composite address on the low half),
    /// packed-mode enable, and VCOM synchronization.
    ///
    /// On success the device description is present and parsed from the
    /// response stream as [`spec_device_info_ok`] states. On any failure the
    /// description is left as it was and the error is surfaced.
    pub fn init(&mut self) -> (r: Result<(), Error>)
        ensures
            r is Ok ==> {
                &&& final (self).device_info matches Some(info) && spec_device_info_ok(
                    spec_devinfo_words(old(self).transport.spi.pending()),
                    info,
                )
                &&& final (self).transport.spi.sent() == old(self).transport.spi.sent()
                    + spec_init_frames(old(self).transport.spi.pending(), old(self).vcom)
                &&& final (self).transport.spi.pending() == wire::consume(
                    old(self).transport.spi.pending(),
                    spec_init_consumed(old(self).transport.spi.pending(), old(self).vcom),
                )
                &&& final (self).reset.pin_state() == PinState::High
                &&& final (self).vcom == old(self).vcom
                &&& old(self).transport.spec_same_config(final (self).transport)
            },
            r matches Err(e) ==> {
                &&& (e.is_bus_wait(old(self).transport.timeout_ms) || (e == Error::InvalidVcom(
                    old(self).vcom,
                ) && old(self).vcom > 5000))
                &&& final (self).device_info == old(self).device_info
                &&& final (self).vcom == old(self).vcom
            },
    {
        self.reset()?;

        clock::delay_ms(RESET_HOLD_MS);

        let ghost p = self.transport.spi.pending();
        let ghost words = spec_devinfo_words(p);

        let info = self.get_device_info()?;
        let img_buf_addr = info.img_buf_addr;

        let addr_high = (img_buf_addr / 0x10000) as u16;
        let addr_low = (img_buf_addr % 0x10000) as u16;
        proof {
            assert(addr_high == words[3] && addr_low == words[2]) by (nonlinear_arith)
                requires
                    img_buf_addr == words[3] * 0x10000 + words[2],
                    0 <= words[2] < 0x10000,
                    0 <= words[3] < 0x10000,
                    addr_high == img_buf_addr as int / 0x10000,
                    addr_low == img_buf_addr as int % 0x10000,
            ;
        }
        self.transport.write_register(Register::new(0x020A), addr_high)?;
        self.transport.write_register(Register::new(0x0208), addr_low)?;

        self.transport.write_register(Register::i80cpcr(), 0x0001)?;

        proof {
            wire::lemma_consume_consume(p, 48, 12);
            wire::lemma_consume_consume(p, 60, 12);
            wire::lemma_consume_consume(p, 72, 12);
        }
        let current_vcom = self.read_vcom()?;
        proof {
            wire::lemma_resp_word_consume(p, 84, 12);
            wire::lemma_consume_consume(p, 84, 14);
        }
        if current_vcom != self.vcom {
            let target = self.vcom;
            self.write_vcom(target)?;
            proof {
                wire::lemma_consume_consume(p, 98, 12);
                assert(self.transport.spi.sent() =~= old(self).transport.spi.sent()
                    + spec_init_frames(p, old(self).vcom));
            }
        } else {
            proof {
                assert(self.transport.spi.sent() =~= old(self).transport.spi.sent()
                    + spec_init_frames(p, old(self).vcom));
            }
        }

        self.device_info = Some(info);
        Ok(())
    }

    /// Pulses the reset line: low, a hold of at least 100 milliseconds, then
    /// high.
    pub fn reset(&mut self) -> (r: Result<(), Error>)
        ensures
            r is Ok ==> final (self).reset.pin_state() == PinState::High,
            r matches Err(e) ==> e.is_hardware(),
            final (self).transport == old(self).transport,
            final (self).device_info == old(self).device_info,
            final (self).vcom == old(self).vcom,
    {
        self.reset.set_low()?;
        clock::delay_ms(RESET_HOLD_MS);
        self.reset.set_high()?;
        Ok(())
    }

    /// Queries the device identification: the get-device-info command, then a
    /// 20-word read, parsed into the device description.
    pub fn get_device_info(&mut self) -> (r: Result<DeviceInfo, Error>)
        ensures
            r matches Ok(info) ==> {
                &&& spec_device_info_ok(
                    spec_devinfo_words(old(self).transport.spi.pending()),
                    info,
                )
                &&& final (self).transport.spi.sent() == old(self).transport.spi.sent()
                    + wire::cmd_frame(0x0302) + wire::read_frame(20)
                &&& final (self).transport.spi.pending() == wire::consume(
                    old(self).transport.spi.pending(),
                    48,
                )
            },
            r matches Err(e) ==> e.is_bus_wait(old(self).transport.timeout_ms),
            old(self).spec_same_session(*final (self)),
            final (self).device_info == old(self).device_info,
            final (self).vcom == old(self).vcom,
    {
        self.transport.write_user_command(UserCommand::GetDevInfo)?;

        let data = self.transport.read_data_batch(20)?;

        proof {
            let p = old(self).transport.spi.pending();
            assert(final (self).transport.spi.sent() =~= old(self).transport.spi.sent()
                + wire::cmd_frame(0x0302) + wire::read_frame(20));
            wire::lemma_consume_consume(p, 4, 44);
            wire::lemma_resp_words_consume(p, 4, 4, 20);
        }
        DeviceInfo::from_raw(data.as_slice())
    }

    /// Returns the device description, `None` before successful
    /// initialization.
    pub fn device_info(&self) -> (r: Option<&DeviceInfo>)
        ensures
            r matches Some(info) ==> self.device_info == Some(*info),
            r is None ==> self.device_info is None,
    {
        self.device_info.as_ref()
    }

    /// Returns the panel width in pixels; initialization must have succeeded.
    pub fn width(&self) -> (r: u16)
        requires
            self.device_info is Some,
        ensures
            r == self.device_info->Some_0.panel_width,
    {
        self.device_info.as_ref().unwrap().panel_width
    }

    /// Returns the panel height in pixels; initialization must have
    /// succeeded.
    pub fn height(&self) -> (r: u16)
        requires
            self.device_info is Some,
        ensures
            r == self.device_info->Some_0.panel_height,
    {
        self.device_info.as_ref().unwrap().panel_height
    }

    /// Returns the image buffer base address; initialization must have
    /// succeeded.
    pub fn img_buf_addr(&self) -> (r: u32)
        requires
            self.device_info is Some,
        ensures
            r == self.device_info->Some_0.img_buf_addr,
    {
        self.device_info.as_ref().unwrap().img_buf_addr
    }

    /// Reads the VCOM value from the device: the VCOM command, the read
    /// selector word, then one data word.
    pub fn read_vcom(&mut self) -> (r: Result<u16, Error>)
        ensures
            r matches Ok(v) ==> {
                &&& final (self).transport.spi.sent() == old(self).transport.spi.sent()
                    + wire::cmd_frame(0x0039) + wire::data_frame(0) + wire::read_frame(1)
                &&& v == wire::resp_word(old(self).transport.spi.pending(), 12)
                &&& final (self).transport.spi.pending() == wire::consume(
                    old(self).transport.spi.pending(),
                    14,
                )
            },
            r matches Err(e) ==> e.is_bus_wait(old(self).transport.timeout_ms),
            old(self).spec_same_session(*final (self)),
            final (self).device_info == old(self).device_info,
            final (self).vcom == old(self).vcom,
    {
        self.transport.write_user_command(UserCommand::Vcom)?;
        self.transport.write_data(0)?;
        let v = self.transport.read_data()?;
        proof {
            let p = old(self).transport.spi.pending();
            assert(final (self).transport.spi.sent() =~= old(self).transport.spi.sent()
                + wire::cmd_frame(0x0039) + wire::data_frame(0) + wire::read_frame(1));
            wire::lemma_consume_consume(p, 4, 4);
            wire::lemma_consume_consume(p, 8, 6);
            wire::lemma_resp_byte_consume(p, 8, 4);
            wire::lemma_resp_byte_consume(p, 8, 5);
        }
        Ok(v)
    }

    /// Writes a VCOM value to the device: the VCOM command, the write
    /// selector word, then the value.
    ///
    /// A value above 5000 is rejected with an invalid-VCOM error naming it,
    /// before any hardware access. The configured value is updated only when
    /// every exchange succeeded.
    pub fn write_vcom(&mut self, vcom: u16) -> (r: Result<(), Error>)
        ensures
            vcom > 5000 ==> r == Err::<(), Error>(Error::InvalidVcom(vcom)) && *final (self)
                == *old(self),
            r is Ok ==> {
                &&& vcom <= 5000
                &&& final (self).vcom == vcom
                &&& final (self).transport.spi.sent() == old(self).transport.spi.sent()
                    + wire::cmd_frame(0x0039) + wire::data_frame(1) + wire::data_frame(vcom)
                &&& final (self).transport.spi.pending() == wire::consume(
                    old(self).transport.spi.pending(),
                    12,
                )
            },
            r matches Err(e) ==> {
                &&& ((e == Error::InvalidVcom(vcom) && vcom > 5000) || e.is_bus_wait(
                    old(self).transport.timeout_ms,
                ))
                &&& final (self).vcom == old(self).vcom
            },
            old(self).spec_same_session(*final (self)),
            final (self).device_info == old(self).device_info,
    {
        if vcom > 5000 {
            return Err(Error::InvalidVcom(vcom));
        }

        self.transport.write_user_command(UserCommand::Vcom)?;
        self.transport.write_data(1)?;
        self.transport.write_data(vcom)?;

        self.vcom = vcom;

        proof {
            let p = old(self).transport.spi.pending();
            assert(final (self).transport.spi.sent() =~= old(self).transport.spi.sent()
                + wire::cmd_frame(0x0039) + wire::data_frame(1) + wire::data_frame(vcom));
            wire::lemma_consume_consume(p, 4, 4);
            wire::lemma_consume_consume(p, 8, 4);
        }
        Ok(())
    }

    /// Returns the configured VCOM value.
    pub fn vcom(&self) -> (r: u16)
        ensures
            r == self.vcom,
    {
        self.vcom
    }

    /// Sends the run command: the device leaves standby or sleep.
    pub fn run(&mut self) -> (r: Result<(), Error>)
        ensures
            r is Ok ==> {
                &&& final (self).transport.spi.sent() == old(self).transport.spi.sent()
                    + wire::cmd_frame(0x0001)
                &&& final (self).transport.spi.pending() == wire::consume(
                    old(self).transport.spi.pending(),
                    4,
                )
            },
            r matches Err(e) ==> e.is_bus_wait(old(self).transport.timeout_ms),
            old(self).spec_same_session(*final (self)),
            final (self).device_info == old(self).device_info,
            final (self).vcom == old(self).vcom,
    {
        self.transport.write_command(Command::SysRun)
    }

    /// Sends the standby command: low power, registers retained.
    pub fn standby(&mut self) -> (r: Result<(), Error>)
        ensures
            r is Ok ==> {
                &&& final (self).transport.spi.sent() == old(self).transport.spi.sent()
                    + wire::cmd_frame(0x0002)
                &&& final (self).transport.spi.pending() == wire::consume(
                    old(self).transport.spi.pending(),
                    4,
                )
            },
            r matches Err(e) ==> e.is_bus_wait(old(self).transport.timeout_ms),
            old(self).spec_same_session(*final (self)),
            final (self).device_info == old(self).device_info,
            final (self).vcom == old(self).vcom,
    {
        self.transport.write_command(Command::Standby)
    }

    /// Sends the sleep command: lowest power.
    pub fn sleep(&mut self) -> (r: Result<(), Error>)
        ensures
            r is Ok ==> {
                &&& final (self).transport.spi.sent() == old(self).transport.spi.sent()
                    + wire::cmd_frame(0x0003)
                &&& final (self).transport.spi.pending() == wire::consume(
                    old(self).transport.spi.pending(),
                    4,
                )
            },
            r matches Err(e) ==> e.is_bus_wait(old(self).transport.timeout_ms),
            old(self).spec_same_session(*final (self)),
            final (self).device_info == old(self).device_info,
            final (self).vcom == old(self).vcom,
    {
        self.transport.write_command(Command::Sleep)
    }

    /// Polls the engine-status register until every waveform engine is idle.
    ///
    /// Each poll is one register read; the wait ends when a poll reads zero.
    /// Unlike the bare protocol, which waits without bound, the wait gives up
    /// with a timeout error after the transport's configured budget.
    pub fn wait_display_ready(&mut self) -> (r: Result<(), Error>)
        ensures
            r is Ok ==> exists|j: int|
                #[trigger] spec_lut_wait_trace(
                    old(self).transport.spi.sent(),
                    old(self).transport.spi.pending(),
                    final (self).transport.spi.sent(),
                    final (self).transport.spi.pending(),
                    j,
                ),
            r matches Err(e) ==> e.is_bus_wait(old(self).transport.timeout_ms),
            old(self).spec_same_session(*final (self)),
            final (self).device_info == old(self).device_info,
            final (self).vcom == old(self).vcom,
    {
        let ghost mut j: int = 0;
        let start = clock::instant_now();
        let mut polls_left: u64 = u64::MAX;
        while polls_left > 0
            invariant
                j >= 0,
                self.transport.spi.sent() == old(self).transport.spi.sent()
                    + spec_lut_poll_frames(j),
                self.transport.spi.pending() == wire::consume(
                    old(self).transport.spi.pending(),
                    14 * j,
                ),
                forall|i: int|
                    1 <= i <= j ==> #[trigger] wire::resp_word(
                        old(self).transport.spi.pending(),
                        14 * (i - 1) + 12,
                    ) != 0,
                old(self).spec_same_session(*self),
                self.device_info == old(self).device_info,
                self.vcom == old(self).vcom,
            decreases polls_left,
        {
            let status = self.transport.read_register(Register::lutafsr())?;
            proof {
                j = j + 1;
                assert(self.transport.spi.sent() =~= old(self).transport.spi.sent()
                    + spec_lut_poll_frames(j));
                wire::lemma_consume_consume(
                    old(self).transport.spi.pending(),
                    14 * (j - 1),
                    14,
                );
                wire::lemma_resp_word_consume(
                    old(self).transport.spi.pending(),
                    14 * (j - 1),
                    12,
                );
            }
            if status == 0 {
                proof {
                    assert(spec_lut_wait_trace(
                        old(self).transport.spi.sent(),
                        old(self).transport.spi.pending(),
                        self.transport.spi.sent(),
                        self.transport.spi.pending(),
                        j,
                    ));
                }
                return Ok(());
            }
            if clock::elapsed_millis(&start) > self.transport.timeout_ms {
                return Err(Error::Timeout(self.transport.timeout_ms));
            }
            polls_left -= 1;
            clock::spin_hint();
        }
        Err(Error::Timeout(self.transport.timeout_ms))
    }
}

} // verus!
