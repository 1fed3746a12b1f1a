//! Display operations: area-bounded fill, refresh, and image loading, with
//! per-pixel-format packing and byte-to-word conversion.
//!
//! Every operation requires the device description obtained by
//! initialization; its absence is a recoverable initialization error. Each
//! contract states the exact bytes the operation puts on the bus.

use crate::device::IT8951;
use crate::error::Error;
use crate::graphics::Framebuffer;
use crate::hal::gpio::InputPin;
use crate::hal::gpio::OutputPin;
use crate::hal::spi::SpiTransfer;
use crate::protocol::commands::Command;
use crate::protocol::commands::UserCommand;
use crate::protocol::registers::Register;
use crate::protocol::wire;
use crate::types::Area;
use crate::types::DisplayMode;
use crate::types::Endian;
use crate::types::LoadImageInfo;
use crate::types::PixelFormat;
use crate::types::Rotation;
use vstd::prelude::*;
use vstd::string::StringExecFns;

verus! {

/// The argument word of a load-image command: endian in bits 8 and up, pixel
/// format in bits 4 through 7, rotation in bits 0 through 3.
pub open spec fn spec_load_arg(endian: Endian, format: PixelFormat, rotate: Rotation) -> u16 {
    (endian.spec_code() * 256 + format.spec_code() * 16 + rotate.spec_code()) as u16
}

/// The bytes that start an area image load: the image-buffer address
/// programmed into its two register halves, high half first, then the
/// load-image-area command with its five argument words.
pub open spec fn spec_load_start_frames(addr: u32, arg: u16, area: Area) -> Seq<u8> {
    wire::reg_write_frames(0x020A, (addr / 0x10000) as u16) + wire::reg_write_frames(
        0x0208,
        (addr % 0x10000) as u16,
    ) + wire::cmd_frame(0x0021) + wire::data_frames(
        seq![arg, area.x, area.y, area.width, area.height],
    )
}

/// The words that fill `pixel_count` pixels with one 8-bit value: two pixels
/// per word, both bytes the value; an odd count leaves the final word's high
/// byte zero, so no pixel past the count is written.
pub open spec fn spec_fill_words(pixel_count: int, value: u8) -> Seq<u16> {
    Seq::new(
        (if pixel_count >= 0 {
            ((pixel_count + 1) / 2) as nat
        } else {
            0
        }),
        |i: int|
            if 2 * i + 2 <= pixel_count {
                (value * 256 + value) as u16
            } else {
                value as u16
            },
    )
}

/// Caller bytes repacked into transfer words: every two consecutive bytes
/// little-endian into one word, an odd final byte alone in the low byte of
/// its own word.
pub open spec fn spec_words_of_bytes(bytes: Seq<u8>) -> Seq<u16> {
    Seq::new(
        ((bytes.len() + 1) / 2) as nat,
        |i: int|
            if 2 * i + 1 < bytes.len() {
                (bytes[2 * i + 1] * 256 + bytes[2 * i]) as u16
            } else {
                bytes[2 * i] as u16
            },
    )
}

/// 8-bit pixels packed to 4 bits each: the top four bits of every pixel, two
/// pixels per byte, first pixel in the high nibble; an odd final pixel gets a
/// zero low nibble.
pub open spec fn spec_pack_4bpp(bytes: Seq<u8>) -> Seq<u8> {
    Seq::new(
        ((bytes.len() + 1) / 2) as nat,
        |i: int|
            if 2 * i + 1 < bytes.len() {
                ((bytes[2 * i] / 16) * 16 + bytes[2 * i + 1] / 16) as u8
            } else {
                ((bytes[2 * i] / 16) * 16) as u8
            },
    )
}

/// What one fill operation puts on the bus, with `j` polls of the
/// engine-status register between the load start and the pixel data: the load
/// start, the polls — every one but the last reading a nonzero status, the
/// last reading zero — one batched data write of the fill words, and the
/// end-of-load command.
pub open spec fn spec_fill_trace(
    pre_sent: Seq<u8>,
    pre_pending: Seq<u8>,
    post_sent: Seq<u8>,
    post_pending: Seq<u8>,
    addr: u32,
    area: Area,
    value: u8,
    j: int,
) -> bool {
    let words = spec_fill_words(area.spec_pixel_count(), value);
    &&& 1 <= j
    &&& post_sent == pre_sent + spec_load_start_frames(
        addr,
        spec_load_arg(Endian::Little, PixelFormat::Bpp8, Rotation::Rotate0),
        area,
    ) + crate::device::spec_lut_poll_frames(j) + wire::batch_frame(words) + wire::cmd_frame(0x0022)
    &&& post_pending == wire::consume(pre_pending, 48 + 14 * j + (2 + 2 * words.len()) + 4)
    &&& wire::resp_word(pre_pending, 48 + 14 * (j - 1) + 12) == 0
    &&& forall|i: int|
        1 <= i < j ==> #[trigger] wire::resp_word(pre_pending, 48 + 14 * (i - 1) + 12) != 0
}

/// Builds the words that fill `pixel_count` pixels with `value`.
pub fn pack_fill_words(pixel_count: usize, value: u8) -> (r: Vec<u16>)
    requires
        pixel_count < usize::MAX,
    ensures
        r@ == spec_fill_words(pixel_count as int, value),
{
    let num_words: usize = pixel_count / 2 + pixel_count % 2;
    let packed: u16 = value as u16 * 256 + value as u16;
    let mut words: Vec<u16> = Vec::new();
    let mut i: usize = 0;
    while i < num_words
        invariant
            pixel_count < usize::MAX,
            i <= num_words,
            num_words == (pixel_count + 1) / 2,
            packed == value * 256 + value,
            words@.len() == i,
            forall|k: int|
                0 <= k < i ==> words@[k] == spec_fill_words(pixel_count as int, value)[k],
        decreases num_words - i,
    {
        if 2 * i + 2 <= pixel_count {
            words.push(packed);
        } else {
            words.push(value as u16);
        }
        i += 1;
    }
    proof {
        assert(words@ =~= spec_fill_words(pixel_count as int, value));
    }
    words
}

/// Repacks caller bytes into little-endian transfer words.
pub fn bytes_to_words(data: &[u8]) -> (r: Vec<u16>)
    ensures
        r@ == spec_words_of_bytes(data@),
{
    let n = data.len();
    let num_words: usize = n / 2 + n % 2;
    let mut words: Vec<u16> = Vec::new();
    let mut i: usize = 0;
    while i < num_words
        invariant
            n == data@.len(),
            i <= num_words,
            num_words == (n + 1) / 2,
            words@.len() == i,
            forall|k: int| 0 <= k < i ==> words@[k] == spec_words_of_bytes(data@)[k],
        decreases num_words - i,
    {
        let w: u16 = if 2 * i + 1 < n {
            data[2 * i + 1] as u16 * 256 + data[2 * i] as u16
        } else {
            data[2 * i] as u16
        };
        words.push(w);
        i += 1;
    }
    proof {
        assert(words@ =~= spec_words_of_bytes(data@));
    }
    words
}

/// Packs 8-bit pixels into the 4-bit format: the top four bits of each pixel,
/// two pixels per byte, first pixel in the high nibble.
pub fn pack_8bpp_to_4bpp(data: &[u8]) -> (r: Vec<u8>)
    ensures
        r@ == spec_pack_4bpp(data@),
{
    let n = data.len();
    let num_bytes: usize = n / 2 + n % 2;
    let mut packed: Vec<u8> = Vec::new();
    let mut i: usize = 0;
    while i < num_bytes
        invariant
            n == data@.len(),
            i <= num_bytes,
            num_bytes == (n + 1) / 2,
            packed@.len() == i,
            forall|k: int| 0 <= k < i ==> packed@[k] == spec_pack_4bpp(data@)[k],
        decreases num_bytes - i,
    {
        let hi = data[2 * i] / 16;
        let lo: u8 = if 2 * i + 1 < n {
            data[2 * i + 1] / 16
        } else {
            0
        };
        packed.push(hi * 16 + lo);
        i += 1;
    }
    proof {
        assert(packed@ =~= spec_pack_4bpp(data@));
    }
    packed
}

impl<SPI, HRDY, CS, RESET> IT8951<SPI, HRDY, CS, RESET> where
    SPI: SpiTransfer,
    HRDY: InputPin,
    CS: OutputPin,
    RESET: OutputPin,
 {
    /// Fills the whole panel with one grayscale value; equivalent to
    /// [`IT8951::fill_area`] over the full panel.
    pub fn clear(&mut self, value: u8) -> (r: Result<(), Error>)
        ensures
            old(self).device_info is None ==> (r matches Err(e) && e matches Error::Init(_))
                && *final (self) == *old(self),
            r is Ok ==> {
                &&& old(self).device_info matches Some(info) && exists|j: int|
                    #[trigger] spec_fill_trace(
                        old(self).transport.spi.sent(),
                        old(self).transport.spi.pending(),
                        final (self).transport.spi.sent(),
                        final (self).transport.spi.pending(),
                        info.img_buf_addr,
                        (Area {
                            x: 0,
                            y: 0,
                            width: info.panel_width,
                            height: info.panel_height,
                        }),
                        value,
                        j,
                    )
            },
            r matches Err(e) ==> e matches Error::Init(_) || e matches Error::InvalidArea(_)
                || e.is_bus_wait(old(self).transport.timeout_ms),
            (r matches Err(e) && e matches Error::Init(_)) ==> old(self).device_info is None,
            (r matches Err(e) && e matches Error::InvalidArea(_)) ==> (
            old(self).device_info matches Some(info) && (info.panel_width == 0
                || info.panel_height == 0)),
            old(self).spec_same_session(*final (self)),
            final (self).device_info == old(self).device_info,
            final (self).vcom == old(self).vcom,
    {
        let (w, h) = match &self.device_info {
            Some(info) => (info.panel_width, info.panel_height),
            None => {
                return Err(Error::Init(String::from_str("device not initialized")));
            },
        };

        let area = Area::new(0, 0, w, h);

        self.fill_area(&area, value)
    }

    /// Fills a rectangular area with one grayscale value: an 8-bit image load
    /// of identical pixels, transmitted two to a word after the waveform
    /// engines went idle, and closed with the end-of-load command.
    ///
    /// Fails before any hardware access with an initialization error when the
    /// device description is absent, and with an invalid-area error carrying
    /// the rectangle when it does not fit the panel.
    pub fn fill_area(&mut self, area: &Area, value: u8) -> (r: Result<(), Error>)
        ensures
            old(self).device_info is None ==> (r matches Err(e) && e matches Error::Init(_))
                && *final (self) == *old(self),
            old(self).device_info matches Some(info) && !area.spec_valid(
                info.panel_width,
                info.panel_height,
            ) ==> r == Err::<(), Error>(Error::InvalidArea(*area)) && *final (self) == *old(self),
            r is Ok ==> {
                &&& old(self).device_info matches Some(info) && area.spec_valid(
                    info.panel_width,
                    info.panel_height,
                ) && exists|j: int|
                    #[trigger] spec_fill_trace(
                        old(self).transport.spi.sent(),
                        old(self).transport.spi.pending(),
                        final (self).transport.spi.sent(),
                        final (self).transport.spi.pending(),
                        info.img_buf_addr,
                        *area,
                        value,
                        j,
                    )
            },
            r matches Err(e) ==> e matches Error::Init(_) || e == Error::InvalidArea(*area)
                || e.is_bus_wait(old(self).transport.timeout_ms),
            (r matches Err(e) && e matches Error::Init(_)) ==> old(self).device_info is None,
            r matches Err(e) ==> (e matches Error::InvalidArea(_) ==> {
                &&& e == Error::InvalidArea(*area)
                &&& old(self).device_info matches Some(info) && !area.spec_valid(
                    info.panel_width,
                    info.panel_height,
                )
            }),
            old(self).spec_same_session(*final (self)),
            final (self).device_info == old(self).device_info,
            final (self).vcom == old(self).vcom,
    {
        let (panel_width, panel_height, img_buf_addr) = match &self.device_info {
            Some(info) => (info.panel_width, info.panel_height, info.img_buf_addr),
            None => {
                return Err(Error::Init(String::from_str("device not initialized")));
            },
        };

        if !area.is_valid(panel_width, panel_height) {
            return Err(Error::InvalidArea(*area));
        }

        let load_info = LoadImageInfo {
            endian: Endian::Little,
            pixel_format: PixelFormat::Bpp8,
            rotate: Rotation::Rotate0,
            start_fb_addr: 0,
            img_buf_base_addr: img_buf_addr,
        };

        self.load_image_area_start(&load_info, area)?;

        let ghost s1 = *self;
        self.wait_display_ready()?;
        let ghost s2 = *self;

        let total_pixels = area.pixel_count();
        proof {
            assert(area.width * area.height <= 0xFFFFu16 * 0xFFFFu16) by (nonlinear_arith)
                requires
                    area.width <= 0xFFFF,
                    area.height <= 0xFFFF,
            ;
        }
        let words = pack_fill_words(total_pixels, value);

        self.transport.write_data_batch(words.as_slice())?;

        self.transport.write_command(Command::LoadImageEnd)?;

        proof {
            let j = choose|j: int|
                #[trigger] crate::device::spec_lut_wait_trace(
                    s1.transport.spi.sent(),
                    s1.transport.spi.pending(),
                    s2.transport.spi.sent(),
                    s2.transport.spi.pending(),
                    j,
                );
            let pre_sent = old(self).transport.spi.sent();
            let pre_pending = old(self).transport.spi.pending();
            let ws = spec_fill_words(area.spec_pixel_count(), value);
            assert(final (self).transport.spi.sent() =~= pre_sent + spec_load_start_frames(
                img_buf_addr,
                spec_load_arg(Endian::Little, PixelFormat::Bpp8, Rotation::Rotate0),
                *area,
            ) + crate::device::spec_lut_poll_frames(j) + wire::batch_frame(ws) + wire::cmd_frame(
                0x0022,
            ));
            wire::lemma_consume_consume(pre_pending, 48, 14 * j);
            wire::lemma_consume_consume(pre_pending, 48 + 14 * j, 2 + 2 * ws.len() as int);
            wire::lemma_consume_consume(
                pre_pending,
                48 + 14 * j + (2 + 2 * ws.len() as int),
                4,
            );
            wire::lemma_resp_word_consume(pre_pending, 48, 14 * (j - 1) + 12);
            assert forall|i: int| 1 <= i < j implies #[trigger] wire::resp_word(
                pre_pending,
                48 + 14 * (i - 1) + 12,
            ) != 0 by {
                wire::lemma_resp_word_consume(pre_pending, 48, 14 * (i - 1) + 12);
            }
            assert(spec_fill_trace(
                pre_sent,
                pre_pending,
                final (self).transport.spi.sent(),
                final (self).transport.spi.pending(),
                img_buf_addr,
                *area,
                value,
                j,
            ));
        }
        Ok(())
    }

    /// Programs the image-buffer base address, high register half first, then
    /// issues the load-image-area command with the packed argument word and
    /// the area bounds.
    fn load_image_area_start(&mut self, load_info: &LoadImageInfo, area: &Area) -> (r: Result<
        (),
        Error,
    >)
        ensures
            r is Ok ==> {
                &&& final (self).transport.spi.sent() == old(self).transport.spi.sent()
                    + spec_load_start_frames(
                    load_info.img_buf_base_addr,
                    spec_load_arg(load_info.endian, load_info.pixel_format, load_info.rotate),
                    *area,
                )
                &&& final (self).transport.spi.pending() == wire::consume(
                    old(self).transport.spi.pending(),
                    48,
                )
            },
            r matches Err(e) ==> e.is_bus_wait(old(self).transport.timeout_ms),
            old(self).spec_same_session(*final (self)),
            final (self).device_info == old(self).device_info,
            final (self).vcom == old(self).vcom,
    {
        let addr = load_info.img_buf_base_addr;
        let addr_high = (addr / 0x10000) as u16;
        let addr_low = (addr % 0x10000) as u16;

        self.transport.write_register(Register::new(0x020A), addr_high)?;
        self.transport.write_register(Register::new(0x0208), addr_low)?;

        let arg: u16 = load_info.endian.as_u16() * 256 + load_info.pixel_format.as_u16() * 16
            + load_info.rotate.as_u16();

        let mut args: Vec<u16> = Vec::new();
        args.push(arg);
        args.push(area.x);
        args.push(area.y);
        args.push(area.width);
        args.push(area.height);
        proof {
            assert(args@ =~= seq![arg, area.x, area.y, area.width, area.height]);
        }

        self.transport.write_command_with_args(Command::LoadImageArea, args.as_slice())?;

        proof {
            let p = old(self).transport.spi.pending();
            assert(final (self).transport.spi.sent() =~= old(self).transport.spi.sent()
                + spec_load_start_frames(
                load_info.img_buf_base_addr,
                spec_load_arg(load_info.endian, load_info.pixel_format, load_info.rotate),
                *area,
            ));
            wire::lemma_consume_consume(p, 12, 12);
            wire::lemma_consume_consume(p, 24, 24);
        }
        Ok(())
    }

    /// Starts a waveform refresh of the whole panel; equivalent to
    /// [`IT8951::refresh_area`] over the full panel.
    pub fn refresh(&mut self, mode: DisplayMode) -> (r: Result<(), Error>)
        ensures
            old(self).device_info is None ==> (r matches Err(e) && e matches Error::Init(_))
                && *final (self) == *old(self),
            r is Ok ==> {
                &&& old(self).device_info matches Some(info) && final (self).transport.spi.sent()
                    == old(self).transport.spi.sent() + wire::cmd_frame(0x0034)
                    + wire::data_frames(
                    seq![0u16, 0u16, info.panel_width, info.panel_height, mode.spec_code()],
                )
                &&& final (self).transport.spi.pending() == wire::consume(
                    old(self).transport.spi.pending(),
                    24,
                )
            },
            r matches Err(e) ==> e matches Error::Init(_) || e matches Error::InvalidArea(_)
                || e.is_bus_wait(old(self).transport.timeout_ms),
            (r matches Err(e) && e matches Error::Init(_)) ==> old(self).device_info is None,
            (r matches Err(e) && e matches Error::InvalidArea(_)) ==> (
            old(self).device_info matches Some(info) && (info.panel_width == 0
                || info.panel_height == 0)),
            old(self).spec_same_session(*final (self)),
            final (self).device_info == old(self).device_info,
            final (self).vcom == old(self).vcom,
    {
        let (w, h) = match &self.device_info {
            Some(info) => (info.panel_width, info.panel_height),
            None => {
                return Err(Error::Init(String::from_str("device not initialized")));
            },
        };

        let area = Area::new(0, 0, w, h);

        self.refresh_area(&area, mode)
    }

    /// Starts a waveform refresh of an area: the display-area user command
    /// with the area bounds and the waveform mode as its five argument words.
    ///
    /// The update runs on the device; callers needing completion call
    /// [`IT8951::wait_display_ready`]. Fails before any hardware access with
    /// an initialization error when the device description is absent, and
    /// with an invalid-area error when the rectangle does not fit the panel.
    pub fn refresh_area(&mut self, area: &Area, mode: DisplayMode) -> (r: Result<(), Error>)
        ensures
            old(self).device_info is None ==> (r matches Err(e) && e matches Error::Init(_))
                && *final (self) == *old(self),
            old(self).device_info matches Some(info) && !area.spec_valid(
                info.panel_width,
                info.panel_height,
            ) ==> r == Err::<(), Error>(Error::InvalidArea(*area)) && *final (self) == *old(self),
            r is Ok ==> {
                &&& old(self).device_info matches Some(info) && area.spec_valid(
                    info.panel_width,
                    info.panel_height,
                )
                &&& final (self).transport.spi.sent() == old(self).transport.spi.sent()
                    + wire::cmd_frame(0x0034) + wire::data_frames(
                    seq![area.x, area.y, area.width, area.height, mode.spec_code()],
                )
                &&& final (self).transport.spi.pending() == wire::consume(
                    old(self).transport.spi.pending(),
                    24,
                )
            },
            r matches Err(e) ==> e matches Error::Init(_) || e == Error::InvalidArea(*area)
                || e.is_bus_wait(old(self).transport.timeout_ms),
            (r matches Err(e) && e matches Error::Init(_)) ==> old(self).device_info is None,
            r matches Err(e) ==> (e matches Error::InvalidArea(_) ==> {
                &&& e == Error::InvalidArea(*area)
                &&& old(self).device_info matches Some(info) && !area.spec_valid(
                    info.panel_width,
                    info.panel_height,
                )
            }),
            old(self).spec_same_session(*final (self)),
            final (self).device_info == old(self).device_info,
            final (self).vcom == old(self).vcom,
    {
        let (panel_width, panel_height) = match &self.device_info {
            Some(info) => (info.panel_width, info.panel_height),
            None => {
                return Err(Error::Init(String::from_str("device not initialized")));
            },
        };

        if !area.is_valid(panel_width, panel_height) {
            return Err(Error::InvalidArea(*area));
        }

        let mut args: Vec<u16> = Vec::new();
        args.push(area.x);
        args.push(area.y);
        args.push(area.width);
        args.push(area.height);
        args.push(mode.as_u16());
        proof {
            assert(args@ =~= seq![area.x, area.y, area.width, area.height, mode.spec_code()]);
        }

        self.transport.write_user_command_with_args(UserCommand::DisplayArea, args.as_slice())?;

        Ok(())
    }

    /// Loads image data into an area of the device's image buffer: the load
    /// start addressed at the buffer base with the requested format, zero
    /// rotation and little-endian, the caller's bytes repacked two to a
    /// little-endian word and sent as one batch, and the end-of-load command.
    ///
    /// Fails before any hardware access with an initialization error when the
    /// device description is absent; with an invalid-area error when the
    /// rectangle does not fit the panel; and with a dimension-mismatch error
    /// naming the supplied and required byte counts when the buffer is
    /// shorter than the format requires for the area.
    pub fn load_image(&mut self, data: &[u8], area: &Area, format: PixelFormat) -> (r: Result<
        (),
        Error,
    >)
        ensures
            old(self).device_info is None ==> (r matches Err(e) && e matches Error::Init(_))
                && *final (self) == *old(self),
            old(self).device_info matches Some(info) && !area.spec_valid(
                info.panel_width,
                info.panel_height,
            ) ==> r == Err::<(), Error>(Error::InvalidArea(*area)) && *final (self) == *old(self),
            old(self).device_info matches Some(info) && area.spec_valid(
                info.panel_width,
                info.panel_height,
            ) && (data@.len() as int) < format.spec_data_len(area.spec_pixel_count()) ==> (
            r matches Err(e) && e == Error::InvalidDimensions(
                (data@.len() % 0x10000) as u16,
                (format.spec_data_len(area.spec_pixel_count()) % 0x10000) as u16,
            )) && *final (self) == *old(self),
            r is Ok ==> {
                &&& old(self).device_info matches Some(info) && area.spec_valid(
                    info.panel_width,
                    info.panel_height,
                ) && data@.len() >= format.spec_data_len(area.spec_pixel_count()) && final (self).transport.spi.sent() == old(self).transport.spi.sent() + spec_load_start_frames(
                    info.img_buf_addr,
                    spec_load_arg(Endian::Little, format, Rotation::Rotate0),
                    *area,
                ) + wire::batch_frame(spec_words_of_bytes(data@)) + wire::cmd_frame(0x0022)
                &&& final (self).transport.spi.pending() == wire::consume(
                    old(self).transport.spi.pending(),
                    48 + (2 + 2 * (((data@.len() + 1) as int) / 2)) + 4,
                )
            },
            r matches Err(e) ==> e matches Error::Init(_) || e == Error::InvalidArea(*area)
                || e matches Error::InvalidDimensions(_, _) || e.is_bus_wait(
                old(self).transport.timeout_ms,
            ),
            (r matches Err(e) && e matches Error::InvalidDimensions(_, _)) ==> (
            data@.len() as int) < format.spec_data_len(area.spec_pixel_count()),
            (r matches Err(e) && e matches Error::Init(_)) ==> old(self).device_info is None,
            r matches Err(e) ==> (e matches Error::InvalidArea(_) ==> {
                &&& e == Error::InvalidArea(*area)
                &&& old(self).device_info matches Some(info) && !area.spec_valid(
                    info.panel_width,
                    info.panel_height,
                )
            }),
            old(self).spec_same_session(*final (self)),
            final (self).device_info == old(self).device_info,
            final (self).vcom == old(self).vcom,
    {
        let (panel_width, panel_height, img_buf_addr) = match &self.device_info {
            Some(info) => (info.panel_width, info.panel_height, info.img_buf_addr),
            None => {
                return Err(Error::Init(String::from_str("device not initialized")));
            },
        };

        if !area.is_valid(panel_width, panel_height) {
            return Err(Error::InvalidArea(*area));
        }

        let pixel_count = area.pixel_count();
        proof {
            assert(area.width * area.height <= 0xFFFFu16 * 0xFFFFu16) by (nonlinear_arith)
                requires
                    area.width <= 0xFFFF,
                    area.height <= 0xFFFF,
            ;
        }
        let pc64 = pixel_count as u64;
        let expected: u64 = match format {
            PixelFormat::Bpp8 => pc64,
            PixelFormat::Bpp4 => (pc64 + 1) / 2,
            PixelFormat::Bpp3 => (pc64 * 3 + 7) / 8,
            PixelFormat::Bpp2 => (pc64 + 3) / 4,
        };

        if (data.len() as u64) < expected {
            let actual16: u16 = (data.len() % 0x10000) as u16;
            let expected16: u16 = (expected % 0x10000) as u16;
            return Err(Error::InvalidDimensions(actual16, expected16));
        }

        let load_info = LoadImageInfo {
            endian: Endian::Little,
            pixel_format: format,
            rotate: Rotation::Rotate0,
            start_fb_addr: 0,
            img_buf_base_addr: img_buf_addr,
        };

        self.load_image_area_start(&load_info, area)?;

        let words = bytes_to_words(data);

        self.transport.write_data_batch(words.as_slice())?;

        self.transport.write_command(Command::LoadImageEnd)?;

        proof {
            let pre_pending = old(self).transport.spi.pending();
            assert(final (self).transport.spi.sent() =~= old(self).transport.spi.sent()
                + spec_load_start_frames(
                img_buf_addr,
                spec_load_arg(Endian::Little, format, Rotation::Rotate0),
                *area,
            ) + wire::batch_frame(spec_words_of_bytes(data@)) + wire::cmd_frame(0x0022));
            wire::lemma_consume_consume(pre_pending, 48, 2 + 2 * (((data@.len() + 1) as int) / 2));
            wire::lemma_consume_consume(
                pre_pending,
                48 + (2 + 2 * (((data@.len() + 1) as int) / 2)),
                4,
            );
        }
        Ok(())
    }

    /// Loads a framebuffer into an area, packed to the 4-bit format, and
    /// optionally starts a waveform refresh of that area.
    ///
    /// Fails with a device error before any hardware access when the
    /// framebuffer's dimensions differ from the area's.
    pub fn draw_framebuffer(
        &mut self,
        framebuffer: &Framebuffer,
        area: &Area,
        refresh: bool,
        mode: DisplayMode,
    ) -> (r: Result<(), Error>)
        requires
            framebuffer.wf(),
        ensures
            framebuffer.width != area.width || framebuffer.height != area.height ==> (
            r matches Err(e) && e matches Error::Device(_)) && *final (self) == *old(self),
            framebuffer.spec_same_area(*area) && old(self).device_info is None ==> (
            r matches Err(e) && e matches Error::Init(_)) && *final (self) == *old(self),
            r is Ok ==> {
                &&& framebuffer.spec_same_area(*area)
                &&& old(self).device_info matches Some(info) && area.spec_valid(
                    info.panel_width,
                    info.panel_height,
                ) && final (self).transport.spi.sent() == old(self).transport.spi.sent()
                    + spec_load_start_frames(
                    info.img_buf_addr,
                    spec_load_arg(Endian::Little, PixelFormat::Bpp4, Rotation::Rotate0),
                    *area,
                ) + wire::batch_frame(spec_words_of_bytes(spec_pack_4bpp(framebuffer.data@)))
                    + wire::cmd_frame(0x0022) + (if refresh {
                    wire::cmd_frame(0x0034) + wire::data_frames(
                        seq![area.x, area.y, area.width, area.height, mode.spec_code()],
                    )
                } else {
                    Seq::<u8>::empty()
                })
            },
            r matches Err(e) ==> e matches Error::Device(_) || e matches Error::Init(_) || e
                == Error::InvalidArea(*area) || e.is_bus_wait(old(self).transport.timeout_ms),
            (r matches Err(e) && e matches Error::Device(_)) ==> (framebuffer.width != area.width
                || framebuffer.height != area.height),
            (r matches Err(e) && e matches Error::Init(_)) ==> old(self).device_info is None,
            old(self).spec_same_session(*final (self)),
            final (self).device_info == old(self).device_info,
            final (self).vcom == old(self).vcom,
    {
        if framebuffer.width() != area.width || framebuffer.height() != area.height {
            return Err(
                Error::Device(
                    String::from_str("framebuffer dimensions do not match the target area"),
                ),
            );
        }

        let packed = pack_8bpp_to_4bpp(framebuffer.data());
        self.load_image(packed.as_slice(), area, PixelFormat::Bpp4)?;

        if refresh {
            self.refresh_area(area, mode)?;
            proof {
                assert(final (self).transport.spi.sent() =~= old(self).transport.spi.sent()
                    + spec_load_start_frames(
                    old(self).device_info->Some_0.img_buf_addr,
                    spec_load_arg(Endian::Little, PixelFormat::Bpp4, Rotation::Rotate0),
                    *area,
                ) + wire::batch_frame(spec_words_of_bytes(spec_pack_4bpp(framebuffer.data@)))
                    + wire::cmd_frame(0x0022) + (wire::cmd_frame(0x0034) + wire::data_frames(
                    seq![area.x, area.y, area.width, area.height, mode.spec_code()],
                )));
            }
        } else {
            proof {
                assert(final (self).transport.spi.sent() =~= old(self).transport.spi.sent()
                    + spec_load_start_frames(
                    old(self).device_info->Some_0.img_buf_addr,
                    spec_load_arg(Endian::Little, PixelFormat::Bpp4, Rotation::Rotate0),
                    *area,
                ) + wire::batch_frame(spec_words_of_bytes(spec_pack_4bpp(framebuffer.data@)))
                    + wire::cmd_frame(0x0022) + Seq::<u8>::empty());
            }
        }

        Ok(())
    }

    /// Loads a framebuffer over the whole panel and refreshes it with the
    /// given mode.
    ///
    /// Fails with an initialization error when the device description is
    /// absent, and with a device error when the framebuffer's dimensions
    /// differ from the panel's.
    pub fn draw_framebuffer_full(&mut self, framebuffer: &Framebuffer, mode: DisplayMode) -> (r:
        Result<(), Error>)
        requires
            framebuffer.wf(),
        ensures
            old(self).device_info is None ==> (r matches Err(e) && e matches Error::Init(_))
                && *final (self) == *old(self),
            old(self).device_info matches Some(info) && (framebuffer.width != info.panel_width
                || framebuffer.height != info.panel_height) ==> (r matches Err(e)
                && e matches Error::Device(_)) && *final (self) == *old(self),
            r is Ok ==> {
                &&& old(self).device_info matches Some(info)
                    && framebuffer.width == info.panel_width
                    && framebuffer.height == info.panel_height
                    && final (self).transport.spi.sent() == old(self).transport.spi.sent()
                    + spec_load_start_frames(
                    info.img_buf_addr,
                    spec_load_arg(Endian::Little, PixelFormat::Bpp4, Rotation::Rotate0),
                    (Area { x: 0, y: 0, width: info.panel_width, height: info.panel_height }),
                ) + wire::batch_frame(spec_words_of_bytes(spec_pack_4bpp(framebuffer.data@)))
                    + wire::cmd_frame(0x0022) + wire::cmd_frame(0x0034) + wire::data_frames(
                    seq![0u16, 0u16, info.panel_width, info.panel_height, mode.spec_code()],
                )
            },
            r matches Err(e) ==> e matches Error::Device(_) || e matches Error::Init(_)
                || e matches Error::InvalidArea(_) || e.is_bus_wait(
                old(self).transport.timeout_ms,
            ),
            (r matches Err(e) && e matches Error::Device(_)) ==> (
            old(self).device_info matches Some(info) && (framebuffer.width != info.panel_width
                || framebuffer.height != info.panel_height)),
            (r matches Err(e) && e matches Error::Init(_)) ==> old(self).device_info is None,
            old(self).spec_same_session(*final (self)),
            final (self).device_info == old(self).device_info,
            final (self).vcom == old(self).vcom,
    {
        let (panel_width, panel_height) = match &self.device_info {
            Some(info) => (info.panel_width, info.panel_height),
            None => {
                return Err(Error::Init(String::from_str("device not initialized")));
            },
        };

        if framebuffer.width() != panel_width || framebuffer.height() != panel_height {
            return Err(
                Error::Device(
                    String::from_str("framebuffer dimensions do not match the panel"),
                ),
            );
        }

        let area = Area::new(0, 0, panel_width, panel_height);
        match self.draw_framebuffer(framebuffer, &area, true, mode) {
            Ok(()) => {
                proof {
                    assert(final (self).transport.spi.sent() =~= old(self).transport.spi.sent()
                        + spec_load_start_frames(
                        old(self).device_info->Some_0.img_buf_addr,
                        spec_load_arg(Endian::Little, PixelFormat::Bpp4, Rotation::Rotate0),
                        area,
                    ) + wire::batch_frame(spec_words_of_bytes(spec_pack_4bpp(framebuffer.data@)))
                        + wire::cmd_frame(0x0022) + wire::cmd_frame(0x0034) + wire::data_frames(
                        seq![0u16, 0u16, panel_width, panel_height, mode.spec_code()],
                    ));
                }
                Ok(())
            },
            Err(e) => Err(e),
        }
    }

    /// Creates a framebuffer matching the panel dimensions, every pixel zero.
    ///
    /// Fails with an initialization error when the device description is
    /// absent.
    pub fn create_framebuffer(&self) -> (r: Result<Framebuffer, Error>)
        ensures
            self.device_info is None ==> (r matches Err(e) && e matches Error::Init(_)),
            self.device_info matches Some(info) ==> (r matches Ok(fb) && fb.wf() && fb.width
                == info.panel_width && fb.height == info.panel_height),
            r matches Ok(fb) ==> forall|px: int, py: int|
                fb.spec_in_bounds(px, py) ==> #[trigger] fb.spec_pix(px, py) == 0,
    {
        let (panel_width, panel_height) = match &self.device_info {
            Some(info) => (info.panel_width, info.panel_height),
            None => {
                return Err(Error::Init(String::from_str("device not initialized")));
            },
        };

        Ok(Framebuffer::new(panel_width, panel_height))
    }
}

} // verus!
