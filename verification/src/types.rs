//! Core value types: panel areas, device identification, pixel formats,
//! waveform modes, and the image-load parameter bundle.

use vstd::math::max;
use vstd::math::min;
use vstd::prelude::*;
use vstd::string::StringExecFns;

use crate::error::Error;

verus! {

/// Description of the connected panel, produced by the identification query.
#[derive(Debug, Clone, PartialEq, Eq)]
pub struct DeviceInfo {
    /// Panel width in pixels.
    pub panel_width: u16,
    /// Panel height in pixels.
    pub panel_height: u16,
    /// Image buffer base address in device memory.
    pub img_buf_addr: u32,
    /// Firmware version reported by the device.
    pub fw_version: String,
    /// Waveform look-up-table version reported by the device.
    pub lut_version: String,
}

/// The bytes of a version region: each word contributes its low byte then its
/// high byte, truncated at the first zero byte.
pub open spec fn spec_version_bytes(words: Seq<u16>) -> Seq<u8>
    decreases words.len(),
{
    if words.len() == 0 {
        Seq::empty()
    } else {
        let lo = (words[0] % 256) as u8;
        let hi = (words[0] / 256) as u8;
        if lo == 0 {
            Seq::empty()
        } else if hi == 0 {
            seq![lo]
        } else {
            seq![lo, hi] + spec_version_bytes(words.drop_first())
        }
    }
}

/// The text of a version region: its bytes decoded as UTF-8 when they are a
/// valid encoding, a fixed placeholder otherwise.
pub open spec fn spec_version_text(words: Seq<u16>) -> Seq<char> {
    let bytes = spec_version_bytes(words);
    if vstd::utf8::valid_utf8(bytes) {
        vstd::utf8::decode_utf8(bytes)
    } else {
        "Unknown"@
    }
}

/// What a parse of an identification response must yield: words 0 and 1 are
/// the panel dimensions, words 2 and 3 the buffer address (low half first),
/// words 4..12 the firmware version and words 12..20 the LUT version.
pub open spec fn spec_device_info_ok(data: Seq<u16>, info: DeviceInfo) -> bool {
    &&& info.panel_width == data[0]
    &&& info.panel_height == data[1]
    &&& info.img_buf_addr == data[3] * 0x10000 + data[2]
    &&& info.fw_version@ == spec_version_text(data.subrange(4, 12))
    &&& info.lut_version@ == spec_version_text(data.subrange(12, 20))
}

/// Relies on String::from_utf8: it accepts exactly the byte sequences that
/// are valid UTF-8, and the accepted string holds the characters those bytes
/// encode.
#[verifier::external_body]
fn utf8_bytes_to_string(bytes: Vec<u8>) -> (r: Option<String>)
    ensures
        r matches Some(s) ==> vstd::utf8::valid_utf8(bytes@) && s@ == vstd::utf8::decode_utf8(
            bytes@,
        ),
        r is None ==> !vstd::utf8::valid_utf8(bytes@),
{
    match String::from_utf8(bytes) {
        Ok(s) => Some(s),
        Err(_) => None,
    }
}

impl DeviceInfo {
    /// Parses one identification response.
    ///
    /// Fails with a protocol error when fewer than 20 words are supplied;
    /// otherwise yields the device description laid out as
    /// [`spec_device_info_ok`] states.
    pub fn from_raw(data: &[u16]) -> (r: Result<DeviceInfo, Error>)
        ensures
            data@.len() < 20 ==> (r matches Err(e) && e matches Error::Protocol(_)),
            data@.len() >= 20 ==> (r matches Ok(info) && spec_device_info_ok(data@, info)),
    {
        if data.len() < 20 {
            return Err(Error::Protocol(String::from_str("identification response shorter than 20 words")));
        }

        let panel_width = data[0];
        let panel_height = data[1];
        let img_buf_addr_l = data[2];
        let img_buf_addr_h = data[3];
        let img_buf_addr = img_buf_addr_h as u32 * 0x10000 + img_buf_addr_l as u32;

        let fw_version = Self::parse_version_string(data, 4);
        let lut_version = Self::parse_version_string(data, 12);

        Ok(DeviceInfo { panel_width, panel_height, img_buf_addr, fw_version, lut_version })
    }

    /// Decodes the eight-word version region starting at `start`.
    fn parse_version_string(data: &[u16], start: usize) -> (r: String)
        requires
            start + 8 <= data@.len(),
        ensures
            r@ == spec_version_text(data@.subrange(start as int, start + 8)),
    {
        let ghost words = data@.subrange(start as int, start + 8);
        let n = data.len();
        let mut bytes: Vec<u8> = Vec::new();
        let mut i: usize = 0;
        let mut stopped = false;
        proof {
            assert(words.skip(0) =~= words);
            assert(bytes@ + spec_version_bytes(words) =~= spec_version_bytes(words));
        }
        while i < 8 && !stopped
            invariant
                start + 8 <= n && n == data@.len(),
                words == data@.subrange(start as int, start + 8),
                i <= 8,
                if stopped {
                    bytes@ == spec_version_bytes(words)
                } else {
                    spec_version_bytes(words) == bytes@ + spec_version_bytes(words.skip(i as int))
                },
            decreases 8 - i + (if stopped { 0int } else { 1int }),
        {
            let word = data[start + i];
            let lo = (word % 256) as u8;
            let hi = (word / 256) as u8;
            proof {
                assert(words.skip(i as int)[0] == word);
                assert(words.skip(i as int).drop_first() =~= words.skip(i + 1));
            }
            if lo == 0 {
                stopped = true;
            } else if hi == 0 {
                bytes.push(lo);
                stopped = true;
            } else {
                bytes.push(lo);
                bytes.push(hi);
                i += 1;
                proof {
                    if i == 8 {
                        assert(words.skip(8) =~= Seq::<u16>::empty());
                    }
                }
            }
        }
        proof {
            if !stopped {
                assert(words.skip(8) =~= Seq::<u16>::empty());
            }
            assert(bytes@ == spec_version_bytes(words));
        }

        match utf8_bytes_to_string(bytes) {
            Some(text) => text,
            None => String::from_str("Unknown"),
        }
    }

    /// Returns the total number of panel pixels.
    pub fn pixel_count(&self) -> (r: usize)
        ensures
            r == self.panel_width * self.panel_height,
    {
        proof {
            assert(self.panel_width * self.panel_height <= 0xFFFFu16 * 0xFFFFu16)
                by (nonlinear_arith)
                requires
                    self.panel_width <= 0xFFFF,
                    self.panel_height <= 0xFFFF,
            ;
        }
        self.panel_width as usize * self.panel_height as usize
    }
}

/// A rectangle in panel pixel coordinates.
#[derive(Debug, Clone, Copy, PartialEq, Eq, Structural)]
pub struct Area {
    /// X coordinate of the left edge.
    pub x: u16,
    /// Y coordinate of the top edge.
    pub y: u16,
    /// Width in pixels.
    pub width: u16,
    /// Height in pixels.
    pub height: u16,
}

impl Area {
    /// A rectangle is valid for a panel exactly when both spans are positive
    /// and it lies entirely within the panel bounds.
    pub open spec fn spec_valid(self, panel_width: u16, panel_height: u16) -> bool {
        &&& self.width > 0
        &&& self.height > 0
        &&& self.x + self.width <= panel_width
        &&& self.y + self.height <= panel_height
    }

    /// The number of pixels covered.
    pub open spec fn spec_pixel_count(self) -> int {
        self.width * self.height
    }

    /// The intersection, or `None` when the rectangles are disjoint.
    pub open spec fn spec_intersect(self, other: Area) -> Option<Area> {
        let x = max(self.x as int, other.x as int);
        let y = max(self.y as int, other.y as int);
        let x2 = min(self.x + self.width, other.x + other.width);
        let y2 = min(self.y + self.height, other.y + other.height);
        if x < x2 && y < y2 {
            Some(
                Area {
                    x: x as u16,
                    y: y as u16,
                    width: (x2 - x) as u16,
                    height: (y2 - y) as u16,
                },
            )
        } else {
            None
        }
    }

    /// The bounding box of the two rectangles.
    pub open spec fn spec_union(self, other: Area) -> Area {
        let x = min(self.x as int, other.x as int);
        let y = min(self.y as int, other.y as int);
        let x2 = max(self.x + self.width, other.x + other.width);
        let y2 = max(self.y + self.height, other.y + other.height);
        Area { x: x as u16, y: y as u16, width: (x2 - x) as u16, height: (y2 - y) as u16 }
    }

    /// Creates a new area.
    pub fn new(x: u16, y: u16, width: u16, height: u16) -> (r: Area)
        ensures
            r == (Area { x, y, width, height }),
    {
        Area { x, y, width, height }
    }

    /// Returns true exactly when the area is valid for the given panel
    /// dimensions: positive spans, contained within the panel.
    pub fn is_valid(&self, display_width: u16, display_height: u16) -> (r: bool)
        ensures
            r == self.spec_valid(display_width, display_height),
    {
        self.width > 0 && self.height > 0 && (self.x as u32 + self.width as u32
            <= display_width as u32) && (self.y as u32 + self.height as u32
            <= display_height as u32)
    }

    /// Returns the overlap of the two areas, or `None` when they are disjoint.
    pub fn intersect(&self, other: &Area) -> (r: Option<Area>)
        ensures
            r == self.spec_intersect(*other),
    {
        let x: u32 = if self.x > other.x {
            self.x as u32
        } else {
            other.x as u32
        };
        let y: u32 = if self.y > other.y {
            self.y as u32
        } else {
            other.y as u32
        };
        let e1: u32 = self.x as u32 + self.width as u32;
        let e2: u32 = other.x as u32 + other.width as u32;
        let x2: u32 = if e1 < e2 {
            e1
        } else {
            e2
        };
        let f1: u32 = self.y as u32 + self.height as u32;
        let f2: u32 = other.y as u32 + other.height as u32;
        let y2: u32 = if f1 < f2 {
            f1
        } else {
            f2
        };
        if x < x2 && y < y2 {
            Some(
                Area {
                    x: x as u16,
                    y: y as u16,
                    width: (x2 - x) as u16,
                    height: (y2 - y) as u16,
                },
            )
        } else {
            None
        }
    }

    /// Returns the bounding box of the two areas.
    pub fn union(&self, other: &Area) -> (r: Area)
        requires
            self.x + self.width <= u16::MAX,
            self.y + self.height <= u16::MAX,
            other.x + other.width <= u16::MAX,
            other.y + other.height <= u16::MAX,
        ensures
            r == self.spec_union(*other),
    {
        let x: u16 = if self.x < other.x {
            self.x
        } else {
            other.x
        };
        let y: u16 = if self.y < other.y {
            self.y
        } else {
            other.y
        };
        let e1: u16 = self.x + self.width;
        let e2: u16 = other.x + other.width;
        let x2: u16 = if e1 > e2 {
            e1
        } else {
            e2
        };
        let f1: u16 = self.y + self.height;
        let f2: u16 = other.y + other.height;
        let y2: u16 = if f1 > f2 {
            f1
        } else {
            f2
        };
        Area { x, y, width: x2 - x, height: y2 - y }
    }

    /// Returns the number of pixels in the area.
    pub fn pixel_count(&self) -> (r: usize)
        ensures
            r == self.spec_pixel_count(),
    {
        proof {
            assert(self.width * self.height <= 0xFFFFu16 * 0xFFFFu16) by (nonlinear_arith)
                requires
                    self.width <= 0xFFFF,
                    self.height <= 0xFFFF,
            ;
        }
        self.width as usize * self.height as usize
    }

    /// Returns the exclusive right edge coordinate.
    pub fn right(&self) -> (r: u16)
        requires
            self.x + self.width <= u16::MAX,
        ensures
            r == self.x + self.width,
    {
        self.x + self.width
    }

    /// Returns the exclusive bottom edge coordinate.
    pub fn bottom(&self) -> (r: u16)
        requires
            self.y + self.height <= u16::MAX,
        ensures
            r == self.y + self.height,
    {
        self.y + self.height
    }
}

impl From<(u16, u16, u16, u16)> for Area {
    /// Builds an area from an `(x, y, width, height)` tuple.
    fn from(t: (u16, u16, u16, u16)) -> (r: Area) {
        Area { x: t.0, y: t.1, width: t.2, height: t.3 }
    }
}

impl vstd::std_specs::convert::FromSpecImpl<(u16, u16, u16, u16)> for Area {
    open spec fn obeys_from_spec() -> bool {
        true
    }

    open spec fn from_spec(t: (u16, u16, u16, u16)) -> Area {
        Area { x: t.0, y: t.1, width: t.2, height: t.3 }
    }
}

/// Waveform identifiers for a display refresh; the numeric code is sent
/// verbatim in the display-area request.
#[derive(Debug, Clone, Copy, PartialEq, Eq, Structural)]
pub enum DisplayMode {
    /// Initialization waveform; clears ghosting.
    Init,
    /// Direct update: fast, monochrome.
    Du,
    /// 16-level grayscale, high quality.
    Gc16,
    /// 16-level grayscale, faster.
    Gl16,
    /// Animation waveform: fastest, lowest quality.
    A2,
}

impl DisplayMode {
    /// The wire code of the waveform mode.
    pub open spec fn spec_code(self) -> u16 {
        match self {
            DisplayMode::Init => 0,
            DisplayMode::Du => 1,
            DisplayMode::Gc16 => 2,
            DisplayMode::Gl16 => 3,
            DisplayMode::A2 => 4,
        }
    }

    /// Returns the mode's wire code.
    pub fn as_u16(&self) -> (r: u16)
        ensures
            r == self.spec_code(),
    {
        match self {
            DisplayMode::Init => 0,
            DisplayMode::Du => 1,
            DisplayMode::Gc16 => 2,
            DisplayMode::Gl16 => 3,
            DisplayMode::A2 => 4,
        }
    }
}

/// Pixel bit depths the controller can load.
#[derive(Debug, Clone, Copy, PartialEq, Eq, Structural)]
pub enum PixelFormat {
    /// 2 bits per pixel, 4 gray levels.
    Bpp2,
    /// 3 bits per pixel, 8 gray levels.
    Bpp3,
    /// 4 bits per pixel, 16 gray levels.
    Bpp4,
    /// 8 bits per pixel, 256 gray levels.
    Bpp8,
}

impl PixelFormat {
    /// Bits per pixel of the format.
    pub open spec fn spec_bits(self) -> u8 {
        match self {
            PixelFormat::Bpp2 => 2,
            PixelFormat::Bpp3 => 3,
            PixelFormat::Bpp4 => 4,
            PixelFormat::Bpp8 => 8,
        }
    }

    /// The format code carried in the load-image argument word.
    pub open spec fn spec_code(self) -> u16 {
        match self {
            PixelFormat::Bpp2 => 0,
            PixelFormat::Bpp3 => 1,
            PixelFormat::Bpp4 => 2,
            PixelFormat::Bpp8 => 3,
        }
    }

    /// The image data bytes required for `pixel_count` pixels in this format:
    /// pixels are packed to the bit, rounded up to whole bytes.
    pub open spec fn spec_data_len(self, pixel_count: int) -> int {
        match self {
            PixelFormat::Bpp2 => (pixel_count + 3) / 4,
            PixelFormat::Bpp3 => (pixel_count * 3 + 7) / 8,
            PixelFormat::Bpp4 => (pixel_count + 1) / 2,
            PixelFormat::Bpp8 => pixel_count,
        }
    }

    /// Returns the number of bits per pixel.
    pub fn bits(&self) -> (r: u8)
        ensures
            r == self.spec_bits(),
    {
        match self {
            PixelFormat::Bpp2 => 2,
            PixelFormat::Bpp3 => 3,
            PixelFormat::Bpp4 => 4,
            PixelFormat::Bpp8 => 8,
        }
    }

    /// Returns the number of gray levels, `2^bits`.
    pub fn gray_levels(&self) -> (r: u16)
        ensures
            r == vstd::arithmetic::power2::pow2(self.spec_bits() as nat),
    {
        proof {
            vstd::arithmetic::power2::lemma2_to64();
        }
        match self {
            PixelFormat::Bpp2 => 4,
            PixelFormat::Bpp3 => 8,
            PixelFormat::Bpp4 => 16,
            PixelFormat::Bpp8 => 256,
        }
    }

    /// Returns the format's wire code.
    pub fn as_u16(&self) -> (r: u16)
        ensures
            r == self.spec_code(),
    {
        match self {
            PixelFormat::Bpp2 => 0,
            PixelFormat::Bpp3 => 1,
            PixelFormat::Bpp4 => 2,
            PixelFormat::Bpp8 => 3,
        }
    }
}

/// Rotation applied by the controller while loading image data.
#[derive(Debug, Clone, Copy, PartialEq, Eq, Structural)]
pub enum Rotation {
    /// No rotation.
    Rotate0,
    /// 90 degrees clockwise.
    Rotate90,
    /// 180 degrees.
    Rotate180,
    /// 270 degrees clockwise.
    Rotate270,
}

impl Rotation {
    /// The rotation code carried in the load-image argument word.
    pub open spec fn spec_code(self) -> u16 {
        match self {
            Rotation::Rotate0 => 0,
            Rotation::Rotate90 => 1,
            Rotation::Rotate180 => 2,
            Rotation::Rotate270 => 3,
        }
    }

    /// Returns the rotation's wire code.
    pub fn as_u16(&self) -> (r: u16)
        ensures
            r == self.spec_code(),
    {
        match self {
            Rotation::Rotate0 => 0,
            Rotation::Rotate90 => 1,
            Rotation::Rotate180 => 2,
            Rotation::Rotate270 => 3,
        }
    }
}

/// Byte order of pixel data handed to the controller.
#[derive(Debug, Clone, Copy, PartialEq, Eq, Structural)]
pub enum Endian {
    /// Little endian.
    Little,
    /// Big endian.
    Big,
}

impl Endian {
    /// The endian code carried in the load-image argument word.
    pub open spec fn spec_code(self) -> u16 {
        match self {
            Endian::Little => 0,
            Endian::Big => 1,
        }
    }

    /// Returns the endian's wire code.
    pub fn as_u16(&self) -> (r: u16)
        ensures
            r == self.spec_code(),
    {
        match self {
            Endian::Little => 0,
            Endian::Big => 1,
        }
    }
}

/// Parameter bundle consumed while starting an image load.
#[derive(Debug, Clone, Copy, PartialEq, Eq, Structural)]
pub struct LoadImageInfo {
    /// Byte order of the pixel data.
    pub endian: Endian,
    /// Bit depth of the pixel data.
    pub pixel_format: PixelFormat,
    /// Rotation applied by the controller.
    pub rotate: Rotation,
    /// Start address of the source frame buffer.
    pub start_fb_addr: u32,
    /// Base address of the target image buffer in device memory.
    pub img_buf_base_addr: u32,
}

impl LoadImageInfo {
    /// Creates load parameters with the defaults this driver operates with:
    /// little-endian, 8 bits per pixel, no rotation.
    pub fn new(start_fb_addr: u32, img_buf_base_addr: u32) -> (r: LoadImageInfo)
        ensures
            r == (LoadImageInfo {
                endian: Endian::Little,
                pixel_format: PixelFormat::Bpp8,
                rotate: Rotation::Rotate0,
                start_fb_addr,
                img_buf_base_addr,
            }),
    {
        LoadImageInfo {
            endian: Endian::Little,
            pixel_format: PixelFormat::Bpp8,
            rotate: Rotation::Rotate0,
            start_fb_addr,
            img_buf_base_addr,
        }
    }
}

} // verus!
