//! Addresses in the controller's memory-mapped register space.

use vstd::prelude::*;

verus! {

/// A 16-bit register address.
#[derive(Debug, Clone, Copy, PartialEq, Eq, Structural)]
pub struct Register(pub u16);

impl Register {
    /// The register's address.
    pub open spec fn spec_addr(self) -> u16 {
        self.0
    }

    /// Creates a register from its address.
    pub fn new(addr: u16) -> (r: Register)
        ensures
            r.spec_addr() == addr,
    {
        Register(addr)
    }

    /// Returns the register's address.
    pub fn addr(self) -> (r: u16)
        ensures
            r == self.spec_addr(),
    {
        self.0
    }
}

// The controller's known register addresses, system block first, then the
// display block, then the memory converter block.
impl Register {
    /// I80 packed-mode control register.
    pub fn i80cpcr() -> (r: Register)
        ensures
            r.spec_addr() == 0x0004,
    {
        Register(0x0004)
    }

    /// LUT0 engine width/height register.
    pub fn lut0ewhr() -> (r: Register)
        ensures
            r.spec_addr() == 0x1000,
    {
        Register(0x1000)
    }

    /// LUT0 XY register.
    pub fn lut0xyr() -> (r: Register)
        ensures
            r.spec_addr() == 0x1040,
    {
        Register(0x1040)
    }

    /// LUT0 base address register.
    pub fn lut0baddr() -> (r: Register)
        ensures
            r.spec_addr() == 0x1080,
    {
        Register(0x1080)
    }

    /// LUT0 mode and frame number register.
    pub fn lut0mfn() -> (r: Register)
        ensures
            r.spec_addr() == 0x10C0,
    {
        Register(0x10C0)
    }

    /// LUT0 and LUT1 active flag register.
    pub fn lut01af() -> (r: Register)
        ensures
            r.spec_addr() == 0x1114,
    {
        Register(0x1114)
    }

    /// Update parameter 0 setting register.
    pub fn up0sr() -> (r: Register)
        ensures
            r.spec_addr() == 0x1134,
    {
        Register(0x1134)
    }

    /// Update parameter 1 setting register.
    pub fn up1sr() -> (r: Register)
        ensures
            r.spec_addr() == 0x1138,
    {
        Register(0x1138)
    }

    /// LUT0 alpha blend and fill rectangle value register.
    pub fn lut0abfrv() -> (r: Register)
        ensures
            r.spec_addr() == 0x113C,
    {
        Register(0x113C)
    }

    /// Update buffer base address register.
    pub fn upbbaddr() -> (r: Register)
        ensures
            r.spec_addr() == 0x117C,
    {
        Register(0x117C)
    }

    /// LUT0 image buffer XY offset register.
    pub fn lut0imxy() -> (r: Register)
        ensures
            r.spec_addr() == 0x1180,
    {
        Register(0x1180)
    }

    /// All-LUT-engines-free status register; zero means every waveform engine
    /// is idle.
    pub fn lutafsr() -> (r: Register)
        ensures
            r.spec_addr() == 0x1224,
    {
        Register(0x1224)
    }

    /// Bitmap image color table register.
    pub fn bgvr() -> (r: Register)
        ensures
            r.spec_addr() == 0x1250,
    {
        Register(0x1250)
    }

    /// Memory converter status register.
    pub fn mcsr() -> (r: Register)
        ensures
            r.spec_addr() == 0x0200,
    {
        Register(0x0200)
    }

    /// Load image start address register, low half; the device latches the
    /// composite address when this half is written.
    pub fn lisar() -> (r: Register)
        ensures
            r.spec_addr() == 0x0208,
    {
        Register(0x0208)
    }
}

} // verus!
