use vstd::prelude::*;

verus! {

/// One segment of an I2C transfer: the target address, the message flags and
/// the data buffer, whose length the bus carries in 16 bits.
pub struct I2CMsg {
    addr: u16,
    flags: u16,
    len: u16,
    buf: Vec<u8>,
}

/// Flag: the segment reads from the target.
pub const I2C_M_RD: u16 = 0x0001;

/// Flag: the address has ten bits.
pub const I2C_M_TEN: u16 = 0x0010;

/// Flag: the buffer is safe for DMA.
pub const I2C_M_DMA_SAFE: u16 = 0x0200;

/// Flag: the first received byte gives the length.
pub const I2C_M_RECV_LEN: u16 = 0x0400;

/// Flag: skip the acknowledge bit on reads.
pub const I2C_M_NO_RD_ACK: u16 = 0x0800;

/// Flag: treat a NACK from the target as an ACK.
pub const I2C_M_IGNORE_NAK: u16 = 0x1000;

/// Flag: reverse the direction bit of the address.
pub const I2C_M_REV_DIR_ADDR: u16 = 0x2000;

/// Flag: send no repeated start before this segment.
pub const I2C_M_NOSTART: u16 = 0x4000;

/// Flag: force a stop condition after this segment.
pub const I2C_M_STOP: u16 = 0x8000;

impl I2CMsg {
    /// The target address.
    pub closed spec fn spec_addr(&self) -> u16 {
        self.addr
    }

    /// The message flags.
    pub closed spec fn spec_flags(&self) -> u16 {
        self.flags
    }

    /// The length the segment announces.
    pub closed spec fn spec_len(&self) -> u16 {
        self.len
    }

    /// The data of the segment.
    pub closed spec fn spec_buf(&self) -> Seq<u8> {
        self.buf@
    }

    /// A segment for `addr` with `flags` over `buf`, announcing its length.
    pub fn new(addr: u16, flags: u16, buf: Vec<u8>) -> (r: I2CMsg)
        requires
            buf@.len() <= u16::MAX,
        ensures
            r.spec_addr() == addr,
            r.spec_flags() == flags,
            r.spec_len() as nat == buf@.len(),
            r.spec_buf() == buf@,
    {
        let len = buf.len() as u16;
        I2CMsg { addr, flags, len, buf }
    }

    /// The target address.
    pub fn addr(&self) -> (r: u16)
        ensures
            r == self.spec_addr(),
    {
        self.addr
    }

    /// The message flags.
    pub fn flags(&self) -> (r: u16)
        ensures
            r == self.spec_flags(),
    {
        self.flags
    }

    /// The length the segment announces.
    pub fn len(&self) -> (r: u16)
        ensures
            r == self.spec_len(),
    {
        self.len
    }

    /// The data of the segment, for reading.
    pub fn read_from_buf(&self) -> (r: &[u8])
        ensures
            r@ == self.spec_buf(),
    {
        self.buf.as_slice()
    }
}

} // verus!
