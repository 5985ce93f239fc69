//! For interacting with tty devices.

use vstd::prelude::*;
use crate::io::ioctl::{
    ioctl_read, ioctl_write, IoDevice, IoctlReq, IoctlReqRead, IoctlReqWrite,
};
use crate::sys::layout::{
    le_u16, lemma_le_u16_at, lemma_u16_le, push_u16, read_u16, u16_le, Layout,
};

verus! {

/// The size of the window (or equivalent) that a tty is presented through.
#[derive(Clone, Copy, Debug, PartialEq, Eq, Structural)]
pub struct WindowSize {
    /// The number of rows in the window.
    pub ws_row: u16,
    /// The number of columns in the window.
    pub ws_col: u16,
    /// Not actually used.
    pub ws_xpixel: u16,
    /// Not actually used.
    pub ws_ypixel: u16,
}

impl Layout for WindowSize {
    open spec fn spec_size() -> nat {
        8
    }

    open spec fn spec_encode(&self) -> Seq<u8> {
        u16_le(self.ws_row) + u16_le(self.ws_col) + u16_le(self.ws_xpixel) + u16_le(self.ws_ypixel)
    }

    open spec fn spec_decode(bytes: Seq<u8>) -> Self {
        WindowSize {
            ws_row: le_u16(bytes, 0) as u16,
            ws_col: le_u16(bytes, 2) as u16,
            ws_xpixel: le_u16(bytes, 4) as u16,
            ws_ypixel: le_u16(bytes, 6) as u16,
        }
    }

    proof fn lemma_round_trip(&self) {
        let a = u16_le(self.ws_row);
        let b = u16_le(self.ws_col);
        let c = u16_le(self.ws_xpixel);
        let d = u16_le(self.ws_ypixel);
        let all = self.spec_encode();
        lemma_u16_le(self.ws_row);
        lemma_u16_le(self.ws_col);
        lemma_u16_le(self.ws_xpixel);
        lemma_u16_le(self.ws_ypixel);
        assert(all =~= Seq::<u8>::empty() + a + (b + c + d));
        lemma_le_u16_at(Seq::empty(), self.ws_row, b + c + d);
        assert(all =~= a + b + (c + d));
        lemma_le_u16_at(a, self.ws_col, c + d);
        assert(all =~= (a + b) + c + d);
        lemma_le_u16_at(a + b, self.ws_xpixel, d);
        assert(all =~= (a + b + c) + d + Seq::<u8>::empty());
        lemma_le_u16_at(a + b + c, self.ws_ypixel, Seq::empty());
    }

    fn size() -> (n: usize) {
        8
    }

    fn encode(&self) -> (bytes: Vec<u8>) {
        let mut v: Vec<u8> = Vec::new();
        push_u16(&mut v, self.ws_row);
        push_u16(&mut v, self.ws_col);
        push_u16(&mut v, self.ws_xpixel);
        push_u16(&mut v, self.ws_ypixel);
        assert(v@ =~= self.spec_encode());
        v
    }

    fn decode(bytes: &[u8]) -> (value: Self) {
        WindowSize {
            ws_row: read_u16(bytes, 0),
            ws_col: read_u16(bytes, 2),
            ws_xpixel: read_u16(bytes, 4),
            ws_ypixel: read_u16(bytes, 6),
        }
    }
}

/// A marker type for files that represent tty devices.
pub struct TtyDevice;

impl IoDevice for TtyDevice {

}

/// The request that retrieves the current window size of a tty.
#[allow(non_snake_case)]
pub fn TIOCGWINSZ() -> (req: IoctlReqRead<TtyDevice, WindowSize>)
    ensures
        req.spec_request() == 0x5413,
{
    ioctl_read(0x5413)
}

/// The request that changes the window size of a tty.
#[allow(non_snake_case)]
pub fn TIOCSWINSZ() -> (req: IoctlReqWrite<TtyDevice, WindowSize, i32>)
    ensures
        req.spec_request() == 0x5414,
{
    ioctl_write(0x5414)
}

} // verus!
