use vstd::prelude::*;

verus! {

/// Side length, in pixels, of the canonical square icon that the pipeline
/// always emits.
pub const CANONICAL_SIZE: u32 = 128;

/// What a raw OS pixel buffer looks like once the first and third byte of
/// every 4-byte pixel have been exchanged: the reversed BGRA channel order
/// becomes standard RGBA, the remaining two channels are untouched.
pub open spec fn swapped_pixels(s: Seq<u8>) -> Seq<u8> {
    Seq::new(
        s.len(),
        |i: int| if i % 4 == 0 {
            s[i + 2]
        } else if i % 4 == 2 {
            s[i - 2]
        } else {
            s[i]
        },
    )
}

/// A raw pixel buffer extracted from an OS bitmap: `width * height` pixels of
/// 4 bytes each, tightly packed in top-down row order.
pub struct PixelBuffer {
    pub width: u32,
    pub height: u32,
    pub bytes: Vec<u8>,
}

impl PixelBuffer {
    /// Both dimensions are positive and the byte buffer holds exactly 4 bytes
    /// per pixel.
    pub open spec fn wf(self) -> bool {
        &&& self.width > 0
        &&& self.height > 0
        &&& self.bytes@.len() == self.width as int * self.height as int * 4
    }

    /// Builds a pixel buffer, accepting exactly the combinations of
    /// dimensions and byte count that form a well-formed buffer.
    pub fn new(width: u32, height: u32, bytes: Vec<u8>) -> (r: Option<PixelBuffer>)
        ensures
            match r {
                Some(p) => {
                    &&& p.width == width
                    &&& p.height == height
                    &&& p.bytes@ == bytes@
                    &&& p.wf()
                },
                None => !(width > 0 && height > 0 && bytes@.len() == width as int
                    * height as int * 4),
            },
    {
        if width == 0 || height == 0 {
            return None;
        }
        proof {
            let w = width as int;
            let h = height as int;
            assert(w * h * 4 <= 0xffffffff * 0xffffffff * 4) by (nonlinear_arith)
                requires
                    0 <= w <= 0xffffffff,
                    0 <= h <= 0xffffffff,
            ;
        }
        let expected: u128 = width as u128 * height as u128 * 4;
        if bytes.len() as u128 != expected {
            return None;
        }
        Some(PixelBuffer { width, height, bytes })
    }

    /// Converts the OS's reversed channel order into standard RGBA by
    /// swapping the first and third byte of every 4-byte pixel.
    pub fn swap_channels(&mut self)
        requires
            old(self).wf(),
        ensures
            final(self).wf(),
            final(self).width == old(self).width,
            final(self).height == old(self).height,
            final(self).bytes@ == swapped_pixels(old(self).bytes@),
    {
        let n = self.bytes.len();
        proof {
            let w = old(self).width as int;
            let h = old(self).height as int;
            assert(n as int == w * h * 4);
            assert((w * h * 4) % 4 == 0) by (nonlinear_arith);
        }
        let mut i: usize = 0;
        while i < n
            invariant
                i % 4 == 0,
                i <= n,
                n % 4 == 0,
                self.width == old(self).width,
                self.height == old(self).height,
                n == self.bytes@.len(),
                self.bytes@.len() == old(self).bytes@.len(),
                forall|j: int|
                    0 <= j < i ==> self.bytes@[j] == swapped_pixels(old(self).bytes@)[j],
                forall|j: int| i <= j < n ==> self.bytes@[j] == old(self).bytes@[j],
            decreases n - i,
        {
            assert(i + 4 <= n);
            let blue = self.bytes[i];
            let red = self.bytes[i + 2];
            self.bytes.set(i, red);
            self.bytes.set(i + 2, blue);
            i = i + 4;
        }
        assert(self.bytes@ =~= swapped_pixels(old(self).bytes@));
    }
}

} // verus!
