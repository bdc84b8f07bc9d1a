use vstd::prelude::*;
use crate::color::{pixel_bytes, supported_bpp, Color};

verus! {

/// The console mode of a virtual terminal.
#[derive(Clone, Copy, Debug, PartialEq, Eq, Structural)]
pub enum ConsoleMode {
    Graphics,
    Text,
}

/// What can go wrong while showing the test frames.
#[derive(Clone, Copy, Debug, PartialEq, Eq, Structural)]
pub enum DisplayError {
    /// The framebuffer device could not be opened.
    DeviceOpen,
    /// The console could not be switched into the given mode.
    ConsoleMode { mode: ConsoleMode },
    /// The framebuffer uses a pixel size that cannot be painted.
    UnsupportedPixelFormat { bytes_per_pixel: u32 },
    /// `line_stride_bytes * height` does not fit in memory on this machine.
    FrameTooLarge { line_stride_bytes: u32, height: u32 },
}

/// Geometry of a framebuffer, as read from the device.
#[derive(Clone, Copy, Debug, PartialEq, Eq, Structural)]
pub struct FramebufferGeometry {
    pub width: u32,
    pub height: u32,
    pub line_stride_bytes: u32,
    pub bytes_per_pixel: u32,
}

/// `len` bytes that repeat `pattern` from its first byte on, the last
/// repetition cut short.
pub open spec fn tiled(len: nat, pattern: Seq<u8>) -> Seq<u8> {
    Seq::new(len, |i: int| pattern[i % pattern.len() as int])
}

/// The contents of a frame of `len` bytes painted in one color.
pub open spec fn painted(len: nat, c: Color, bytes_per_pixel: u32) -> Seq<u8> {
    tiled(len, pixel_bytes(c, bytes_per_pixel))
}

impl FramebufferGeometry {
    /// Geometry from the device's screen information; the pixel size is
    /// given in bits.
    pub fn from_screen_info(xres: u32, yres: u32, line_length: u32, bits_per_pixel: u32) -> (r:
        FramebufferGeometry)
        ensures
            r == (FramebufferGeometry {
                width: xres,
                height: yres,
                line_stride_bytes: line_length,
                bytes_per_pixel: bits_per_pixel / 8,
            }),
    {
        FramebufferGeometry {
            width: xres,
            height: yres,
            line_stride_bytes: line_length,
            bytes_per_pixel: bits_per_pixel / 8,
        }
    }

    /// Size in bytes of one full frame: `line_stride_bytes * height`.
    pub fn frame_len(&self) -> (r: Result<usize, DisplayError>)
        ensures
            self.line_stride_bytes * self.height <= usize::MAX ==> r == Ok::<usize, DisplayError>(
                (self.line_stride_bytes * self.height) as usize,
            ),
            self.line_stride_bytes * self.height > usize::MAX ==> r == Err::<usize, DisplayError>(
                DisplayError::FrameTooLarge {
                    line_stride_bytes: self.line_stride_bytes,
                    height: self.height,
                },
            ),
    {
        let stride = self.line_stride_bytes as u64;
        let height = self.height as u64;
        assert(stride * height <= u32::MAX * u32::MAX) by (nonlinear_arith)
            requires
                stride <= u32::MAX,
                height <= u32::MAX,
        ;
        let len = stride * height;
        if len <= usize::MAX as u64 {
            Ok(len as usize)
        } else {
            Err(
                DisplayError::FrameTooLarge {
                    line_stride_bytes: self.line_stride_bytes,
                    height: self.height,
                },
            )
        }
    }
}

/// The colors shown, in order.
pub fn display_colors() -> (r: [Color; 3])
    ensures
        r@ == seq![Color::Red, Color::Green, Color::Blue],
{
    let r = [Color::Red, Color::Green, Color::Blue];
    assert(r@ =~= seq![Color::Red, Color::Green, Color::Blue]);
    r
}

/// Fill `frame` by repeating `pattern` from its first byte on; where the
/// frame's length is not a multiple of the pattern's, the last repetition is
/// cut short.
pub fn fill_with_pattern(frame: &mut [u8], pattern: &[u8])
    requires
        pattern@.len() > 0,
    ensures
        final(frame)@ == tiled(old(frame)@.len(), pattern@),
{
    let n = frame.len();
    let p = pattern.len();
    let mut i: usize = 0;
    let mut k: usize = 0;
    let ghost mut q: int = 0;
    while i < n
        invariant
            n == frame@.len(),
            n == old(frame)@.len(),
            p == pattern@.len(),
            p > 0,
            i <= n,
            k < p,
            i == q * p + k,
            0 <= q,
            forall|j: int| 0 <= j < i ==> frame@[j] == pattern@[j % p as int],
        decreases n - i,
    {
        proof {
            vstd::arithmetic::div_mod::lemma_fundamental_div_mod_converse(
                i as int,
                p as int,
                q,
                k as int,
            );
        }
        frame[i] = pattern[k];
        i = i + 1;
        if k + 1 == p {
            k = 0;
            proof {
                q = q + 1;
                assert(i == q * p + k) by (nonlinear_arith)
                    requires
                        i == (q - 1) * p + p,
                        k == 0,
                ;
            }
        } else {
            k = k + 1;
        }
    }
    assert(frame@ =~= tiled(old(frame)@.len(), pattern@));
}

/// Paint the whole frame in one color, in the pixel format of
/// `bytespp` bytes per pixel: 2 for RGB565, 4 for `0x00RRGGBB`. Any other
/// pixel size is refused and leaves the frame as it was.
pub fn frame_set_color(frame: &mut [u8], color: Color, bytespp: u32) -> (r: Result<(), DisplayError>)
    ensures
        supported_bpp(bytespp) ==> r == Ok::<(), DisplayError>(()) && final(frame)@ == painted(
            old(frame)@.len(),
            color,
            bytespp,
        ),
        !supported_bpp(bytespp) ==> r == Err::<(), DisplayError>(
            DisplayError::UnsupportedPixelFormat { bytes_per_pixel: bytespp },
        ) && final(frame)@ == old(frame)@,
{
    if bytespp == 2 {
        let pattern = color.to_rgb565();
        fill_with_pattern(frame, pattern.as_slice());
        Ok(())
    } else if bytespp == 4 {
        let pattern = color.to_xrgb8888();
        fill_with_pattern(frame, pattern.as_slice());
        Ok(())
    } else {
        Err(DisplayError::UnsupportedPixelFormat { bytes_per_pixel: bytespp })
    }
}

/// Outcome of the display check once the console has been handed back to
/// text mode: a painting failure comes first, otherwise the result of
/// restoring text mode.
pub fn finish_display(painting: Result<(), DisplayError>, restoring: Result<(), DisplayError>) -> (r:
    Result<(), DisplayError>)
    ensures
        painting is Err ==> r == painting,
        painting is Ok ==> r == restoring,
{
    match painting {
        Err(e) => Err(e),
        Ok(()) => restoring,
    }
}

} // verus!
