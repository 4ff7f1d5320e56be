use vstd::prelude::*;

verus! {

/// A 32-bit image: `width` by `height` pixels, 4 bytes each in B, G, R, A
/// order, rows from the top down.
#[derive(Debug, PartialEq, Eq)]
pub struct SpriteImage {
    pub width: u32,
    pub height: u32,
    pub pixels: Vec<u8>,
}

impl SpriteImage {
    /// The pixel buffer holds exactly `width * height` pixels.
    pub open spec fn wf(&self) -> bool {
        self.pixels@.len() == self.width * self.height * 4
    }

    pub fn from_bgra(width: u32, height: u32, pixels: Vec<u8>) -> (s: Self)
        ensures
            s.width == width,
            s.height == height,
            s.pixels@ == pixels@,
    {
        SpriteImage { width, height, pixels }
    }
}

/// Byte `c` (0 = blue, 1 = green, 2 = red, 3 = alpha) of an opaque magenta
/// pixel, the colour that the layered window shows as transparent.
pub open spec fn magenta_byte(c: int) -> u8 {
    if c == 1 {
        0u8
    } else {
        0xFFu8
    }
}

/// A buffer of `len` bytes filled with opaque magenta pixels.
pub open spec fn magenta_fill(len: nat) -> Seq<u8> {
    Seq::new(len, |i: int| magenta_byte(i % 4))
}

/// Index of the source pixel that destination pixel `p` of a `dw` by `dh`
/// buffer takes, when the rectangle at (`sx`, `sy`) of size `sw` by `sh` of
/// an image `stride` pixels wide is stretched over the whole buffer
/// (nearest pixel, rounding down).
pub open spec fn source_pixel(
    dw: nat,
    dh: nat,
    stride: nat,
    sx: nat,
    sy: nat,
    sw: nat,
    sh: nat,
    p: int,
) -> int {
    let dx = p % (dw as int);
    let dy = p / (dw as int);
    let rx = sx + dx * sw / (dw as int);
    let ry = sy + dy * sh / (dh as int);
    ry * stride + rx
}

/// The buffer `dst` after that stretch: each destination pixel takes the
/// source pixel's four bytes when the source pixel is not fully transparent,
/// and keeps its own bytes otherwise.  An empty rectangle draws nothing.
pub open spec fn blit(
    dst: Seq<u8>,
    dw: nat,
    dh: nat,
    src: Seq<u8>,
    stride: nat,
    sx: nat,
    sy: nat,
    sw: nat,
    sh: nat,
) -> Seq<u8> {
    if sw == 0 || sh == 0 {
        dst
    } else {
        Seq::new(
            dst.len(),
            |i: int|
                {
                    let s = source_pixel(dw, dh, stride, sx, sy, sw, sh, i / 4) * 4;
                    if src[s + 3] > 0 {
                        src[s + i % 4]
                    } else {
                        dst[i]
                    }
                },
        )
    }
}

/// A `len`-byte buffer of `dw` by `dh` pixels after drawing the given frame
/// of a sheet on the transparent background for a pet facing the given way:
/// the frame is stretched over the buffer, whichever way the pet faces.
pub open spec fn prepared_frame(
    len: nat,
    dw: nat,
    dh: nat,
    sheet: Seq<u8>,
    stride: nat,
    fx: nat,
    fy: nat,
    fw: nat,
    fh: nat,
    facing_right: bool,
) -> Seq<u8> {
    blit(magenta_fill(len), dw, dh, sheet, stride, fx, fy, fw, fh)
}

/// The picture shown in the pet's window, in the layout of `SpriteImage`.
#[derive(Debug, PartialEq, Eq)]
pub struct FrameBuffer {
    pub width: u32,
    pub height: u32,
    pub pixels: Vec<u8>,
}

proof fn lemma_scaled_below(d: int, n: int, s: int)
    requires
        0 <= d < n,
        0 < s,
    ensures
        0 <= d * s / n < s,
{
    assert(0 <= d * s / n < s) by (nonlinear_arith)
        requires
            0 <= d < n,
            0 < s,
    ;
}

proof fn lemma_product_fits(a: int, b: int)
    requires
        0 <= a <= u32::MAX,
        0 <= b <= u32::MAX,
    ensures
        0 <= a * b <= u64::MAX,
{
    assert(0 <= a * b <= u64::MAX) by (nonlinear_arith)
        requires
            0 <= a <= u32::MAX,
            0 <= b <= u32::MAX,
    ;
}

proof fn lemma_pixel_in_image(x: int, y: int, w: int, h: int)
    requires
        0 <= x < w,
        0 <= y < h,
    ensures
        0 <= y * w + x < w * h,
        (y * w + x) * 4 + 3 < w * h * 4,
{
    assert(0 <= y * w + x < w * h) by (nonlinear_arith)
        requires
            0 <= x < w,
            0 <= y < h,
    ;
}

proof fn lemma_pixel_coords(p: int, dx: int, dy: int, w: int)
    requires
        0 <= dx < w,
        0 <= dy,
        p == dy * w + dx,
    ensures
        p % w == dx,
        p / w == dy,
{
    vstd::arithmetic::div_mod::lemma_fundamental_div_mod_converse_mod(p, w, dy, dx);
    vstd::arithmetic::div_mod::lemma_fundamental_div_mod_converse_div(p, w, dy, dx);
}

impl FrameBuffer {
    /// The pixel buffer holds exactly `width * height` pixels.
    pub open spec fn wf(&self) -> bool {
        self.pixels@.len() == self.width * self.height * 4
    }

    /// A buffer of `width` by `height` pixels, all bytes zero.
    pub fn new(width: u32, height: u32) -> (fb: Self)
        requires
            width * height * 4 <= isize::MAX,
        ensures
            fb.width == width,
            fb.height == height,
            fb.pixels@ == Seq::new((width * height * 4) as nat, |i: int| 0u8),
            fb.wf(),
    {
        let count = width as usize * height as usize * 4;
        let mut pixels: Vec<u8> = Vec::new();
        while pixels.len() < count
            invariant
                pixels@.len() <= count,
                forall|i: int| 0 <= i < pixels@.len() ==> pixels@[i] == 0u8,
            decreases count - pixels@.len(),
        {
            pixels.push(0u8);
        }
        assert(pixels@ =~= Seq::new((width * height * 4) as nat, |i: int| 0u8));
        FrameBuffer { width, height, pixels }
    }

    /// Fills the buffer with the transparent colour key.
    pub fn clear_to_magenta(&mut self)
        requires
            old(self).wf(),
        ensures
            final(self).width == old(self).width,
            final(self).height == old(self).height,
            final(self).pixels@ == magenta_fill(old(self).pixels@.len()),
            final(self).wf(),
    {
        let count = self.pixels.len();
        let mut i: usize = 0;
        while i < count
            invariant
                count == self.pixels@.len(),
                self.pixels@.len() == old(self).pixels@.len(),
                self.width == old(self).width,
                self.height == old(self).height,
                i <= count,
                forall|j: int| 0 <= j < i ==> self.pixels@[j] == magenta_byte(j % 4),
            decreases count - i,
        {
            self.pixels[i] = if i % 4 == 1 {
                0x00
            } else {
                0xFF
            };
            i += 1;
        }
        assert(self.pixels@ =~= magenta_fill(old(self).pixels@.len()));
    }

    /// Stretches the rectangle at (`sx`, `sy`) of size `sw` by `sh` of
    /// `sprite` over the whole buffer; transparent source pixels are skipped.
    fn blit_scaled(&mut self, sprite: &SpriteImage, sx: u32, sy: u32, sw: u32, sh: u32)
        requires
            old(self).wf(),
            sprite.wf(),
            sw > 0 && sh > 0 ==> sx + sw <= sprite.width && sy + sh <= sprite.height,
        ensures
            final(self).width == old(self).width,
            final(self).height == old(self).height,
            final(self).pixels@ == blit(
                old(self).pixels@,
                old(self).width as nat,
                old(self).height as nat,
                sprite.pixels@,
                sprite.width as nat,
                sx as nat,
                sy as nat,
                sw as nat,
                sh as nat,
            ),
            final(self).wf(),
    {
        if sw == 0 || sh == 0 {
            return ;
        }
        let ghost old_px = self.pixels@;
        let ghost expected = blit(
            old_px,
            self.width as nat,
            self.height as nat,
            sprite.pixels@,
            sprite.width as nat,
            sx as nat,
            sy as nat,
            sw as nat,
            sh as nat,
        );
        let dw = self.width;
        let dh = self.height;
        let stride = sprite.width;
        let slen = sprite.pixels.len();
        let dlen = self.pixels.len();
        let mut p: usize = 0;
        let mut dy: u32 = 0;
        while dy < dh
            invariant
                self.width == dw,
                self.height == dh,
                self.pixels@.len() == old_px.len(),
                old_px.len() == dw * dh * 4,
                expected.len() == old_px.len(),
                sprite.wf(),
                slen == sprite.pixels@.len(),
                dlen == old_px.len(),
                stride == sprite.width,
                sx + sw <= sprite.width,
                sy + sh <= sprite.height,
                sw > 0,
                sh > 0,
                dy <= dh,
                p == dy * dw,
                expected == blit(
                    old_px,
                    dw as nat,
                    dh as nat,
                    sprite.pixels@,
                    stride as nat,
                    sx as nat,
                    sy as nat,
                    sw as nat,
                    sh as nat,
                ),
                forall|i: int|
                    0 <= i < old_px.len() ==> #[trigger] self.pixels@[i] == if i / 4 < p {
                        expected[i]
                    } else {
                        old_px[i]
                    },
            decreases dh - dy,
        {
            proof {
                lemma_scaled_below(dy as int, dh as int, sh as int);
                lemma_product_fits(dy as int, sh as int);
            }
            let ry: u64 = sy as u64 + (dy as u64 * sh as u64) / dh as u64;
            let mut dx: u32 = 0;
            while dx < dw
                invariant
                    self.width == dw,
                    self.height == dh,
                    self.pixels@.len() == old_px.len(),
                    old_px.len() == dw * dh * 4,
                    expected.len() == old_px.len(),
                    sprite.wf(),
                    slen == sprite.pixels@.len(),
                dlen == old_px.len(),
                    stride == sprite.width,
                    sx + sw <= sprite.width,
                    sy + sh <= sprite.height,
                    sw > 0,
                    sh > 0,
                    dy < dh,
                    dx <= dw,
                    p == dy * dw + dx,
                    ry == sy + dy * sh / (dh as int),
                    sy <= ry < sy + sh,
                    expected == blit(
                        old_px,
                        dw as nat,
                        dh as nat,
                        sprite.pixels@,
                        stride as nat,
                        sx as nat,
                        sy as nat,
                        sw as nat,
                        sh as nat,
                    ),
                    forall|i: int|
                        0 <= i < old_px.len() ==> #[trigger] self.pixels@[i] == if i / 4 < p {
                            expected[i]
                        } else {
                            old_px[i]
                        },
                decreases dw - dx,
            {
                proof {
                    lemma_product_fits(dx as int, sw as int);
                    lemma_scaled_below(dx as int, dw as int, sw as int);
                    lemma_pixel_in_image(dx as int, dy as int, dw as int, dh as int);
                    lemma_pixel_coords(p as int, dx as int, dy as int, dw as int);
                }
                let rx: u64 = sx as u64 + (dx as u64 * sw as u64) / dw as u64;
                proof {
                    lemma_pixel_in_image(
                        rx as int,
                        ry as int,
                        sprite.width as int,
                        sprite.height as int,
                    );
                }
                let si: usize = ((ry * stride as u64 + rx) * 4) as usize;
                let di: usize = p * 4;
                let ghost before = self.pixels@;
                if sprite.pixels[si + 3] > 0 {
                    self.pixels[di] = sprite.pixels[si];
                    self.pixels[di + 1] = sprite.pixels[si + 1];
                    self.pixels[di + 2] = sprite.pixels[si + 2];
                    self.pixels[di + 3] = sprite.pixels[si + 3];
                }
                proof {
                    assert forall|i: int| 0 <= i < old_px.len() implies #[trigger] self.pixels@[i]
                        == if i / 4 < p + 1 {
                        expected[i]
                    } else {
                        old_px[i]
                    } by {
                        if i / 4 == p {
                            assert(di <= i < di + 4);
                            assert(source_pixel(
                                dw as nat,
                                dh as nat,
                                stride as nat,
                                sx as nat,
                                sy as nat,
                                sw as nat,
                                sh as nat,
                                i / 4,
                            ) == ry * stride + rx);
                        } else {
                            assert(!(di <= i < di + 4));
                            assert(self.pixels@[i] == before[i]);
                        }
                    }
                }
                p = p + 1;
                dx = dx + 1;
            }
            assert(p == (dy + 1) * dw) by (nonlinear_arith)
                requires
                    p == dy * dw + dx,
                    dx == dw,
            ;
            dy = dy + 1;
        }
        assert(p == dw * dh) by (nonlinear_arith)
            requires
                p == dy * dw,
                dy == dh,
        ;
        assert(self.pixels@ =~= expected);
    }

    /// Draws `sprite` stretched over the whole buffer on a magenta
    /// background.
    pub fn prepare_sprite(&mut self, sprite: &SpriteImage)
        requires
            old(self).wf(),
            sprite.wf(),
        ensures
            final(self).width == old(self).width,
            final(self).height == old(self).height,
            final(self).pixels@ == blit(
                magenta_fill(old(self).pixels@.len()),
                old(self).width as nat,
                old(self).height as nat,
                sprite.pixels@,
                sprite.width as nat,
                0,
                0,
                sprite.width as nat,
                sprite.height as nat,
            ),
            final(self).wf(),
    {
        self.clear_to_magenta();
        self.blit_scaled(sprite, 0, 0, sprite.width, sprite.height);
    }

    /// Draws the frame at (`frame_x`, `frame_y`) of size `frame_w` by
    /// `frame_h` of `sheet` stretched over the whole buffer on a magenta
    /// background.  The frame is drawn as it is in the sheet whichever way
    /// the pet faces.  An empty frame leaves just the background, wherever
    /// it lies, and the sheet is not read.
    pub fn prepare_frame(
        &mut self,
        sheet: &SpriteImage,
        frame_x: u32,
        frame_y: u32,
        frame_w: u32,
        frame_h: u32,
        facing_right: bool,
    )
        requires
            old(self).wf(),
            sheet.wf(),
            frame_w > 0 && frame_h > 0 ==> frame_x + frame_w <= sheet.width && frame_y + frame_h
                <= sheet.height,
        ensures
            final(self).width == old(self).width,
            final(self).height == old(self).height,
            final(self).pixels@ == prepared_frame(
                old(self).pixels@.len(),
                old(self).width as nat,
                old(self).height as nat,
                sheet.pixels@,
                sheet.width as nat,
                frame_x as nat,
                frame_y as nat,
                frame_w as nat,
                frame_h as nat,
                facing_right,
            ),
            final(self).wf(),
    {
        self.clear_to_magenta();
        if frame_w == 0 || frame_h == 0 {
            return ;
        }
        self.blit_scaled(sheet, frame_x, frame_y, frame_w, frame_h);
    }
}

/// Drawing a picture of the buffer's own size copies every opaque pixel as
/// it is: no pixel moves.
pub proof fn law_same_size_picture_is_copied(dst: Seq<u8>, w: nat, h: nat, src: Seq<u8>)
    requires
        w > 0,
        h > 0,
        dst.len() == w * h * 4,
        src.len() == w * h * 4,
        forall|p: int| 0 <= p < w * h ==> #[trigger] src[p * 4 + 3] > 0,
    ensures
        blit(dst, w, h, src, w, 0, 0, w, h) == src,
{
    let r = blit(dst, w, h, src, w, 0, 0, w, h);
    assert forall|i: int| 0 <= i < src.len() implies #[trigger] r[i] == src[i] by {
        let p = i / 4;
        let dx = p % (w as int);
        let dy = p / (w as int);
        vstd::arithmetic::div_mod::lemma_fundamental_div_mod(p, w as int);
        vstd::arithmetic::div_mod::lemma_div_multiples_vanish(dx, w as int);
        vstd::arithmetic::div_mod::lemma_div_multiples_vanish(dy, h as int);
        assert(dx * w == w * dx) by (nonlinear_arith);
        assert(dy * h == h * dy) by (nonlinear_arith);
        assert(p < w * h) by (nonlinear_arith)
            requires
                0 <= i < w * h * 4,
                p == i / 4,
        ;
        assert(0 <= dy < h) by (nonlinear_arith)
            requires
                0 <= p < w * h,
                dy == p / (w as int),
                w > 0,
        ;
        assert((dx * (w as int)) / (w as int) == dx);
        assert((dy * (h as int)) / (h as int) == dy);
        assert(dy * (w as int) + dx == p) by (nonlinear_arith)
            requires
                p == (w as int) * (p / (w as int)) + p % (w as int),
                dx == p % (w as int),
                dy == p / (w as int),
        ;
        assert(source_pixel(w, h, w, 0, 0, w, h, p) == p);
        assert(src[p * 4 + 3] > 0);
    }
    assert(r =~= src);
}

/// An empty frame draws nothing: the buffer keeps what it had, so a frame
/// prepared from an empty rectangle is all background.
pub proof fn law_empty_frame_draws_nothing(
    dst: Seq<u8>,
    dw: nat,
    dh: nat,
    src: Seq<u8>,
    stride: nat,
    sx: nat,
    sy: nat,
    sw: nat,
    sh: nat,
)
    requires
        sw == 0 || sh == 0,
    ensures
        blit(dst, dw, dh, src, stride, sx, sy, sw, sh) == dst,
        blit(magenta_fill(dst.len()), dw, dh, src, stride, sx, sy, sw, sh) == magenta_fill(
            dst.len(),
        ),
{
}

/// Which way the pet faces never changes the drawn frame: a left-facing
/// frame comes from its own sheet row, not from mirroring.
pub proof fn law_facing_does_not_mirror(
    len: nat,
    dw: nat,
    dh: nat,
    sheet: Seq<u8>,
    stride: nat,
    fx: nat,
    fy: nat,
    fw: nat,
    fh: nat,
)
    ensures
        prepared_frame(len, dw, dh, sheet, stride, fx, fy, fw, fh, true) == prepared_frame(
            len,
            dw,
            dh,
            sheet,
            stride,
            fx,
            fy,
            fw,
            fh,
            false,
        ),
{
}

/// Fully transparent source pixels leave the buffer as it was.
pub proof fn law_transparent_picture_draws_nothing(
    dst: Seq<u8>,
    dw: nat,
    dh: nat,
    src: Seq<u8>,
    stride: nat,
    sx: nat,
    sy: nat,
    sw: nat,
    sh: nat,
)
    requires
        forall|q: int| 0 <= q * 4 + 3 < src.len() ==> #[trigger] src[q * 4 + 3] == 0,
        forall|i: int|
            0 <= i < dst.len() ==> 0 <= source_pixel(dw, dh, stride, sx, sy, sw, sh, #[trigger] (i
                / 4)) * 4 + 3 < src.len(),
    ensures
        blit(dst, dw, dh, src, stride, sx, sy, sw, sh) == dst,
{
    let r = blit(dst, dw, dh, src, stride, sx, sy, sw, sh);
    if !(sw == 0 || sh == 0) {
        assert forall|i: int| 0 <= i < dst.len() implies #[trigger] r[i] == dst[i] by {
            let q = source_pixel(dw, dh, stride, sx, sy, sw, sh, i / 4);
            assert(src[q * 4 + 3] == 0);
        }
        assert(r =~= dst);
    }
}

} // verus!
