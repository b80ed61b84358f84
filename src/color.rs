use vstd::prelude::*;
use vstd::arithmetic::div_mod::lemma_fundamental_div_mod_converse;

verus! {

/// An interleaved RGBA raster, four bytes per pixel, rows top to bottom.
#[derive(Debug, Clone)]
pub struct RgbaFrame {
    pub width: u32,
    pub height: u32,
    pub pixels: Vec<u8>,
}

impl RgbaFrame {
    /// The pixel buffer holds exactly four bytes for each pixel.
    pub open spec fn wf(&self) -> bool {
        self.pixels@.len() == self.width * self.height * 4
    }
}

/// Index of pixel `(x, y)` in plane `plane` of a planar buffer whose planes
/// each hold `w * h` bytes.
pub open spec fn plane_offset(w: int, h: int, plane: int, y: int, x: int) -> int {
    w * (h * plane + y) + x
}

/// The plane that supplies the alpha of row `y`: the rows are split in thirds
/// at `(h + 2) / 3` and `(h + 2) / 3 * 2`.
pub open spec fn alpha_plane(h: int, y: int) -> int {
    if y < (h + 2) / 3 {
        1
    } else if y < (h + 2) / 3 * 2 {
        2
    } else {
        3
    }
}

/// Channel `c` (red, green, blue, alpha) of pixel `(x, y)`: colour comes from
/// the planes in the order blue, green, red.
pub open spec fn channel(data: Seq<u8>, w: int, h: int, opaque: bool, y: int, x: int, c: int) -> u8 {
    if c == 0 {
        data[plane_offset(w, h, 2, y, x)]
    } else if c == 1 {
        data[plane_offset(w, h, 1, y, x)]
    } else if c == 2 {
        data[plane_offset(w, h, 0, y, x)]
    } else if opaque {
        0xff
    } else {
        data[plane_offset(w, h, alpha_plane(h, y), y, x)]
    }
}

/// Byte `k` of the interleaved raster of width `w`.
pub open spec fn rgba_byte(data: Seq<u8>, w: int, h: int, opaque: bool, k: int) -> u8 {
    channel(data, w, h, opaque, (k / 4) / w, (k / 4) % w, k % 4)
}

/// Number of planes a decoded buffer must hold.
pub open spec fn planes_needed(opaque: bool) -> int {
    if opaque {
        3
    } else {
        4
    }
}

proof fn lemma_plane_offset_bound(w: int, h: int, plane: int, y: int, x: int)
    requires
        0 <= x < w,
        0 <= y < h,
        0 <= plane,
    ensures
        0 <= h * plane + y <= w * (h * plane + y),
        w * (h * plane + y) <= plane_offset(w, h, plane, y, x),
        plane_offset(w, h, plane, y, x) < w * h * (plane + 1),
{
    assert(0 <= h * plane + y <= w * (h * plane + y)) by (nonlinear_arith)
        requires
            0 <= y < h,
            0 <= plane,
            1 <= w,
    ;
    assert(w * (h * plane + y) + x < w * h * (plane + 1)) by (nonlinear_arith)
        requires
            0 <= x < w,
            0 <= y < h,
            0 <= plane,
    ;
}

proof fn lemma_more_planes(w: int, h: int, p: int, q: int)
    requires
        0 <= w,
        0 <= h,
        0 <= p <= q,
    ensures
        w * h * p <= w * h * q,
{
    assert(w * h * p <= w * h * q) by (nonlinear_arith)
        requires
            0 <= w,
            0 <= h,
            0 <= p <= q,
    ;
}

fn plane_byte(data: &Vec<u8>, w: usize, h: usize, plane: usize, y: usize, x: usize) -> (r: u8)
    requires
        x < w,
        y < h,
        plane < 4,
        w * h * (plane + 1) <= data@.len(),
    ensures
        r == data@[plane_offset(w as int, h as int, plane as int, y as int, x as int)],
{
    proof {
        lemma_plane_offset_bound(w as int, h as int, plane as int, y as int, x as int);
    }
    let n = data.len();
    assert(n == data@.len());
    data[w * (h * plane + y) + x]
}

proof fn lemma_pixel_coords(w: int, y: int, x: int, c: int)
    requires
        0 <= x < w,
        0 <= y,
        0 <= c < 4,
    ensures
        (4 * (w * y + x) + c) / 4 == w * y + x,
        (4 * (w * y + x) + c) % 4 == c,
        (w * y + x) / w == y,
        (w * y + x) % w == x,
{
    assert(w * y == y * w) by (nonlinear_arith);
    lemma_fundamental_div_mod_converse(4 * (w * y + x) + c, 4, w * y + x, c);
    lemma_fundamental_div_mod_converse(w * y + x, w, y, x);
}

/// Converts a decoded planar buffer (blue, green, red planes, then the alpha
/// region) into an interleaved RGBA raster. When `opaque` holds every alpha
/// byte is 0xff and the alpha region is not read.
pub fn planar_to_rgba(data: &Vec<u8>, width: u32, height: u32, opaque: bool) -> (r: RgbaFrame)
    requires
        width * height * planes_needed(opaque) <= data@.len(),
        width * height * 4 <= usize::MAX,
    ensures
        r.width == width,
        r.height == height,
        r.wf(),
        forall|k: int|
            0 <= k < r.pixels@.len() ==> #[trigger] r.pixels@[k] == rgba_byte(
                data@,
                width as int,
                height as int,
                opaque,
                k,
            ),
{
    let w = width as usize;
    let h = height as usize;
    let ghost (wi, hi) = (w as int, h as int);
    let mut pixels: Vec<u8> = Vec::new();
    let mut y: usize = 0;
    let third: u64 = (height as u64 + 2) / 3;
    proof {
        lemma_more_planes(wi, hi, 3, planes_needed(opaque));
    }
    while y < h
        invariant
            w == width,
            h == height,
            third == (hi + 2) / 3,
            wi == w,
            hi == h,
            y <= h,
            w * h * 3 <= data@.len(),
            w * h * planes_needed(opaque) <= data@.len(),
            w * h * 4 <= usize::MAX,
            pixels@.len() == 4 * (w * y),
            forall|k: int|
                0 <= k < pixels@.len() ==> #[trigger] pixels@[k] == rgba_byte(
                    data@,
                    wi,
                    hi,
                    opaque,
                    k,
                ),
        decreases h - y,
    {
        let mut x: usize = 0;
        while x < w
            invariant
                w == width,
                h == height,
                third == (hi + 2) / 3,
                wi == w,
                hi == h,
                y < h,
                x <= w,
                w * h * 3 <= data@.len(),
                w * h * planes_needed(opaque) <= data@.len(),
                w * h * 4 <= usize::MAX,
                pixels@.len() == 4 * (w * y + x),
                forall|k: int|
                    0 <= k < pixels@.len() ==> #[trigger] pixels@[k] == rgba_byte(
                        data@,
                        wi,
                        hi,
                        opaque,
                        k,
                    ),
            decreases w - x,
        {
            let ghost (yi, xi) = (y as int, x as int);
            proof {
                lemma_more_planes(wi, hi, 1, 3);
                lemma_more_planes(wi, hi, 2, 3);
            }
            let red = plane_byte(data, w, h, 2, y, x);
            let green = plane_byte(data, w, h, 1, y, x);
            let blue = plane_byte(data, w, h, 0, y, x);
            let alpha = if opaque {
                0xffu8
            } else if (y as u64) < third {
                plane_byte(data, w, h, 1, y, x)
            } else if (y as u64) < third * 2 {
                plane_byte(data, w, h, 2, y, x)
            } else {
                plane_byte(data, w, h, 3, y, x)
            };
            assert(alpha == channel(data@, wi, hi, opaque, yi, xi, 3));
            let ghost before = pixels@;
            let ghost base = 4 * (wi * yi + xi);
            proof {
                assert(4 * (wi * yi + xi) + 4 <= 4 * (wi * hi)) by (nonlinear_arith)
                    requires
                        0 <= xi < wi,
                        0 <= yi < hi,
                ;
            }
            pixels.push(red);
            pixels.push(green);
            pixels.push(blue);
            pixels.push(alpha);
            proof {
                lemma_pixel_coords(wi, yi, xi, 0);
                lemma_pixel_coords(wi, yi, xi, 1);
                lemma_pixel_coords(wi, yi, xi, 2);
                lemma_pixel_coords(wi, yi, xi, 3);
                assert forall|k: int| 0 <= k < pixels@.len() implies #[trigger] pixels@[k]
                    == rgba_byte(data@, wi, hi, opaque, k) by {
                    if k >= base {
                        assert(k == base || k == base + 1 || k == base + 2 || k == base + 3);
                    } else {
                        assert(pixels@[k] == before[k]);
                    }
                }
            }
            x += 1;
        }
        assert(4 * (w * y + w) == 4 * (w * (y + 1))) by (nonlinear_arith);
        y += 1;
    }
    proof {
        assert(pixels@.len() == w * h * 4) by (nonlinear_arith)
            requires
                pixels@.len() == 4 * (w * y),
                y == h,
        ;
    }
    RgbaFrame { width, height, pixels }
}

/// Drops the alpha byte of every pixel: byte `3 * i + c` of the result is
/// byte `4 * i + c` of the raster.
pub fn rgba_to_rgb(image: &RgbaFrame) -> (r: Vec<u8>)
    requires
        image.wf(),
    ensures
        r@.len() == image.width * image.height * 3,
        forall|i: int, c: int|
            0 <= i < image.width * image.height && 0 <= c < 3 ==> #[trigger] r@[3 * i + c]
                == image.pixels@[4 * i + c],
{
    let len = image.pixels.len();
    let n = len / 4;
    let mut out: Vec<u8> = Vec::new();
    let mut i: usize = 0;
    while i < n
        invariant
            len == image.pixels@.len(),
            n == image.width * image.height,
            image.pixels@.len() == 4 * n,
            i <= n,
            out@.len() == 3 * i,
            forall|j: int, c: int|
                0 <= j < i && 0 <= c < 3 ==> #[trigger] out@[3 * j + c] == image.pixels@[4 * j + c],
        decreases n - i,
    {
        let ghost before = out@;
        out.push(image.pixels[4 * i]);
        out.push(image.pixels[4 * i + 1]);
        out.push(image.pixels[4 * i + 2]);
        proof {
            assert forall|j: int, c: int| 0 <= j < i + 1 && 0 <= c < 3 implies #[trigger] out@[3
                * j + c] == image.pixels@[4 * j + c] by {
                if j < i {
                    assert(out@[3 * j + c] == before[3 * j + c]);
                } else {
                    assert(c == 0 || c == 1 || c == 2);
                }
            }
        }
        i += 1;
    }
    out
}

/// A decoded frame is opaque when the decoder's height equals the height in
/// the container header; otherwise the alpha region is stacked below it.
pub fn frame_is_opaque(header_height: u32, decoded_height: u32) -> (r: bool)
    ensures
        r == (header_height == decoded_height),
{
    header_height == decoded_height
}

} // verus!
