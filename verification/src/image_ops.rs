use vstd::prelude::*;
use crate::rotation::Rotation;

verus! {

/// An 8-bit RGBA image: `width * height` pixels of four bytes each, row by row.
pub struct RgbaPixels {
    pub width: u32,
    pub height: u32,
    pub data: Vec<u8>,
}

/// The buffer holds exactly the image's pixels.
pub open spec fn pixels_ok(p: RgbaPixels) -> bool {
    p.data@.len() == 4 * p.width * p.height
}

/// The four bytes of the pixel at column `x`, row `y`.
pub open spec fn pixel(p: RgbaPixels, x: int, y: int) -> Seq<u8> {
    let i = 4 * (y * p.width + x);
    p.data@.subrange(i, i + 4)
}

/// `dst` is `src` turned a quarter clockwise: the pixel at `(x, y)` moves to
/// `(height - 1 - y, x)`.
pub open spec fn turned90(src: RgbaPixels, dst: RgbaPixels) -> bool {
    &&& dst.width == src.height
    &&& dst.height == src.width
    &&& pixels_ok(dst)
    &&& forall|x: int, y: int|
        0 <= x < src.width && 0 <= y < src.height ==> #[trigger] pixel(dst, src.height - 1 - y, x)
            == pixel(src, x, y)
}

/// `dst` is `src` turned half round: the pixel at `(x, y)` moves to
/// `(width - 1 - x, height - 1 - y)`.
pub open spec fn turned180(src: RgbaPixels, dst: RgbaPixels) -> bool {
    &&& dst.width == src.width
    &&& dst.height == src.height
    &&& pixels_ok(dst)
    &&& forall|x: int, y: int|
        0 <= x < src.width && 0 <= y < src.height ==> #[trigger] pixel(dst, src.width - 1 - x, src.height - 1 - y)
            == pixel(src, x, y)
}

/// `dst` is `src` turned three quarters clockwise: the pixel at `(x, y)` moves to
/// `(y, width - 1 - x)`.
pub open spec fn turned270(src: RgbaPixels, dst: RgbaPixels) -> bool {
    &&& dst.width == src.height
    &&& dst.height == src.width
    &&& pixels_ok(dst)
    &&& forall|x: int, y: int|
        0 <= x < src.width && 0 <= y < src.height ==> #[trigger] pixel(dst, y, src.width - 1 - x)
            == pixel(src, x, y)
}

/// Calls `image::imageops::rotate90` on the image held as an `image::RgbaImage`. Its
/// source builds a buffer of height by width and puts the pixel at `(x, y)` to
/// `(height - 1 - y, x)`; that is what is claimed.
#[verifier::external_body]
fn rotate90_pixels(img: &RgbaPixels) -> (r: RgbaPixels)
    requires
        pixels_ok(*img),
    ensures
        turned90(*img, r),
{
    let buf = image::RgbaImage::from_raw(img.width, img.height, img.data.clone()).expect("exact size");
    let out = image::imageops::rotate90(&buf);
    RgbaPixels { width: out.width(), height: out.height(), data: out.into_raw() }
}

/// Calls `image::imageops::rotate180` on the image held as an `image::RgbaImage`. Its
/// source builds a buffer of the same size and puts the pixel at `(x, y)` to
/// `(width - 1 - x, height - 1 - y)`; that is what is claimed.
#[verifier::external_body]
fn rotate180_pixels(img: &RgbaPixels) -> (r: RgbaPixels)
    requires
        pixels_ok(*img),
    ensures
        turned180(*img, r),
{
    let buf = image::RgbaImage::from_raw(img.width, img.height, img.data.clone()).expect("exact size");
    let out = image::imageops::rotate180(&buf);
    RgbaPixels { width: out.width(), height: out.height(), data: out.into_raw() }
}

/// Calls `image::imageops::rotate270` on the image held as an `image::RgbaImage`. Its
/// source builds a buffer of height by width and puts the pixel at `(x, y)` to
/// `(y, width - 1 - x)`; that is what is claimed.
#[verifier::external_body]
fn rotate270_pixels(img: &RgbaPixels) -> (r: RgbaPixels)
    requires
        pixels_ok(*img),
    ensures
        turned270(*img, r),
{
    let buf = image::RgbaImage::from_raw(img.width, img.height, img.data.clone()).expect("exact size");
    let out = image::imageops::rotate270(&buf);
    RgbaPixels { width: out.width(), height: out.height(), data: out.into_raw() }
}

/// The image turned clockwise by `rot`.
pub fn apply_rotation(img: RgbaPixels, rot: Rotation) -> (r: RgbaPixels)
    requires
        pixels_ok(img),
    ensures
        rot == Rotation::R0 ==> r == img,
        rot == Rotation::R90 ==> turned90(img, r),
        rot == Rotation::R180 ==> turned180(img, r),
        rot == Rotation::R270 ==> turned270(img, r),
        pixels_ok(r),
{
    match rot {
        Rotation::R0 => img,
        Rotation::R90 => rotate90_pixels(&img),
        Rotation::R180 => rotate180_pixels(&img),
        Rotation::R270 => rotate270_pixels(&img),
    }
}

/// Two images of the same size whose pixels agree everywhere hold the same bytes.
proof fn lemma_same_pixels(a: RgbaPixels, c: RgbaPixels)
    requires
        pixels_ok(a),
        pixels_ok(c),
        c.width == a.width,
        c.height == a.height,
        forall|x: int, y: int|
            0 <= x < a.width && 0 <= y < a.height ==> #[trigger] pixel(c, x, y) == pixel(a, x, y),
    ensures
        c.data@ == a.data@,
{
    let w = a.width as int;
    let h = a.height as int;
    assert forall|k: int| 0 <= k < a.data@.len() implies c.data@[k] == a.data@[k] by {
        let q = k / 4;
        let j = k % 4;
        assert(k == 4 * q + j && 0 <= j < 4);
        assert(w > 0) by (nonlinear_arith)
            requires
                0 <= k < 4 * w * h,
                w >= 0,
                h >= 0,
        ;
        let x = q % w;
        let y = q / w;
        assert(q == y * w + x && 0 <= x < w) by (nonlinear_arith)
            requires
                w > 0,
                x == q % w,
                y == q / w,
        ;
        assert(0 <= y < h) by (nonlinear_arith)
            requires
                w > 0,
                q >= 0,
                q == y * w + x,
                0 <= x < w,
                4 * q + j < 4 * w * h,
                0 <= j < 4,
        ;
        let i = 4 * (y * w + x);
        assert(i == 4 * q);
        let m = w * h;
        assert(4 * w * h == 4 * m) by (nonlinear_arith)
            requires
                m == w * h,
        ;
        assert(i + 4 <= 4 * m);
        assert(pixel(c, x, y) == pixel(a, x, y));
        assert(pixel(a, x, y) == a.data@.subrange(i, i + 4));
        assert(pixel(c, x, y) == c.data@.subrange(i, i + 4));
        assert(pixel(a, x, y)[j] == a.data@[k]);
        assert(pixel(c, x, y)[j] == c.data@[k]);
    }
    assert(c.data@ =~= a.data@);
}

/// `a` and `c` are the same image.
pub open spec fn same_image(a: RgbaPixels, c: RgbaPixels) -> bool {
    a.width == c.width && a.height == c.height && a.data@ == c.data@
}

/// A rotation followed by its inverse gives the image back: a quarter turn and then three
/// quarters, three quarters and then a quarter, or a half turn twice.
pub proof fn law_rotation_inverse(a: RgbaPixels, b: RgbaPixels, c: RgbaPixels)
    requires
        pixels_ok(a),
    ensures
        turned90(a, b) && turned270(b, c) ==> same_image(a, c),
        turned270(a, b) && turned90(b, c) ==> same_image(a, c),
        turned180(a, b) && turned180(b, c) ==> same_image(a, c),
{
    let w = a.width as int;
    let h = a.height as int;
    if turned90(a, b) && turned270(b, c) {
        assert forall|x: int, y: int| 0 <= x < w && 0 <= y < h implies #[trigger] pixel(c, x, y) == pixel(a, x, y) by {
            let bx = h - 1 - y;
            assert(pixel(b, bx, x) == pixel(a, x, y));
            assert(pixel(c, x, b.width - 1 - bx) == pixel(b, bx, x));
        }
        lemma_same_pixels(a, c);
    }
    if turned270(a, b) && turned90(b, c) {
        assert forall|x: int, y: int| 0 <= x < w && 0 <= y < h implies #[trigger] pixel(c, x, y) == pixel(a, x, y) by {
            let by_ = w - 1 - x;
            assert(pixel(b, y, by_) == pixel(a, x, y));
            assert(pixel(c, b.height - 1 - by_, y) == pixel(b, y, by_));
        }
        lemma_same_pixels(a, c);
    }
    if turned180(a, b) && turned180(b, c) {
        assert forall|x: int, y: int| 0 <= x < w && 0 <= y < h implies #[trigger] pixel(c, x, y) == pixel(a, x, y) by {
            let bx = w - 1 - x;
            let by_ = h - 1 - y;
            assert(pixel(b, bx, by_) == pixel(a, x, y));
            assert(pixel(c, b.width - 1 - bx, b.height - 1 - by_) == pixel(b, bx, by_));
        }
        lemma_same_pixels(a, c);
    }
}

/// Side of the window icon, in pixels.
pub const ICON_SIZE: u32 = 32;

/// Whether pixel `(x, y)` of the window icon belongs to its white "H": two bars of
/// columns 6..=10 and 21..=25 over rows 5..=26, joined by rows 14..=17 between them.
pub open spec fn icon_ink(x: int, y: int) -> bool {
    ||| (6 <= x <= 10 && 5 <= y <= 26)
    ||| (21 <= x <= 25 && 5 <= y <= 26)
    ||| (14 <= y <= 17 && 10 < x < 21)
}

/// The icon's colour at `(x, y)`: opaque white on the "H", transparent black elsewhere.
pub open spec fn icon_color(x: int, y: int) -> Seq<u8> {
    if icon_ink(x, y) {
        seq![255u8, 255u8, 255u8, 255u8]
    } else {
        seq![0u8, 0u8, 0u8, 0u8]
    }
}

/// The window icon: a white "H" on a transparent square.
pub fn window_icon() -> (r: RgbaPixels)
    ensures
        r.width == ICON_SIZE,
        r.height == ICON_SIZE,
        pixels_ok(r),
        forall|x: int, y: int| 0 <= x < 32 && 0 <= y < 32 ==> #[trigger] pixel(r, x, y) == icon_color(x, y),
{
    let mut data: Vec<u8> = Vec::new();
    let mut j: u32 = 0;
    while j < 1024
        invariant
            j <= 1024,
            data@.len() == 4 * j,
            forall|k: int| 0 <= k < j ==> #[trigger] data@.subrange(4 * k, 4 * k + 4) == icon_color(k % 32, k / 32),
        decreases 1024 - j,
    {
        let x = j % 32;
        let y = j / 32;
        let ink = (6 <= x && x <= 10 && 5 <= y && y <= 26) || (21 <= x && x <= 25 && 5 <= y && y <= 26)
            || (14 <= y && y <= 17 && x > 10 && x < 21);
        let v: u8 = if ink {
            255
        } else {
            0
        };
        let ghost before = data@;
        data.push(v);
        data.push(v);
        data.push(v);
        data.push(v);
        proof {
            assert(data@.subrange(4 * j, 4 * j + 4) =~= icon_color((j % 32) as int, (j / 32) as int));
            assert forall|k: int| 0 <= k < j + 1 implies #[trigger] data@.subrange(4 * k, 4 * k + 4)
                == icon_color(k % 32, k / 32) by {
                if k < j {
                    assert(data@.subrange(4 * k, 4 * k + 4) =~= before.subrange(4 * k, 4 * k + 4));
                }
            }
        }
        j = j + 1;
    }
    let r = RgbaPixels { width: 32, height: 32, data };
    proof {
        assert forall|x: int, y: int| 0 <= x < 32 && 0 <= y < 32 implies #[trigger] pixel(r, x, y)
            == icon_color(x, y) by {
            let k = y * 32 + x;
            assert(0 <= k < 1024) by (nonlinear_arith)
                requires
                    0 <= x < 32,
                    0 <= y < 32,
                    k == y * 32 + x,
            ;
            assert(k % 32 == x && k / 32 == y) by (nonlinear_arith)
                requires
                    0 <= x < 32,
                    0 <= y < 32,
                    k == y * 32 + x,
            ;
            assert(4 * (y * 32 + x) == 4 * k);
        }
    }
    r
}

} // verus!
