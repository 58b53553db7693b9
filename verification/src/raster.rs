//! Sprites drawn pixel by pixel into `image::RgbaImage` buffers.
//!
//! An image is seen through two names: `image_size`, the dimensions it was
//! made with, and `image_pixels`, the colour it holds at each in-bounds
//! position. The few calls into the `image` crate that the drawing code
//! makes are the trusted wrappers below; everything else is verified
//! against them.
use vstd::prelude::*;

verus! {

/// A picture of `image_size` pixels; `image_pixels` names what it holds.
#[verifier::external_body]
pub struct Sprite {
    pub image: image::RgbaImage,
}

/// A colour as four channels: red, green, blue, alpha.
pub type Color = (u8, u8, u8, u8);

/// The transparent black that a fresh image holds everywhere.
pub open spec fn clear() -> Color {
    (0, 0, 0, 0)
}

/// The dimensions (width, height) that an image was made with.
pub uninterp spec fn image_size(img: Sprite) -> (u32, u32);

/// What an image holds: the colour at each position `(x, y)`.
pub uninterp spec fn image_pixels(img: Sprite) -> Map<(u32, u32), Color>;

/// Whether `k` lies inside a `w` by `h` image.
pub open spec fn in_bounds(w: u32, h: u32, k: (u32, u32)) -> bool {
    k.0 < w && k.1 < h
}

/// Whether an image of `w` by `h` pixels fits in one allocation: four bytes a
/// pixel, at most `isize::MAX` bytes in all.
pub open spec fn fits(w: u32, h: u32) -> bool {
    4 * (w as int) * (h as int) <= isize::MAX
}

/// The pixels of a `w` by `h` image in which `(x, y)` holds `paint(x, y)`.
pub open spec fn painted(w: u32, h: u32, paint: spec_fn(u32, u32) -> Color) -> Map<(u32, u32), Color> {
    Map::new(|k: (u32, u32)| in_bounds(w, h, k), |k: (u32, u32)| paint(k.0, k.1))
}

/// The pixels of a `w` by `h` image painted in row-major order up to, but not
/// including, `(x, y)`; the rest is still clear.
pub open spec fn painted_up_to(
    w: u32,
    h: u32,
    x: int,
    y: int,
    paint: spec_fn(u32, u32) -> Color,
) -> Map<(u32, u32), Color> {
    Map::new(
        |k: (u32, u32)| in_bounds(w, h, k),
        |k: (u32, u32)| if k.1 < y || (k.1 == y && k.0 < x) { paint(k.0, k.1) } else { clear() },
    )
}

/// `ImageBuffer::new`: an image of `width` by `height` pixels, every channel
/// of every pixel zero. The crate panics where the buffer would not fit in a
/// `Vec`; `requires` leaves those sizes out.
#[verifier::external_body]
fn new_image(width: u32, height: u32) -> (img: Sprite)
    requires
        fits(width, height),
    ensures
        image_size(img) == (width, height),
        image_pixels(img) == painted(width, height, |x: u32, y: u32| clear()),
{
    Sprite { image: image::RgbaImage::new(width, height) }
}

/// `ImageBuffer::put_pixel`: sets the pixel at `(x, y)` to `c` and leaves the
/// size and every other pixel as they were. It panics out of bounds;
/// `requires` leaves that out.
#[verifier::external_body]
fn put_pixel(img: &mut Sprite, x: u32, y: u32, c: Color)
    requires
        x < image_size(*old(img)).0,
        y < image_size(*old(img)).1,
    ensures
        image_size(*final(img)) == image_size(*old(img)),
        image_pixels(*final(img)) == image_pixels(*old(img)).insert((x, y), c),
{
    img.image.put_pixel(x, y, image::Rgba([c.0, c.1, c.2, c.3]));
}

/// `ImageBuffer::get_pixel`: the colour held at `(x, y)`. It panics out of
/// bounds; `requires` leaves that out.
#[verifier::external_body]
fn get_pixel(img: &Sprite, x: u32, y: u32) -> (c: Color)
    requires
        x < image_size(*img).0,
        y < image_size(*img).1,
    ensures
        c == image_pixels(*img)[(x, y)],
{
    let p = img.image.get_pixel(x, y);
    (p.0[0], p.0[1], p.0[2], p.0[3])
}

/// `ImageBuffer::dimensions`: the width and height of the image. Every
/// constructor of the crate checks that the pixels fit in the buffer, a `Vec`
/// of at most `isize::MAX` bytes, so the size always `fits`.
#[verifier::external_body]
fn dimensions(img: &Sprite) -> (d: (u32, u32))
    ensures
        d == image_size(*img),
        fits(d.0, d.1),
{
    img.image.dimensions()
}

/// A one-pixel image of the colour `(r, g, b, a)`.
pub fn solid(r: u8, g: u8, b: u8, a: u8) -> (img: Sprite)
    ensures
        image_size(img) == (1u32, 1u32),
        image_pixels(img) == painted(1, 1, |x: u32, y: u32| (r, g, b, a)),
{
    let mut img = new_image(1, 1);
    put_pixel(&mut img, 0, 0, (r, g, b, a));
    assert(image_pixels(img) =~= painted(1, 1, |x: u32, y: u32| (r, g, b, a)));
    img
}

/// The colour of a bar gauge of `w` by `h` pixels at `(x, y)`: a light grey
/// one-pixel frame, the columns left of `filled` in `(r, g, b)`, and a dark,
/// slightly translucent background behind the rest.
pub open spec fn bar_color(w: u32, h: u32, filled: u32, r: u8, g: u8, b: u8, x: u32, y: u32) -> Color {
    if x == 0 || x == w - 1 || y == 0 || y == h - 1 {
        (200, 200, 200, 255)
    } else if x < filled {
        (r, g, b, 255)
    } else {
        (30, 30, 40, 220)
    }
}

/// A `w` by `h` image of the single colour `c`.
pub fn filled_image(w: u32, h: u32, c: Color) -> (img: Sprite)
    requires
        fits(w, h),
    ensures
        image_size(img) == (w, h),
        image_pixels(img) == painted(w, h, |x: u32, y: u32| c),
{
    let ghost paint = |x: u32, y: u32| c;
    let mut img = new_image(w, h);
    assert(image_pixels(img) =~= painted_up_to(w, h, 0, 0, paint));
    let mut py: u32 = 0;
    while py < h
        invariant
            py <= h,
            image_size(img) == (w, h),
            image_pixels(img) == painted_up_to(w, h, 0, py as int, paint),
            forall|x: u32, y: u32| #[trigger] paint(x, y) == c,
        decreases h - py,
    {
        let mut px: u32 = 0;
        while px < w
            invariant
                px <= w,
                py < h,
                image_size(img) == (w, h),
                image_pixels(img) == painted_up_to(w, h, px as int, py as int, paint),
                forall|x: u32, y: u32| #[trigger] paint(x, y) == c,
            decreases w - px,
        {
            put_pixel(&mut img, px, py, c);
            assert(image_pixels(img) =~= painted_up_to(w, h, px + 1, py as int, paint));
            px = px + 1;
        }
        assert(image_pixels(img) =~= painted_up_to(w, h, 0, py + 1, paint));
        py = py + 1;
    }
    assert(image_pixels(img) =~= painted(w, h, paint));
    img
}

/// The colour of the bar gauge at `(x, y)`, as `bar_color` states it.
fn bar_pixel(w: u32, h: u32, filled: u32, r: u8, g: u8, b: u8, x: u32, y: u32) -> (c: Color)
    requires
        x < w,
        y < h,
    ensures
        c == bar_color(w, h, filled, r, g, b, x, y),
{
    if x == 0 || x == w - 1 || y == 0 || y == h - 1 {
        (200, 200, 200, 255)
    } else if x < filled {
        (r, g, b, 255)
    } else {
        (30, 30, 40, 220)
    }
}

/// A bar gauge of `w` by `h` pixels whose first `filled` columns are drawn
/// in `(r, g, b)` inside a light frame (see `bar_color`). The caller turns
/// its fill fraction into the column count `filled`.
pub fn bar_image(w: u32, h: u32, filled: u32, r: u8, g: u8, b: u8) -> (img: Sprite)
    requires
        fits(w, h),
    ensures
        image_size(img) == (w, h),
        image_pixels(img) == painted(w, h, |x: u32, y: u32| bar_color(w, h, filled, r, g, b, x, y)),
{
    let ghost paint = |x: u32, y: u32| bar_color(w, h, filled, r, g, b, x, y);
    let mut img = new_image(w, h);
    assert(image_pixels(img) =~= painted_up_to(w, h, 0, 0, paint));
    let mut py: u32 = 0;
    while py < h
        invariant
            py <= h,
            image_size(img) == (w, h),
            image_pixels(img) == painted_up_to(w, h, 0, py as int, paint),
            forall|x: u32, y: u32| #[trigger] paint(x, y) == bar_color(w, h, filled, r, g, b, x, y),
        decreases h - py,
    {
        let mut px: u32 = 0;
        while px < w
            invariant
                px <= w,
                py < h,
                image_size(img) == (w, h),
                image_pixels(img) == painted_up_to(w, h, px as int, py as int, paint),
                forall|x: u32, y: u32| #[trigger] paint(x, y) == bar_color(w, h, filled, r, g, b, x, y),
                decreases w - px,
        {
            let c = bar_pixel(w, h, filled, r, g, b, px, py);
            put_pixel(&mut img, px, py, c);
            assert(image_pixels(img) =~= painted_up_to(w, h, px + 1, py as int, paint));
            px = px + 1;
        }
        assert(image_pixels(img) =~= painted_up_to(w, h, 0, py + 1, paint));
        py = py + 1;
    }
    assert(image_pixels(img) =~= painted(w, h, paint));
    img
}

/// Whether `(x, y)` lies on the two-pixel frame of a `w` by `h` image.
pub open spec fn on_double_frame(w: u32, h: u32, x: u32, y: u32) -> bool {
    x == 0 || x == w - 1 || y == 0 || y == h - 1 || x == 1 || x == w - 2 || y == 1 || y == h - 2
}

/// Whether `(x, y)` lies on the one-pixel frame of a `w` by `h` image.
pub open spec fn on_frame(w: u32, h: u32, x: u32, y: u32) -> bool {
    x == 0 || x == w - 1 || y == 0 || y == h - 1
}

/// The colour of the menu's start button at `(x, y)`: blue-violet, with a
/// greener two-pixel frame.
pub open spec fn start_button_color(w: u32, h: u32, x: u32, y: u32) -> Color {
    (60, if on_double_frame(w, h, x, y) { 120 } else { 40 }, 180, 240)
}

fn start_button_pixel(w: u32, h: u32, x: u32, y: u32) -> (c: Color)
    requires
        x < w,
        y < h,
    ensures
        c == start_button_color(w, h, x, y),
{
    let border = x == 0 || x == w - 1 || y == 0 || y == h - 1 || x == 1 || x == w - 2 || y == 1
        || y == h - 2;
    (60, if border { 120 } else { 40 }, 180, 240)
}

/// The menu's start button: `w` by `h` pixels coloured by
/// `start_button_color`.
pub fn start_button_image(w: u32, h: u32) -> (img: Sprite)
    requires
        fits(w, h),
    ensures
        image_size(img) == (w, h),
        image_pixels(img) == painted(w, h, |x: u32, y: u32| start_button_color(w, h, x, y)),
{
    let ghost paint = |x: u32, y: u32| start_button_color(w, h, x, y);
    let mut img = new_image(w, h);
    assert(image_pixels(img) =~= painted_up_to(w, h, 0, 0, paint));
    let mut py: u32 = 0;
    while py < h
        invariant
            py <= h,
            image_size(img) == (w, h),
            image_pixels(img) == painted_up_to(w, h, 0, py as int, paint),
            forall|x: u32, y: u32| #[trigger] paint(x, y) == start_button_color(w, h, x, y),
        decreases h - py,
    {
        let mut px: u32 = 0;
        while px < w
            invariant
                px <= w,
                py < h,
                image_size(img) == (w, h),
                image_pixels(img) == painted_up_to(w, h, px as int, py as int, paint),
                forall|x: u32, y: u32| #[trigger] paint(x, y) == start_button_color(w, h, x, y),
                decreases w - px,
        {
            let c = start_button_pixel(w, h, px, py);
            put_pixel(&mut img, px, py, c);
            assert(image_pixels(img) =~= painted_up_to(w, h, px + 1, py as int, paint));
            px = px + 1;
        }
        assert(image_pixels(img) =~= painted_up_to(w, h, 0, py + 1, paint));
        py = py + 1;
    }
    assert(image_pixels(img) =~= painted(w, h, paint));
    img
}

/// `v + d`, or 255 where that would not fit in a byte.
pub open spec fn brightened(v: u8, d: u8) -> u8 {
    if v + d > 255 { 255 } else { (v + d) as u8 }
}

/// The colour of a game-over button of base colour `base` at `(x, y)`: the
/// frame raises red and green by 60, the inside by 20, each at most to 255.
pub open spec fn plate_color(w: u32, h: u32, base: (u8, u8, u8), x: u32, y: u32) -> Color {
    let c: u8 = if on_frame(w, h, x, y) { 120 } else { 40 };
    (brightened(base.0, c / 2), brightened(base.1, c / 2), base.2, 240)
}

fn plate_pixel(w: u32, h: u32, base: (u8, u8, u8), x: u32, y: u32) -> (c: Color)
    requires
        x < w,
        y < h,
    ensures
        c == plate_color(w, h, base, x, y),
{
    let border = x == 0 || x == w - 1 || y == 0 || y == h - 1;
    let c: u8 = if border { 120 } else { 40 };
    (base.0.saturating_add(c / 2), base.1.saturating_add(c / 2), base.2, 240)
}

/// A game-over button of `w` by `h` pixels in the base colour `base`,
/// coloured by `plate_color`.
pub fn plate_image(w: u32, h: u32, base: (u8, u8, u8)) -> (img: Sprite)
    requires
        fits(w, h),
    ensures
        image_size(img) == (w, h),
        image_pixels(img) == painted(w, h, |x: u32, y: u32| plate_color(w, h, base, x, y)),
{
    let ghost paint = |x: u32, y: u32| plate_color(w, h, base, x, y);
    let mut img = new_image(w, h);
    assert(image_pixels(img) =~= painted_up_to(w, h, 0, 0, paint));
    let mut py: u32 = 0;
    while py < h
        invariant
            py <= h,
            image_size(img) == (w, h),
            image_pixels(img) == painted_up_to(w, h, 0, py as int, paint),
            forall|x: u32, y: u32| #[trigger] paint(x, y) == plate_color(w, h, base, x, y),
        decreases h - py,
    {
        let mut px: u32 = 0;
        while px < w
            invariant
                px <= w,
                py < h,
                image_size(img) == (w, h),
                image_pixels(img) == painted_up_to(w, h, px as int, py as int, paint),
                forall|x: u32, y: u32| #[trigger] paint(x, y) == plate_color(w, h, base, x, y),
                decreases w - px,
        {
            let c = plate_pixel(w, h, base, px, py);
            put_pixel(&mut img, px, py, c);
            assert(image_pixels(img) =~= painted_up_to(w, h, px + 1, py as int, paint));
            px = px + 1;
        }
        assert(image_pixels(img) =~= painted_up_to(w, h, 0, py + 1, paint));
        py = py + 1;
    }
    assert(image_pixels(img) =~= painted(w, h, paint));
    img
}

/// The colour that nearest-neighbour sampling of `src` (of `w` by `h`
/// pixels) at the source position `at` gives: the source pixel there, or
/// clear where `at` falls outside the source.
pub open spec fn sampled_color(src: Sprite, w: u32, h: u32, at: (i32, i32)) -> Color {
    if at.0 >= 0 && at.0 < w as i32 && at.1 >= 0 && at.1 < h as i32 {
        image_pixels(src)[(at.0 as u32, at.1 as u32)]
    } else {
        clear()
    }
}

/// Nearest-neighbour resampling: an image of the size of `src` whose pixel
/// `(x, y)` is the source pixel at `from[y][x]`, or clear where that
/// position falls outside `src`. The caller computes, for a rotation, the
/// source position of each destination pixel.
pub fn sample_nearest(src: &Sprite, from: &Vec<Vec<(i32, i32)>>) -> (img: Sprite)
    requires
        from@.len() == image_size(*src).1,
        forall|y: int| 0 <= y < from@.len() ==> #[trigger] from@[y]@.len() == image_size(*src).0,
    ensures
        image_size(img) == image_size(*src),
        image_pixels(img) == painted(
            image_size(*src).0,
            image_size(*src).1,
            |x: u32, y: u32| sampled_color(*src, image_size(*src).0, image_size(*src).1, from@[y as int]@[x as int]),
        ),
{
    let (w, h) = dimensions(src);
    let ghost paint = |x: u32, y: u32| sampled_color(*src, w, h, from@[y as int]@[x as int]);
    let mut img = new_image(w, h);
    assert(image_pixels(img) =~= painted_up_to(w, h, 0, 0, paint));
    let mut py: u32 = 0;
    while py < h
        invariant
            py <= h,
            (w, h) == image_size(*src),
            from@.len() == h,
            forall|y: int| 0 <= y < from@.len() ==> #[trigger] from@[y]@.len() == w,
            image_size(img) == (w, h),
            image_pixels(img) == painted_up_to(w, h, 0, py as int, paint),
            forall|x: u32, y: u32| #[trigger] paint(x, y) == sampled_color(*src, w, h, from@[y as int]@[x as int]),
        decreases h - py,
    {
        let row = &from[py as usize];
        let mut px: u32 = 0;
        while px < w
            invariant
                px <= w,
                py < h,
                (w, h) == image_size(*src),
                row@ == from@[py as int]@,
                row@.len() == w,
                image_size(img) == (w, h),
                image_pixels(img) == painted_up_to(w, h, px as int, py as int, paint),
                forall|x: u32, y: u32| #[trigger] paint(x, y) == sampled_color(*src, w, h, from@[y as int]@[x as int]),
            decreases w - px,
        {
            let (sx, sy) = row[px as usize];
            if sx >= 0 && sx < w as i32 && sy >= 0 && sy < h as i32 {
                let c = get_pixel(src, sx as u32, sy as u32);
                put_pixel(&mut img, px, py, c);
            }
            assert(image_pixels(img) =~= painted_up_to(w, h, px + 1, py as int, paint));
            px = px + 1;
        }
        assert(image_pixels(img) =~= painted_up_to(w, h, 0, py + 1, paint));
        py = py + 1;
    }
    assert(image_pixels(img) =~= painted(w, h, paint));
    img
}

/// Sampling every pixel from its own position copies the source: the
/// result of `sample_nearest` then holds the source's pixel at every
/// position inside the image. (An image wider or taller than `i32::MAX`
/// pixels is left out: there the bounds test compares against a negative
/// width, and nothing is copied.)
pub proof fn lemma_identity_sampling_copies(src: Sprite, from: Seq<Seq<(i32, i32)>>, x: u32, y: u32)
    requires
        x < image_size(src).0 <= i32::MAX,
        y < image_size(src).1 <= i32::MAX,
        from[y as int][x as int].0 == x,
        from[y as int][x as int].1 == y,
    ensures
        painted(
            image_size(src).0,
            image_size(src).1,
            |x: u32, y: u32| sampled_color(src, image_size(src).0, image_size(src).1, from[y as int][x as int]),
        )[(x, y)] == image_pixels(src)[(x, y)],
{
    let (w, h) = image_size(src);
    let at = from[y as int][x as int];
    let (sx, sy) = at;
    assert(x <= 0x7fff_ffffu32 && x < w && w <= 0x7fff_ffffu32 && sx == x as i32 ==> sx >= 0
        && sx < w as i32 && sx as u32 == x) by (bit_vector);
    assert(y <= 0x7fff_ffffu32 && y < h && h <= 0x7fff_ffffu32 && sy == y as i32 ==> sy >= 0
        && sy < h as i32 && sy as u32 == y) by (bit_vector);
    assert(sx == x as i32) by (bit_vector)
        requires
            sx as int == x as int,
            x <= 0x7fff_ffffu32,
    ;
    assert(sy == y as i32) by (bit_vector)
        requires
            sy as int == y as int,
            y <= 0x7fff_ffffu32,
    ;
}

/// The start button's frame is two pixels thick on all four sides: every
/// pixel within two of an edge has the frame colour, every other pixel the
/// inside colour.
pub proof fn lemma_start_button_frame(w: u32, h: u32, x: u32, y: u32)
    requires
        x < w,
        y < h,
    ensures
        (x < 2 || x + 2 >= w || y < 2 || y + 2 >= h) ==> start_button_color(w, h, x, y) == (
            60u8,
            120u8,
            180u8,
            240u8,
        ),
        !(x < 2 || x + 2 >= w || y < 2 || y + 2 >= h) ==> start_button_color(w, h, x, y) == (
            60u8,
            40u8,
            180u8,
            240u8,
        ),
{
}

/// A game-over button's frame is one pixel thick on all four sides: the
/// outermost pixels raise red and green by 60 (at most to 255), every other
/// pixel raises them by 20; blue stays and alpha is 240.
pub proof fn lemma_plate_frame(w: u32, h: u32, base: (u8, u8, u8), x: u32, y: u32)
    requires
        x < w,
        y < h,
    ensures
        (x == 0 || x + 1 == w || y == 0 || y + 1 == h) ==> plate_color(w, h, base, x, y) == (
            brightened(base.0, 60),
            brightened(base.1, 60),
            base.2,
            240u8,
        ),
        !(x == 0 || x + 1 == w || y == 0 || y + 1 == h) ==> plate_color(w, h, base, x, y) == (
            brightened(base.0, 20),
            brightened(base.1, 20),
            base.2,
            240u8,
        ),
        brightened(base.0, 60) == (if base.0 + 60 > 255 { 255 } else { base.0 + 60 }),
        brightened(base.0, 20) == (if base.0 + 20 > 255 { 255 } else { base.0 + 20 }),
{
}

} // verus!
