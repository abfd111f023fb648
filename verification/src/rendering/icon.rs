//! Icons: images that are decoded once, kept as textures of the backend,
//! and fitted into the box they are drawn in.

use vstd::prelude::*;

verus! {

/// An image that the backend holds as a texture. The ratio of its width to
/// its height is the aspect ratio it is drawn with.
pub struct Icon<I> {
    /// The texture of the backend.
    pub texture: I,
    /// The width of the image in pixels.
    pub width: u32,
    /// The height of the image in pixels.
    pub height: u32,
}

/// The icons a renderer keeps between frames.
pub struct IconCache<I> {
    /// The icon of the game, shown by the title.
    pub game_icon: Option<Icon<I>>,
    /// The icons of the splits, in the order of the splits.
    pub split_icons: Vec<Option<Icon<I>>>,
    /// The icon of the segment, shown by the detailed timer.
    pub detailed_timer_icon: Option<Icon<I>>,
}

impl<I> IconCache<I> {
    /// Creates a cache without icons.
    pub fn new() -> (cache: Self)
        ensures
            cache.game_icon is None,
            cache.split_icons@.len() == 0,
            cache.detailed_timer_icon is None,
    {
        IconCache { game_icon: None, split_icons: Vec::new(), detailed_timer_icon: None }
    }
}

/// Calls `image::load_from_memory` and turns the image into RGBA8 with
/// `DynamicImage::to_rgba8`: the width, the height and the pixels of the
/// image, four bytes each for red, green, blue and alpha, or `None` where
/// the decoder takes the bytes for no image. Which formats the decoder
/// knows can change while a program runs, so nothing is said here of what
/// it makes of given bytes.
#[verifier::external_body]
fn decode(data: &[u8]) -> (image: Option<(u32, u32, Vec<u8>)>) {
    let image = image::load_from_memory(data).ok()?.to_rgba8();
    Some((image.width(), image.height(), image.into_raw()))
}

/// Makes an icon of a decoded image: the backend makes a texture of the
/// pixels, and the icon keeps the width and the height. No image gives no
/// icon.
pub fn icon_of<I, F: FnOnce(u32, u32, Vec<u8>) -> I>(
    decoded: Option<(u32, u32, Vec<u8>)>,
    create_image: F,
) -> (icon: Option<Icon<I>>)
    requires
        forall|width: u32, height: u32, pixels: Vec<u8>|
            call_requires(create_image, (width, height, pixels)),
    ensures
        icon is Some <==> decoded is Some,
        icon matches Some(i) ==> decoded matches Some((width, height, pixels)) && i.width == width
            && i.height == height && call_ensures(create_image, (width, height, pixels), i.texture),
{
    match decoded {
        None => None,
        Some((width, height, pixels)) => {
            let ghost given = pixels;
            let texture = create_image(width, height, pixels);
            assert(call_ensures(create_image, (width, height, given), texture));
            Some(Icon { texture, width, height })
        },
    }
}

/// Decodes the bytes of an image file and has the backend make a texture
/// of the pixels. No bytes give no icon, and neither do bytes that cannot
/// be decoded: the icon is then simply not drawn. An icon that is made has
/// its texture from the backend, made for its width and its height.
pub fn create_icon<I, F: FnOnce(u32, u32, Vec<u8>) -> I>(image_data: &[u8], create_image: F) -> (icon:
    Option<Icon<I>>)
    requires
        forall|width: u32, height: u32, pixels: Vec<u8>|
            call_requires(create_image, (width, height, pixels)),
    ensures
        image_data.len() == 0 ==> icon is None,
        icon matches Some(i) ==> exists|pixels: Vec<u8>|
            call_ensures(create_image, (i.width, i.height, pixels), i.texture),
{
    if image_data.len() == 0 {
        return None;
    }
    icon_of(decode(image_data), create_image)
}

/// Where an icon is drawn inside a box. The four lengths are counted in
/// parts of a step: `denominator` of them make up one step. The position is
/// relative to the top left corner of the box.
#[derive(Clone, Copy, Debug, PartialEq, Eq, Structural)]
pub struct IconBox {
    /// How far the icon is drawn from the left edge of the box.
    pub x: u128,
    /// How far the icon is drawn from the top edge of the box.
    pub y: u128,
    /// The width the icon is drawn with.
    pub width: u128,
    /// The height the icon is drawn with.
    pub height: u128,
    /// The number of parts that make up one step.
    pub denominator: u128,
}

/// Where an icon of `icon_width` by `icon_height` pixels is drawn inside a
/// box of `width` by `height` steps: as large as the box allows without
/// changing the shape of the icon, and in the middle of what is left over.
pub open spec fn spec_fit_icon(width: int, height: int, icon_width: int, icon_height: int) -> (
    int,
    int,
    int,
    int,
    int,
) {
    if width * icon_height > height * icon_width {
        (
            width * icon_height - height * icon_width,
            0,
            2 * height * icon_width,
            2 * height * icon_height,
            2 * icon_height,
        )
    } else if width * icon_height < height * icon_width {
        (
            0,
            height * icon_width - width * icon_height,
            2 * width * icon_width,
            2 * width * icon_height,
            2 * icon_width,
        )
    } else {
        (0, 0, width, height, 1)
    }
}

/// Fits an icon into a box. See [`spec_fit_icon`].
pub fn fit_icon(width: u64, height: u64, icon_width: u32, icon_height: u32) -> (fit: IconBox)
    ensures
        (fit.x as int, fit.y as int, fit.width as int, fit.height as int, fit.denominator as int)
            == spec_fit_icon(width as int, height as int, icon_width as int, icon_height as int),
{
    let w: u128 = width as u128;
    let h: u128 = height as u128;
    let iw: u128 = icon_width as u128;
    let ih: u128 = icon_height as u128;
    assert(w * ih <= 0x1_0000_0000_0000_0000 * 0x1_0000_0000) by (nonlinear_arith)
        requires
            w < 0x1_0000_0000_0000_0000,
            ih < 0x1_0000_0000,
    ;
    assert(h * iw <= 0x1_0000_0000_0000_0000 * 0x1_0000_0000) by (nonlinear_arith)
        requires
            h < 0x1_0000_0000_0000_0000,
            iw < 0x1_0000_0000,
    ;
    assert(h * ih <= 0x1_0000_0000_0000_0000 * 0x1_0000_0000) by (nonlinear_arith)
        requires
            h < 0x1_0000_0000_0000_0000,
            ih < 0x1_0000_0000,
    ;
    assert(w * iw <= 0x1_0000_0000_0000_0000 * 0x1_0000_0000) by (nonlinear_arith)
        requires
            w < 0x1_0000_0000_0000_0000,
            iw < 0x1_0000_0000,
    ;
    let box_by_icon: u128 = w * ih;
    let icon_by_box: u128 = h * iw;
    if box_by_icon > icon_by_box {
        assert(2 * height * icon_width == 2 * (h * iw)) by (nonlinear_arith)
            requires
                h == height,
                iw == icon_width,
        ;
        assert(2 * height * icon_height == 2 * (h * ih)) by (nonlinear_arith)
            requires
                h == height,
                ih == icon_height,
        ;
        IconBox {
            x: box_by_icon - icon_by_box,
            y: 0,
            width: 2 * (h * iw),
            height: 2 * (h * ih),
            denominator: 2 * ih,
        }
    } else if box_by_icon < icon_by_box {
        assert(2 * width * icon_width == 2 * (w * iw)) by (nonlinear_arith)
            requires
                w == width,
                iw == icon_width,
        ;
        assert(2 * width * icon_height == 2 * (w * ih)) by (nonlinear_arith)
            requires
                w == width,
                ih == icon_height,
        ;
        IconBox {
            x: 0,
            y: icon_by_box - box_by_icon,
            width: 2 * (w * iw),
            height: 2 * (w * ih),
            denominator: 2 * iw,
        }
    } else {
        IconBox { x: 0, y: 0, width: w, height: h, denominator: 1 }
    }
}

/// An icon that is fitted into a box lies inside the box and in its
/// middle, touches two opposite edges of the box, and keeps its shape.
pub proof fn lemma_fit_icon(width: int, height: int, icon_width: int, icon_height: int)
    requires
        0 <= width,
        0 <= height,
        0 <= icon_width,
        0 <= icon_height,
    ensures
        ({
            let (x, y, w, h, d) = spec_fit_icon(width, height, icon_width, icon_height);
            &&& d > 0
            &&& 0 <= x && 0 <= y && 0 <= w && 0 <= h
            &&& 2 * x + w == width * d
            &&& 2 * y + h == height * d
            &&& x == 0 || y == 0
            &&& (x > 0 || y > 0) ==> w * icon_height == h * icon_width
        }),
{
    let a = width * icon_height;
    let b = height * icon_width;
    assert(0 <= a && 0 <= b) by (nonlinear_arith)
        requires
            0 <= width,
            0 <= height,
            0 <= icon_width,
            0 <= icon_height,
            a == width * icon_height,
            b == height * icon_width,
    ;
    if a > b {
        assert(icon_height > 0) by (nonlinear_arith)
            requires
                width * icon_height > 0,
                0 <= icon_height,
        ;
        assert(2 * (a - b) + 2 * height * icon_width == width * (2 * icon_height)
            && 2 * height * icon_height == height * (2 * icon_height) && 0 <= 2 * height
            * icon_width && 0 <= 2 * height * icon_height && (2 * height * icon_width) * icon_height
            == (2 * height * icon_height) * icon_width) by (nonlinear_arith)
            requires
                a == width * icon_height,
                b == height * icon_width,
                0 <= height,
                0 <= icon_width,
                0 <= icon_height,
        ;
    } else if a < b {
        assert(icon_width > 0) by (nonlinear_arith)
            requires
                height * icon_width > 0,
                0 <= icon_width,
        ;
        assert(2 * (b - a) + 2 * width * icon_height == height * (2 * icon_width) && 2 * width
            * icon_width == width * (2 * icon_width) && 0 <= 2 * width * icon_width && 0 <= 2
            * width * icon_height && (2 * width * icon_width) * icon_height == (2 * width
            * icon_height) * icon_width) by (nonlinear_arith)
            requires
                a == width * icon_height,
                b == height * icon_width,
                0 <= width,
                0 <= icon_width,
                0 <= icon_height,
        ;
    }
}

} // verus!
