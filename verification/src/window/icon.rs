use vstd::prelude::*;
use image::{DynamicImage, GenericImageView, ImageError};

verus! {

/// A decoded image of the `image` crate. Verus sees nothing inside it.
#[verifier::external_type_specification]
#[verifier::external_body]
pub struct ExDynamicImage(DynamicImage);

/// The error of the `image` crate's decoders.
#[verifier::external_type_specification]
#[verifier::external_body]
pub struct ExImageError(ImageError);

/// The width and the height of an image, in pixels.
pub uninterp spec fn image_size(image: DynamicImage) -> (u32, u32);

/// The red, green, blue and alpha values of the pixel in column `x` and
/// row `y` of an image, counted from the top left.
pub uninterp spec fn image_pixel(image: DynamicImage, x: u32, y: u32) -> Seq<u8>;

/// `image::load_from_memory` guesses the format of the bytes and decodes
/// them. Nothing is claimed of what it returns.
pub assume_specification[ image::load_from_memory ](buffer: &[u8]) -> (decoded: Result<
    DynamicImage,
    ImageError,
>);

/// `GenericImageView::dimensions` of a `DynamicImage` returns its width and
/// height.
#[verifier::external_body]
fn dimensions(image: &DynamicImage) -> (size: (u32, u32))
    ensures
        size == image_size(*image),
{
    image.dimensions()
}

/// `GenericImageView::get_pixel` of a `DynamicImage` returns the pixel at
/// `(x, y)` as four bytes: red, green, blue, alpha. It panics outside the
/// image, so the position must lie inside.
#[verifier::external_body]
fn pixel_at(image: &DynamicImage, x: u32, y: u32) -> (rgba: [u8; 4])
    requires
        x < image_size(*image).0,
        y < image_size(*image).1,
    ensures
        rgba@ == image_pixel(*image, x, y),
{
    image.get_pixel(x, y).0
}

/// The pixels of a window icon: four bytes for each pixel, row by row from
/// the top, each row from the left.
#[derive(Debug, PartialEq, Eq)]
pub struct Icon {
    pub rgba: Vec<u8>,
    pub width: u32,
    pub height: u32,
}

/// Whether `icon` holds the pixels of `image`.
pub open spec fn shows(icon: Icon, image: DynamicImage) -> bool {
    &&& (icon.width, icon.height) == image_size(image)
    &&& icon.rgba@.len() == 4 * icon.width * icon.height
    &&& forall|x: int, y: int, k: int|
        0 <= x < icon.width && 0 <= y < icon.height && 0 <= k < 4 ==> #[trigger] icon.rgba@[4 * (y
            * icon.width + x) + k] == image_pixel(image, x as u32, y as u32)[k]
}

/// Lays the pixels of an image out as an icon.
pub fn icon_of(image: &DynamicImage) -> (icon: Icon)
    ensures
        shows(icon, *image),
{
    let (width, height) = dimensions(image);
    let mut rgba: Vec<u8> = Vec::new();
    let mut y: u32 = 0;
    while y < height
        invariant
            y <= height,
            (width, height) == image_size(*image),
            rgba@.len() == 4 * (y * width),
            forall|px: int, py: int, k: int|
                0 <= px < width && 0 <= py < y && 0 <= k < 4 ==> #[trigger] rgba@[4 * (py * width
                    + px) + k] == image_pixel(*image, px as u32, py as u32)[k],
        decreases height - y,
    {
        let mut x: u32 = 0;
        while x < width
            invariant
                x <= width,
                y < height,
                (width, height) == image_size(*image),
                rgba@.len() == 4 * (y * width + x),
                forall|px: int, py: int, k: int|
                    0 <= px < width && 0 <= py < y && 0 <= k < 4 ==> #[trigger] rgba@[4 * (py
                        * width + px) + k] == image_pixel(*image, px as u32, py as u32)[k],
                forall|px: int, k: int|
                    0 <= px < x && 0 <= k < 4 ==> #[trigger] rgba@[4 * (y * width + px) + k]
                        == image_pixel(*image, px as u32, y)[k],
            decreases width - x,
        {
            let pixel = pixel_at(image, x, y);
            let ghost before = rgba@;
            rgba.push(pixel[0]);
            rgba.push(pixel[1]);
            rgba.push(pixel[2]);
            rgba.push(pixel[3]);
            proof {
                let base = 4 * (y * width + x);
                assert(rgba@.len() == base + 4);
                assert(rgba@.len() == 4 * (y * width + (x + 1)));
                assert forall|px: int, py: int, k: int|
                    0 <= px < width && 0 <= py < y && 0 <= k < 4 implies #[trigger] rgba@[4 * (py
                        * width + px) + k] == image_pixel(*image, px as u32, py as u32)[k] by {
                    lemma_cell_before_row(px, py, width as int, y as int);
                    assert(rgba@[4 * (py * width + px) + k] == before[4 * (py * width + px) + k]);
                }
                assert forall|px: int, k: int| 0 <= px < x + 1 && 0 <= k < 4 implies #[trigger] rgba@[4
                    * (y * width + px) + k] == image_pixel(*image, px as u32, y)[k] by {
                    if px < x {
                        assert(rgba@[4 * (y * width + px) + k] == before[4 * (y * width + px)
                            + k]);
                    }
                }
            }
            x = x + 1;
        }
        proof {
            assert(4 * (y * width + width) == 4 * ((y + 1) * width)) by (nonlinear_arith);
        }
        y = y + 1;
    }
    proof {
        assert(4 * (height * width) == 4 * width * height) by (nonlinear_arith);
    }
    Icon { rgba, width, height }
}

/// A cell of an earlier row lies before every cell of a later row.
proof fn lemma_cell_before_row(px: int, py: int, width: int, y: int)
    requires
        0 <= px < width,
        0 <= py < y,
    ensures
        py * width + px < y * width,
        0 <= py * width + px,
{
    assert(py * width + px < y * width) by (nonlinear_arith)
        requires
            0 <= px < width,
            0 <= py < y,
    ;
    assert(0 <= py * width) by (nonlinear_arith)
        requires
            0 <= py,
            0 <= width,
    ;
}

/// Decodes the bytes of an image file and lays its pixels out as an icon.
/// `None` says that the bytes are no image that can be decoded.
pub fn decode_icon(data: &[u8]) -> (icon: Option<Icon>)
    ensures
        match icon {
            Some(decoded) => exists|image: DynamicImage| #[trigger] shows(decoded, image),
            None => true,
        },
{
    let decoded = image::load_from_memory(data);
    let ghost answer = decoded;
    let icon = icon_from(decoded);
    proof {
        if answer is Ok {
            assert(shows(icon->0, answer->Ok_0));
        }
    }
    icon
}

/// What becomes of the decoder's answer: the icon of the image where it
/// decoded one, and nothing where it failed.
pub fn icon_from(decoded: Result<DynamicImage, ImageError>) -> (icon: Option<Icon>)
    ensures
        match decoded {
            Ok(image) => icon matches Some(laid_out) && shows(laid_out, image),
            Err(_) => icon is None,
        },
{
    match decoded {
        Ok(image) => Some(icon_of(&image)),
        Err(_) => None,
    }
}

} // verus!
