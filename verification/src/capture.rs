//! The pixel work around a screenshot: the frame that a drag selects, the
//! channel order of a captured image, and the cut of the selected region.

use vstd::prelude::*;
use crate::geometry::Coordinate;

verus! {

/// The pixels of `bgra` with the blue and the red channel exchanged and the
/// alpha channel made opaque; four bytes to a pixel.
pub open spec fn rgba_of(bgra: Seq<u8>) -> Seq<u8> {
    Seq::new(
        bgra.len(),
        |i: int|
            if i % 4 == 0 {
                bgra[i + 2]
            } else if i % 4 == 2 {
                bgra[i - 2]
            } else if i % 4 == 3 {
                255u8
            } else {
                bgra[i]
            },
    )
}

/// Turns pixels in the order blue, green, red, alpha into pixels in the
/// order red, green, blue, alpha, and makes every pixel opaque.
pub fn bgra_to_rgba(bgra: Vec<u8>) -> (rgba: Vec<u8>)
    requires
        bgra@.len() % 4 == 0,
    ensures
        rgba@ == rgba_of(bgra@),
{
    let mut pixels: Vec<u8> = bgra;
    let n: usize = pixels.len();
    let mut i: usize = 0;
    while i < n
        invariant
            n == bgra@.len(),
            n % 4 == 0,
            i % 4 == 0,
            i <= n,
            pixels@.len() == n,
            forall|j: int| 0 <= j < i ==> pixels@[j] == #[trigger] rgba_of(bgra@)[j],
            forall|j: int| i <= j < n ==> #[trigger] pixels@[j] == bgra@[j],
        decreases n - i,
    {
        let blue: u8 = pixels[i];
        let red: u8 = pixels[i + 2];
        pixels.set(i, red);
        pixels.set(i + 2, blue);
        pixels.set(i + 3, 255);
        i = i + 4;
    }
    assert(pixels@ =~= rgba_of(bgra@));
    pixels
}

/// The frame that a drag selects on the screen: its top left corner and its
/// extent.
#[derive(Clone, Copy, Debug, PartialEq, Eq, Structural)]
pub struct SelectionFrame {
    pub x: i32,
    pub y: i32,
    pub w: u32,
    pub h: u32,
}

/// The frame between the point where a drag began and the point it has
/// reached, whichever way the drag went.
pub fn selection_frame(anchor: Coordinate, current: Coordinate) -> (frame: SelectionFrame)
    ensures
        frame.x == if current.x < anchor.x { current.x } else { anchor.x },
        frame.y == if current.y < anchor.y { current.y } else { anchor.y },
        frame.w == if current.x < anchor.x { anchor.x - current.x } else { current.x - anchor.x },
        frame.h == if current.y < anchor.y { anchor.y - current.y } else { current.y - anchor.y },
{
    let dx: i64 = current.x as i64 - anchor.x as i64;
    let dy: i64 = current.y as i64 - anchor.y as i64;
    SelectionFrame {
        x: if dx < 0 { current.x } else { anchor.x },
        y: if dy < 0 { current.y } else { anchor.y },
        w: (if dx < 0 { -dx } else { dx }) as u32,
        h: (if dy < 0 { -dy } else { dy }) as u32,
    }
}

/// A region of an image, in pixels from its top left corner.
#[derive(Clone, Copy, Debug, PartialEq, Eq, Structural)]
pub struct Region {
    pub x: u32,
    pub y: u32,
    pub width: u32,
    pub height: u32,
}

impl Region {
    /// The part of the region that lies in an image of `width` by `height`
    /// pixels: the corner is moved onto the image's edge where it lies
    /// beyond it, and the extent is cut to what is left of the image.
    pub open spec fn clamp(self, width: u32, height: u32) -> Region {
        let x = if self.x <= width { self.x } else { width };
        let y = if self.y <= height { self.y } else { height };
        Region {
            x,
            y,
            width: if self.width <= width - x { self.width } else { (width - x) as u32 },
            height: if self.height <= height - y { self.height } else { (height - y) as u32 },
        }
    }
}

/// The unsigned number with the bits of `v`: a negative `v` wraps around to
/// the upper half of the range.
pub open spec fn wrapped(v: i32) -> u32 {
    if v < 0 {
        (v + 0x1_0000_0000) as u32
    } else {
        v as u32
    }
}

impl SelectionFrame {
    /// The region of the image that the frame names. A coordinate left of or
    /// above the image wraps around to one far beyond it, so that nothing of
    /// an image of ordinary size is left in such a region.
    pub open spec fn region_model(self) -> Region {
        Region { x: wrapped(self.x), y: wrapped(self.y), width: self.w, height: self.h }
    }

    /// The region of the image that the frame names.
    pub fn region(&self) -> (r: Region)
        ensures
            r == self.region_model(),
    {
        let x: i64 = if self.x < 0 { self.x as i64 + 0x1_0000_0000 } else { self.x as i64 };
        let y: i64 = if self.y < 0 { self.y as i64 + 0x1_0000_0000 } else { self.y as i64 };
        Region { x: x as u32, y: y as u32, width: self.w, height: self.h }
    }
}

/// An image of three bytes to a pixel (red, green, blue), row by row.
#[derive(Debug)]
pub struct RgbPixels {
    pub width: u32,
    pub height: u32,
    pub data: Vec<u8>,
}

impl RgbPixels {
    /// There are as many bytes as the extent asks for.
    pub open spec fn wf(self) -> bool {
        self.data@.len() == 3 * self.width * self.height
    }

    /// The byte of channel `c` of the pixel in column `x` of row `y`.
    pub open spec fn channel(self, x: int, y: int, c: int) -> u8 {
        self.data@[3 * (y * self.width + x) + c]
    }

    /// Whether `self` is the part of `source` that `region`, cut to the
    /// extent of `source`, names.
    pub open spec fn is_crop_of(self, source: RgbPixels, region: Region) -> bool {
        let cut = region.clamp(source.width, source.height);
        &&& self.wf()
        &&& self.width == cut.width
        &&& self.height == cut.height
        &&& forall|x: int, y: int, c: int|
            0 <= x < cut.width && 0 <= y < cut.height && 0 <= c < 3
                ==> #[trigger] self.channel(x, y, c) == source.channel(cut.x + x, cut.y + y, c)
    }
}

/// Calls `image::imageops::crop` on the image and copies the view that it
/// returns with `SubImage::to_image`; the bytes go in through
/// `ImageBuffer::from_raw` and come out through `ImageBuffer::into_raw`.
/// Not proved, but taken from the source of the `image` crate: the region is
/// cut to the extent of the image as [`Region::clamp`] says, and the copy
/// holds the pixels of the cut region, unchanged, row by row. The crate
/// counts the bytes of a buffer in `usize`, the bytes of one row first, and
/// gives up where that count overflows: a row has to fit.
#[verifier::external_body]
fn crop_image(source: RgbPixels, region: Region) -> (cut: RgbPixels)
    requires
        source.wf(),
        3 * source.width <= usize::MAX,
    ensures
        cut.is_crop_of(source, region),
{
    let mut buffer = image::RgbImage::from_raw(source.width, source.height, source.data).unwrap();
    let view = image::imageops::crop(&mut buffer, region.x, region.y, region.width, region.height);
    let copy = view.to_image();
    RgbPixels { width: copy.width(), height: copy.height(), data: copy.into_raw() }
}

/// The crop of an image that has no rows: as wide as the region cut to the
/// width of the image, and without rows or bytes.
fn crop_without_rows(source: RgbPixels, region: Region) -> (cut: RgbPixels)
    requires
        source.wf(),
        source.height == 0,
    ensures
        cut.is_crop_of(source, region),
{
    let x: u32 = if region.x <= source.width { region.x } else { source.width };
    let left: u32 = source.width - x;
    let width: u32 = if region.width <= left { region.width } else { left };
    let cut = RgbPixels { width, height: 0, data: Vec::new() };
    assert(3 * width * 0 == 0);
    cut
}

/// Cuts the region that `frame` names out of `source`. The region is cut to
/// the extent of `source` first, so the result may be smaller than the
/// frame, and empty. `None` where `source` does not hold as many bytes as
/// its extent asks for.
pub fn crop_selection(source: RgbPixels, frame: SelectionFrame) -> (cut: Option<RgbPixels>)
    ensures
        source.wf() ==> cut is Some && cut.unwrap().is_crop_of(source, frame.region_model()),
        !source.wf() ==> cut is None,
{
    assert(3 * source.width * source.height <= 3 * 0xffff_ffff * 0xffff_ffff) by (nonlinear_arith)
        requires
            0 <= source.width <= 0xffff_ffff,
            0 <= source.height <= 0xffff_ffff,
    ;
    assert(3 * source.width * source.height == 3 * (source.width * source.height))
        by (nonlinear_arith);
    assert(0 <= source.width * source.height <= 0xffff_ffff * 0xffff_ffff) by (nonlinear_arith)
        requires
            0 <= source.width <= 0xffff_ffff,
            0 <= source.height <= 0xffff_ffff,
    ;
    let area: u128 = (source.width as u128) * (source.height as u128);
    let expected: u128 = 3 * area;
    if source.data.len() as u128 == expected {
        if 3 * (source.width as u128) <= usize::MAX as u128 {
            Some(crop_image(source, frame.region()))
        } else {
            // A row alone has more bytes than a buffer can hold, so there is none.
            assert(source.height == 0) by (nonlinear_arith)
                requires
                    3 * source.width * source.height <= usize::MAX,
                    3 * source.width > usize::MAX,
                    0 <= source.height,
                    0 <= source.width,
            ;
            Some(crop_without_rows(source, frame.region()))
        }
    } else {
        None
    }
}

} // verus!
