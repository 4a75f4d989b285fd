//! Pages as rasters: decoding the bytes of a rendered page, setting it on a
//! canvas that leaves room for its identity border, and pasting the pages of
//! several backends side by side.
//!
//! The rasters are `tiny_skia::Pixmap` values. What such a value holds is
//! spoken of through [`pixmap_size`] and [`pixmap_data`]; the decoder and the
//! painter of tiny-skia are not described here, only named.

use crate::error::ErrorView;
use crate::error::RenderError;
use crate::layout::max_height;
use crate::layout::offset_of;
use crate::layout::spec_layout;
use crate::layout::total_width;
use crate::layout::lemma_height_within_max;
use crate::layout::lemma_offset_within_total;
use crate::layout::composite_size;
use crate::layout::offsets;
use crate::layout::BorderFraction;
use crate::layout::BorderLayout;
use tiny_skia::Pixmap;
use vstd::prelude::*;

verus! {

/// `Pixmap` of tiny-skia, as an opaque value.
#[verifier::external_type_specification]
#[verifier::external_body]
pub struct ExPixmap(tiny_skia::Pixmap);

/// The width and height of a pixmap, in pixels.
pub uninterp spec fn pixmap_size(pixmap: Pixmap) -> (u32, u32);

/// The bytes of a pixmap: four for each pixel, row by row.
pub uninterp spec fn pixmap_data(pixmap: Pixmap) -> Seq<u8>;

/// What tiny-skia's PNG decoder makes of the given bytes: the size and the
/// bytes of the decoded pixmap, or `None` where it rejects them.
pub uninterp spec fn png_decoded(bytes: Seq<u8>) -> Option<((u32, u32), Seq<u8>)>;

/// The width and height that the image header in the given bytes declares,
/// as `imagesize` reads it, or `None` where it finds none.
pub uninterp spec fn blob_dimensions(bytes: Seq<u8>) -> Option<(usize, usize)>;

/// The bytes of a canvas of size `canvas_size` holding `canvas` after
/// tiny-skia has drawn the pixmap of size `size` holding `data` on it with its
/// top left corner at (`x`, `y`), with the default paint and no transform.
pub uninterp spec fn drawn_over(
    canvas_size: (u32, u32),
    canvas: Seq<u8>,
    x: int,
    y: int,
    size: (u32, u32),
    data: Seq<u8>,
) -> Seq<u8>;

/// Whether tiny-skia makes a pixmap of this size: neither side is zero, a
/// row of four bytes per pixel fits in `i32`, and all rows fit in `usize`.
pub open spec fn allocates(width: u32, height: u32) -> bool {
    &&& width > 0
    &&& height > 0
    &&& 4 * width <= i32::MAX
    &&& 4 * width * height <= usize::MAX
}

/// The bytes of a new pixmap: every pixel transparent black.
pub open spec fn blank_data(width: u32, height: u32) -> Seq<u8> {
    Seq::new((4 * width * height) as nat, |i: int| 0u8)
}

/// `Pixmap::new` of tiny-skia: a pixmap of the given size with every byte
/// zero, or `None` where the size is not one that tiny-skia allocates.
pub assume_specification[ tiny_skia::Pixmap::new ](width: u32, height: u32) -> (result: Option<
    tiny_skia::Pixmap,
>)
    ensures
        result is Some <==> allocates(width, height),
        result matches Some(pixmap) ==> pixmap_size(pixmap) == (width, height) && pixmap_data(
            pixmap,
        ) == blank_data(width, height),
;

/// `Pixmap::width` of tiny-skia: the first component of the pixmap's size.
pub assume_specification[ tiny_skia::Pixmap::width ](pixmap: &tiny_skia::Pixmap) -> (width: u32)
    ensures
        width == pixmap_size(*pixmap).0,
;

/// `Pixmap::height` of tiny-skia: the second component of the pixmap's size.
pub assume_specification[ tiny_skia::Pixmap::height ](pixmap: &tiny_skia::Pixmap) -> (height: u32)
    ensures
        height == pixmap_size(*pixmap).1,
;

/// `Pixmap::decode_png` of tiny-skia. The contract only names the outcome:
/// the pixmap's size and bytes are those that [`png_decoded`] gives for the
/// input, and the decoder's refusal is `None`.
#[verifier::external_body]
fn decode_png(bytes: &[u8]) -> (result: Option<Pixmap>)
    ensures
        match result {
            Some(pixmap) => png_decoded(bytes@) == Some((pixmap_size(pixmap), pixmap_data(pixmap))),
            None => png_decoded(bytes@) is None,
        },
{
    match Pixmap::decode_png(bytes) {
        Ok(pixmap) => Some(pixmap),
        Err(_) => None,
    }
}

/// `imagesize::blob_size`. The contract only names the outcome: the width
/// and height are those that [`blob_dimensions`] gives for the input, and an
/// error of the crate is `None`.
#[verifier::external_body]
fn image_dimensions(bytes: &[u8]) -> (result: Option<(usize, usize)>)
    ensures
        result == blob_dimensions(bytes@),
{
    match imagesize::blob_size(bytes) {
        Ok(size) => Some((size.width, size.height)),
        Err(_) => None,
    }
}

/// `Pixmap::draw_pixmap` of tiny-skia with the default `PixmapPaint`, the
/// identity transform and no mask. The canvas keeps its size, and its bytes
/// become those that [`drawn_over`] names. The call needs the right and
/// bottom edge of the drawn pixmap to fit in `i32`.
#[verifier::external_body]
fn draw_at(canvas: &mut Pixmap, x: i32, y: i32, page: &Pixmap)
    requires
        x + pixmap_size(*page).0 <= i32::MAX,
        y + pixmap_size(*page).1 <= i32::MAX,
    ensures
        pixmap_size(*final(canvas)) == pixmap_size(*old(canvas)),
        pixmap_data(*final(canvas)) == drawn_over(
            pixmap_size(*old(canvas)),
            pixmap_data(*old(canvas)),
            x as int,
            y as int,
            pixmap_size(*page),
            pixmap_data(*page),
        ),
{
    canvas.draw_pixmap(
        x,
        y,
        page.as_ref(),
        &tiny_skia::PixmapPaint::default(),
        tiny_skia::Transform::identity(),
        None,
    );
}

/// A page ready for the composite.
pub struct Tile {
    /// The raster: the page as decoded, or the canvas on which it was pasted.
    pub pixmap: Pixmap,
    /// How the page stands on its canvas; `None` for a page that was passed
    /// through without a border.
    pub layout: Option<BorderLayout>,
}

/// The layout of a framed page: that of the declared dimensions under the
/// fraction, where the dimensions are known and fit in 32 bits, the canvas
/// is one that can be allocated, and the decoded page can be drawn at the
/// offset of one border.
pub open spec fn frame_layout(
    decoded_size: (u32, u32),
    dimensions: Option<(usize, usize)>,
    fraction: BorderFraction,
) -> Option<BorderLayout> {
    match dimensions {
        None => None,
        Some((width, height)) => if width > u32::MAX || height > u32::MAX {
            None
        } else {
            match spec_layout(width as u32, height as u32, Some(fraction)) {
                None => None,
                Some(layout) => if allocates(layout.canvas_width, layout.canvas_height)
                    && layout.border + decoded_size.0 <= i32::MAX && layout.border
                    + decoded_size.1 <= i32::MAX {
                    Some(layout)
                } else {
                    None
                },
            }
        },
    }
}

/// The bytes of the canvas of a framed page: a blank canvas of the layout's
/// size with the decoded page drawn at the offset of one border in each
/// direction.
pub open spec fn framed_data(layout: BorderLayout, decoded_size: (u32, u32), decoded: Seq<u8>) -> Seq<
    u8,
> {
    drawn_over(
        (layout.canvas_width, layout.canvas_height),
        blank_data(layout.canvas_width, layout.canvas_height),
        layout.border as int,
        layout.border as int,
        decoded_size,
        decoded,
    )
}

/// Set a decoded page on a canvas that leaves room for its border.
///
/// `dimensions` are the width and height that the page's header declares.
/// The canvas exceeds them by the border in each dimension and holds the
/// decoded page at the offset of one border. The stroke of the border is
/// not drawn here. Fails with `DecodeFailed` exactly where
/// [`frame_layout`] gives no layout.
pub fn frame(decoded: Pixmap, dimensions: Option<(usize, usize)>, fraction: BorderFraction) -> (result:
    Result<Tile, RenderError>)
    ensures
        match result {
            Ok(tile) => {
                &&& tile.layout == frame_layout(pixmap_size(decoded), dimensions, fraction)
                &&& tile.layout matches Some(layout)
                &&& layout.wf()
                &&& pixmap_size(tile.pixmap) == (layout.canvas_width, layout.canvas_height)
                &&& pixmap_data(tile.pixmap) == framed_data(
                    layout,
                    pixmap_size(decoded),
                    pixmap_data(decoded),
                )
            },
            Err(e) => {
                &&& e@ == ErrorView::DecodeFailed
                &&& frame_layout(pixmap_size(decoded), dimensions, fraction) is None
            },
        },
{
    let (width, height) = match dimensions {
        Some(d) => d,
        None => {
            return Err(RenderError::DecodeFailed);
        },
    };
    if width > u32::MAX as usize || height > u32::MAX as usize {
        return Err(RenderError::DecodeFailed);
    }
    let layout = match BorderLayout::plan(width as u32, height as u32, Some(fraction)) {
        Some(layout) => layout,
        None => {
            return Err(RenderError::DecodeFailed);
        },
    };
    let limit: u64 = i32::MAX as u64;
    if layout.border as u64 + decoded.width() as u64 > limit || layout.border as u64
        + decoded.height() as u64 > limit {
        return Err(RenderError::DecodeFailed);
    }
    let mut canvas = match Pixmap::new(layout.canvas_width, layout.canvas_height) {
        Some(canvas) => canvas,
        None => {
            return Err(RenderError::DecodeFailed);
        },
    };
    draw_at(&mut canvas, layout.paste_x() as i32, layout.paste_y() as i32, &decoded);
    Ok(Tile { pixmap: canvas, layout: Some(layout) })
}

/// What becomes of the bytes of a page: `None` where the decoder rejects
/// them or, with a border, where no canvas can be laid out; else the layout
/// (none for a page passed through), the size and the bytes of the raster.
pub open spec fn annotated(bytes: Seq<u8>, fraction: Option<BorderFraction>) -> Option<
    (Option<BorderLayout>, (u32, u32), Seq<u8>),
> {
    match png_decoded(bytes) {
        None => None,
        Some((size, data)) => match fraction {
            None => Some((None, size, data)),
            Some(f) => match frame_layout(size, blob_dimensions(bytes), f) {
                None => None,
                Some(layout) => Some(
                    (
                        Some(layout),
                        (layout.canvas_width, layout.canvas_height),
                        framed_data(layout, size, data),
                    ),
                ),
            },
        },
    }
}

/// Decode a rendered page and, where a border fraction is given, set it on a
/// canvas with room for the border.
///
/// Without a fraction the decoded raster is returned as it is. With one,
/// the page is framed as [`frame`] says, by the dimensions that its header
/// declares. Fails with `DecodeFailed` exactly where [`annotated`] is
/// `None`.
pub fn annotate(page: &[u8], fraction: Option<BorderFraction>) -> (result: Result<Tile, RenderError>)
    ensures
        match result {
            Ok(tile) => annotated(page@, fraction) == Some(
                (tile.layout, pixmap_size(tile.pixmap), pixmap_data(tile.pixmap)),
            ),
            Err(e) => e@ == ErrorView::DecodeFailed && annotated(page@, fraction) is None,
        },
{
    let decoded = match decode_png(page) {
        Some(decoded) => decoded,
        None => {
            return Err(RenderError::DecodeFailed);
        },
    };
    match fraction {
        None => Ok(Tile { pixmap: decoded, layout: None }),
        Some(f) => {
            let dimensions = image_dimensions(page);
            frame(decoded, dimensions, f)
        },
    }
}

/// The sizes of the given pixmaps, in their order.
pub open spec fn tile_sizes(tiles: Seq<Pixmap>) -> Seq<(u32, u32)> {
    Seq::new(tiles.len(), |i: int| pixmap_size(tiles[i]))
}

/// The size of the composite of the given pixmaps: the sum of their widths
/// and the largest of their heights.
pub open spec fn composite_extent(tiles: Seq<Pixmap>) -> (nat, nat) {
    (total_width(tile_sizes(tiles)), max_height(tile_sizes(tiles)))
}

/// Whether the given pixmaps have a composite: its size is one that can be
/// allocated, and its height fits in `i32`.
pub open spec fn composable(tiles: Seq<Pixmap>) -> bool {
    let (width, height) = composite_extent(tiles);
    &&& width <= u32::MAX
    &&& height <= i32::MAX
    &&& allocates(width as u32, height as u32)
}

/// The bytes of the composite after the first `count` pixmaps have been
/// pasted: each at the top, its left edge where the widths of those before
/// it end.
pub open spec fn pasted(tiles: Seq<Pixmap>, count: nat) -> Seq<u8>
    decreases count,
{
    let (width, height) = composite_extent(tiles);
    if count == 0 {
        blank_data(width as u32, height as u32)
    } else {
        drawn_over(
            (width as u32, height as u32),
            pasted(tiles, (count - 1) as nat),
            offset_of(tile_sizes(tiles), count - 1) as int,
            0,
            pixmap_size(tiles[count - 1]),
            pixmap_data(tiles[count - 1]),
        )
    }
}

/// The pixmaps that the references point to, in their order.
pub open spec fn referents(tiles: Seq<&Pixmap>) -> Seq<Pixmap> {
    Seq::new(tiles.len(), |i: int| *tiles[i])
}

/// Lay the referenced pixmaps out side by side in one image, as [`compose`]
/// does with pixmaps that it is given directly.
pub fn compose_all(tiles: &Vec<&Pixmap>) -> (result: Option<Pixmap>)
    ensures
        result is Some <==> composable(referents(tiles@)),
        result matches Some(image) ==> {
            &&& pixmap_size(image).0 == composite_extent(referents(tiles@)).0
            &&& pixmap_size(image).1 == composite_extent(referents(tiles@)).1
            &&& pixmap_data(image) == pasted(referents(tiles@), tiles@.len())
        },
{
    let ghost pixmaps = referents(tiles@);
    let mut sizes: Vec<(u32, u32)> = Vec::new();
    let mut i: usize = 0;
    while i < tiles.len()
        invariant
            0 <= i <= tiles.len(),
            pixmaps == referents(tiles@),
            sizes.len() == i,
            forall|j: int| 0 <= j < i ==> sizes[j] == pixmap_size(pixmaps[j]),
        decreases tiles.len() - i,
    {
        let tile: &Pixmap = tiles[i];
        assert(*tile == pixmaps[i as int]);
        sizes.push((tile.width(), tile.height()));
        i = i + 1;
    }
    assert(sizes@ =~= tile_sizes(pixmaps));
    let (width, height) = match composite_size(&sizes) {
        Some(extent) => extent,
        None => {
            return None;
        },
    };
    if height > i32::MAX as u32 {
        return None;
    }
    let mut canvas = match Pixmap::new(width, height) {
        Some(canvas) => canvas,
        None => {
            return None;
        },
    };
    let xs = match offsets(&sizes) {
        Some(xs) => xs,
        None => {
            return None;
        },
    };
    let mut k: usize = 0;
    while k < tiles.len()
        invariant
            0 <= k <= tiles.len(),
            pixmaps == referents(tiles@),
            sizes@ == tile_sizes(pixmaps),
            xs.len() == tiles.len(),
            forall|j: int| 0 <= j < xs.len() ==> xs[j] == offset_of(sizes@, j),
            width == total_width(sizes@),
            height == max_height(sizes@),
            height <= i32::MAX,
            allocates(width, height),
            pixmap_size(canvas) == (width, height),
            pixmap_data(canvas) == pasted(pixmaps, k as nat),
        decreases tiles.len() - k,
    {
        proof {
            lemma_offset_within_total(sizes@, k as int);
            lemma_height_within_max(sizes@, k as int);
        }
        let tile: &Pixmap = tiles[k];
        assert(*tile == pixmaps[k as int]);
        draw_at(&mut canvas, xs[k] as i32, 0, tile);
        k = k + 1;
    }
    Some(canvas)
}

/// Lay the given pixmaps out side by side in one image, left to right in
/// their order, each aligned at the top.
///
/// The image is as wide as all of them together and as tall as the tallest;
/// below a shorter one it stays blank. `None` exactly where the pixmaps are
/// not [`composable`].
pub fn compose(tiles: &Vec<Pixmap>) -> (result: Option<Pixmap>)
    ensures
        result is Some <==> composable(tiles@),
        result matches Some(image) ==> {
            &&& pixmap_size(image).0 == composite_extent(tiles@).0
            &&& pixmap_size(image).1 == composite_extent(tiles@).1
            &&& pixmap_data(image) == pasted(tiles@, tiles@.len())
        },
{
    let mut refs: Vec<&Pixmap> = Vec::new();
    let mut i: usize = 0;
    while i < tiles.len()
        invariant
            0 <= i <= tiles.len(),
            refs@.len() == i,
            forall|j: int| 0 <= j < i ==> *refs@[j] == tiles@[j],
        decreases tiles.len() - i,
    {
        refs.push(&tiles[i]);
        i = i + 1;
    }
    assert(referents(refs@) =~= tiles@);
    compose_all(&refs)
}

/// Prepare the pages of a rendered document for the composite: each is
/// decoded and, where a border fraction is given, framed, as [`annotate`]
/// says.
///
/// A success holds one tile for each page, in the order of the pages. The
/// first page that cannot be annotated fails the whole with `DecodeFailed`.
pub fn annotate_pages(pages: &Vec<Vec<u8>>, fraction: Option<BorderFraction>) -> (result: Result<
    Vec<Tile>,
    RenderError,
>)
    ensures
        match result {
            Ok(tiles) => {
                &&& tiles@.len() == pages@.len()
                &&& forall|i: int|
                    0 <= i < tiles@.len() ==> annotated(pages@[i]@, fraction) == Some(
                        (
                            (#[trigger] tiles@[i]).layout,
                            pixmap_size(tiles@[i].pixmap),
                            pixmap_data(tiles@[i].pixmap),
                        ),
                    )
            },
            Err(e) => {
                &&& e@ == ErrorView::DecodeFailed
                &&& exists|i: int|
                    0 <= i < pages@.len() && annotated(#[trigger] pages@[i]@, fraction) is None
            },
        },
{
    let mut tiles: Vec<Tile> = Vec::new();
    let mut i: usize = 0;
    while i < pages.len()
        invariant
            0 <= i <= pages.len(),
            tiles@.len() == i,
            forall|j: int|
                0 <= j < i ==> annotated(pages@[j]@, fraction) == Some(
                    (
                        (#[trigger] tiles@[j]).layout,
                        pixmap_size(tiles@[j].pixmap),
                        pixmap_data(tiles@[j].pixmap),
                    ),
                ),
        decreases pages.len() - i,
    {
        match annotate(pages[i].as_slice(), fraction) {
            Ok(tile) => {
                tiles.push(tile);
            },
            Err(e) => {
                assert(annotated(pages@[i as int]@, fraction) is None);
                return Err(e);
            },
        }
        i = i + 1;
    }
    Ok(tiles)
}

} // verus!
