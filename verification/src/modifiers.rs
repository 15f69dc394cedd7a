//! Mesh modifiers and buffer conversions: heightmap displacement, colormap
//! transfer, and packing the pixel buffer into byte streams. The image
//! decoding and file I/O that feed these live with the unverified
//! collaborators, which hand over plain channel values.

use vstd::prelude::*;
use vstd::pervasive::VecAdditionalExecFns;
use crate::fixed::FX_ONE;
use crate::fixed::fx_div;
use crate::fixed::fx_div_s;
use crate::fixed::fx_mul;
use crate::fixed::fx_mul_s;
use crate::fixed::fx_sub;
use crate::fixed::fx_sub_s;
use crate::algebra::Vector4;
use crate::render::Object3D;

verus! {

/// Packed ARGB color from the four channels of a decoded pixel.
pub open spec fn rgba_to_u32_s(p: (u8, u8, u8, u8)) -> u32 {
    ((p.3 as u32) << 24) | ((p.0 as u32) << 16) | ((p.1 as u32) << 8) | (p.2 as u32)
}

/// Pack one (red, green, blue, alpha) pixel into an ARGB word.
pub fn rgba_to_u32(rgba: (u8, u8, u8, u8)) -> (r: u32)
    ensures
        r == rgba_to_u32_s(rgba),
{
    ((rgba.3 as u32) << 24) | ((rgba.0 as u32) << 16) | ((rgba.1 as u32) << 8) | (rgba.2 as u32)
}

/// The displaced height of a vertex under a heightmap sample: darker pixels
/// rise, `(1 - sample/255) · scale`.
pub open spec fn displaced_height_s(px: u8, scale: int) -> int {
    fx_mul_s(fx_sub_s(FX_ONE as int, fx_div_s(65536 * (px as int), (65536 * 255) as int)), scale)
}

/// One vertex of the grid displaced: only the y component changes.
pub open spec fn displace_cell_s(
    verts: Seq<Vector4>,
    heights: Seq<u8>,
    w: int,
    x: int,
    y: int,
    scale: int,
) -> Seq<Vector4> {
    let idx = x + y * w;
    verts.update(
        idx,
        Vector4 {
            x: verts[idx].x,
            y: displaced_height_s(heights[idx], scale) as i64,
            z: verts[idx].z,
            w: verts[idx].w,
        },
    )
}

/// Column `x` of the grid displaced for rows 0 .. n.
pub open spec fn displace_col_s(
    verts: Seq<Vector4>,
    heights: Seq<u8>,
    w: int,
    x: int,
    n: int,
    scale: int,
) -> Seq<Vector4>
    decreases n,
{
    if n <= 0 {
        verts
    } else {
        displace_cell_s(displace_col_s(verts, heights, w, x, n - 1, scale), heights, w, x, n - 1,
            scale)
    }
}

/// Columns 0 .. n of the grid displaced over all `h` rows.
pub open spec fn displace_s(
    verts: Seq<Vector4>,
    heights: Seq<u8>,
    w: int,
    h: int,
    n: int,
    scale: int,
) -> Seq<Vector4>
    decreases n,
{
    if n <= 0 {
        verts
    } else {
        displace_col_s(displace_s(verts, heights, w, h, n - 1, scale), heights, w, n - 1, h, scale)
    }
}

/// Displace a subdivided plane by a heightmap: vertex (x + y·width) gets the
/// height `(1 - sample/255) · scale` from the sample at the same index.
pub fn displace_plane(
    plane: &mut Object3D,
    heights: &Vec<u8>,
    width: usize,
    height: usize,
    scale: i64,
)
    requires
        heights@.len() == width * height,
        width * height <= old(plane).vertices@.len(),
        width <= 0x100000,
        height <= 0x100000,
    ensures
        final(plane).vertices@ == displace_s(old(plane).vertices@, heights@, width as int,
            height as int, width as int, scale as int),
        final(plane).colors@ == old(plane).colors@,
        final(plane).edges@ == old(plane).edges@,
        final(plane).triangles@ == old(plane).triangles@,
{
    let ghost verts0 = plane.vertices@;
    let total: usize = plane.vertices.len();
    proof {
        assert(total == plane.vertices@.len());
    }
    let mut x: usize = 0;
    while x < width
        invariant
            heights@.len() == width * height,
            width * height <= verts0.len(),
            width <= 0x100000,
            height <= 0x100000,
            width * height <= usize::MAX,
            x <= width,
            plane.vertices@.len() == verts0.len(),
            plane.vertices@ == displace_s(verts0, heights@, width as int, height as int, x as int,
                scale as int),
            plane.colors@ == old(plane).colors@,
            plane.edges@ == old(plane).edges@,
            plane.triangles@ == old(plane).triangles@,
        decreases width - x,
    {
        let ghost col0 = plane.vertices@;
        let mut y: usize = 0;
        while y < height
            invariant
                heights@.len() == width * height,
                width * height <= verts0.len(),
                width <= 0x100000,
                height <= 0x100000,
                width * height <= usize::MAX,
                x < width,
                y <= height,
                col0.len() == verts0.len(),
                plane.vertices@.len() == verts0.len(),
                plane.vertices@ == displace_col_s(col0, heights@, width as int, x as int,
                    y as int, scale as int),
                plane.colors@ == old(plane).colors@,
                plane.edges@ == old(plane).edges@,
                plane.triangles@ == old(plane).triangles@,
            decreases height - y,
        {
            proof {
                assert((x as int) + (y as int) * (width as int) < (width as int) * (height as int))
                    by (nonlinear_arith)
                    requires
                        0 <= (x as int) < (width as int),
                        0 <= (y as int) < (height as int),
                ;
            }
            let idx: usize = x + y * width;
            let px: u8 = heights[idx];
            let h_val: i64 = fx_mul(fx_sub(FX_ONE, fx_div(65536 * (px as i64), 65536 * 255)),
                scale);
            let v = plane.vertices[idx];
            plane.vertices.set(idx, Vector4 { x: v.x, y: h_val, z: v.z, w: v.w });
            y = y + 1;
        }
        x = x + 1;
    }
}

/// One color slot overwritten from the colormap, if the mesh has that slot.
pub open spec fn colorize_cell_s(
    colors: Seq<u32>,
    cmap: Seq<(u8, u8, u8, u8)>,
    w: int,
    x: int,
    y: int,
) -> Seq<u32> {
    let idx = x + y * w;
    if idx < colors.len() {
        colors.update(idx, rgba_to_u32_s(cmap[idx]))
    } else {
        colors
    }
}

/// Column `x` recolored for rows 0 .. n.
pub open spec fn colorize_col_s(
    colors: Seq<u32>,
    cmap: Seq<(u8, u8, u8, u8)>,
    w: int,
    x: int,
    n: int,
) -> Seq<u32>
    decreases n,
{
    if n <= 0 {
        colors
    } else {
        colorize_cell_s(colorize_col_s(colors, cmap, w, x, n - 1), cmap, w, x, n - 1)
    }
}

/// Columns 0 .. n recolored over all `h` rows.
pub open spec fn colorize_s(
    colors: Seq<u32>,
    cmap: Seq<(u8, u8, u8, u8)>,
    w: int,
    h: int,
    n: int,
) -> Seq<u32>
    decreases n,
{
    if n <= 0 {
        colors
    } else {
        colorize_col_s(colorize_s(colors, cmap, w, h, n - 1), cmap, w, n - 1, h)
    }
}

/// Overwrite the mesh's per-vertex colors from a decoded colormap, packing
/// each pixel as ARGB; color slots past the end of the mesh are skipped.
pub fn colorize_plane(
    plane: &mut Object3D,
    colormap: &Vec<(u8, u8, u8, u8)>,
    width: usize,
    height: usize,
)
    requires
        colormap@.len() == width * height,
        width <= 0x100000,
        height <= 0x100000,
    ensures
        final(plane).colors@ == colorize_s(old(plane).colors@, colormap@, width as int,
            height as int, width as int),
        final(plane).vertices@ == old(plane).vertices@,
        final(plane).edges@ == old(plane).edges@,
        final(plane).triangles@ == old(plane).triangles@,
{
    let ghost colors0 = plane.colors@;
    let total: usize = colormap.len();
    proof {
        assert(total == colormap@.len());
    }
    let mut x: usize = 0;
    while x < width
        invariant
            colormap@.len() == width * height,
            width <= 0x100000,
            height <= 0x100000,
            width * height <= usize::MAX,
            x <= width,
            plane.colors@.len() == colors0.len(),
            plane.colors@ == colorize_s(colors0, colormap@, width as int, height as int, x as int),
            plane.vertices@ == old(plane).vertices@,
            plane.edges@ == old(plane).edges@,
            plane.triangles@ == old(plane).triangles@,
        decreases width - x,
    {
        let ghost col0 = plane.colors@;
        let mut y: usize = 0;
        while y < height
            invariant
                colormap@.len() == width * height,
                width <= 0x100000,
                height <= 0x100000,
                width * height <= usize::MAX,
                x < width,
                y <= height,
                col0.len() == colors0.len(),
                plane.colors@.len() == colors0.len(),
                plane.colors@ == colorize_col_s(col0, colormap@, width as int, x as int, y as int),
                plane.vertices@ == old(plane).vertices@,
                plane.edges@ == old(plane).edges@,
                plane.triangles@ == old(plane).triangles@,
            decreases height - y,
        {
            proof {
                assert((x as int) + (y as int) * (width as int) < (width as int) * (height as int))
                    by (nonlinear_arith)
                    requires
                        0 <= (x as int) < (width as int),
                        0 <= (y as int) < (height as int),
                ;
            }
            let idx: usize = x + y * width;
            if idx < plane.colors.len() {
                let packed: u32 = rgba_to_u32(colormap[idx]);
                plane.colors.set(idx, packed);
            }
            y = y + 1;
        }
        x = x + 1;
    }
}

/// Flat ARGB-to-RGBA byte stream of the pixel buffer: for each pixel the
/// bytes are the channels from the highest down.
pub fn buffer_to_image_buffer_rgba(buffer: &Vec<u32>, dimensions: (u32, u32)) -> (r: Vec<u8>)
    requires
        buffer@.len() == dimensions.0 * dimensions.1,
    ensures
        r@.len() == 4 * buffer@.len(),
        forall|j: int|
            0 <= j < buffer@.len() ==> r@[4 * j] == (((#[trigger] buffer@[j]) >> 24)
                & 0xFF) as u8 && r@[4 * j + 1] == ((buffer@[j] >> 16) & 0xFF) as u8 && r@[4 * j
                + 2] == ((buffer@[j] >> 8) & 0xFF) as u8 && r@[4 * j + 3] == (buffer@[j]
                & 0xFF) as u8,
{
    let mut out: Vec<u8> = Vec::new();
    let mut j: usize = 0;
    while j < buffer.len()
        invariant
            j <= buffer@.len(),
            out@.len() == 4 * j,
            forall|k: int|
                0 <= k < j ==> out@[4 * k] == (((#[trigger] buffer@[k]) >> 24) & 0xFF) as u8
                    && out@[4 * k + 1] == ((buffer@[k] >> 16) & 0xFF) as u8 && out@[4 * k + 2]
                    == ((buffer@[k] >> 8) & 0xFF) as u8 && out@[4 * k + 3] == (buffer@[k]
                    & 0xFF) as u8,
        decreases buffer@.len() - j,
    {
        let c: u32 = buffer[j];
        out.push(((c >> 24) & 0xFF) as u8);
        out.push(((c >> 16) & 0xFF) as u8);
        out.push(((c >> 8) & 0xFF) as u8);
        out.push((c & 0xFF) as u8);
        j = j + 1;
    }
    out
}

/// Flat RGB byte stream of the pixel buffer, alpha forced to 255: red,
/// green and blue from the low 24 bits of each pixel.
pub fn buffer_to_image_buffer_rgb(buffer: &Vec<u32>, dimensions: (u32, u32)) -> (r: Vec<u8>)
    requires
        buffer@.len() == dimensions.0 * dimensions.1,
    ensures
        r@.len() == 4 * buffer@.len(),
        forall|j: int|
            0 <= j < buffer@.len() ==> r@[4 * j] == (((#[trigger] buffer@[j]) >> 16)
                & 0xFF) as u8 && r@[4 * j + 1] == ((buffer@[j] >> 8) & 0xFF) as u8 && r@[4 * j
                + 2] == (buffer@[j] & 0xFF) as u8 && r@[4 * j + 3] == 255u8,
{
    let mut out: Vec<u8> = Vec::new();
    let mut j: usize = 0;
    while j < buffer.len()
        invariant
            j <= buffer@.len(),
            out@.len() == 4 * j,
            forall|k: int|
                0 <= k < j ==> out@[4 * k] == (((#[trigger] buffer@[k]) >> 16) & 0xFF) as u8
                    && out@[4 * k + 1] == ((buffer@[k] >> 8) & 0xFF) as u8 && out@[4 * k + 2]
                    == (buffer@[k] & 0xFF) as u8 && out@[4 * k + 3] == 255u8,
        decreases buffer@.len() - j,
    {
        let c: u32 = buffer[j];
        out.push(((c >> 16) & 0xFF) as u8);
        out.push(((c >> 8) & 0xFF) as u8);
        out.push((c & 0xFF) as u8);
        out.push(255);
        j = j + 1;
    }
    out
}

} // verus!
