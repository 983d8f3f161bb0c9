//! Which source pixels the magnifier shows: a square of samples around the
//! pixel under the pointer, clamped to the image.

use vstd::prelude::*;
use crate::geometry::span;
use crate::selection::{RectangleSelection, selection_spans_fit};

verus! {

/// Samples per side of the magnifier grid.
pub const SAMPLE_SIZE: i32 = 15;

/// `v` limited to the range `lo ..= hi`.
pub open spec fn clamp(v: int, lo: int, hi: int) -> int {
    if v < lo {
        lo
    } else if v > hi {
        hi
    } else {
        v
    }
}

/// The source pixel shown in the grid cell `(gx, gy)` around the centre
/// pixel `(cx, cy)` of an image of `width` by `height` pixels.
pub open spec fn sample_at(cx: int, cy: int, width: int, height: int, gx: int, gy: int) -> (u32, u32) {
    let half = SAMPLE_SIZE / 2;
    (clamp(cx + gx - half, 0, width - 1) as u32, clamp(cy + gy - half, 0, height - 1) as u32)
}

/// The pixel `p` is the one the grid cell `(gx, gy)` around the centre
/// `(cx, cy)` shows: the pixel `gx - 7` columns and `gy - 7` rows from the
/// centre, or, past the image's border, the nearest pixel on the border.
pub open spec fn grid_cell_shows(p: (u32, u32), cx: int, cy: int, width: int, height: int, gx: int, gy: int) -> bool {
    let sx = cx + gx - 7;
    let sy = cy + gy - 7;
    &&& 0 <= sx < width ==> p.0 == sx
    &&& sx < 0 ==> p.0 == 0
    &&& sx >= width ==> p.0 == width - 1
    &&& 0 <= sy < height ==> p.1 == sy
    &&& sy < 0 ==> p.1 == 0
    &&& sy >= height ==> p.1 == height - 1
}

/// Each magnifier cell shows the pixel at its own offset from the centre,
/// clamped to the image: away from the border, neighbouring cells show
/// neighbouring pixels.
pub proof fn lemma_sample_offsets(cx: int, cy: int, width: int, height: int, gx: int, gy: int)
    requires
        0 < width <= i32::MAX,
        0 < height <= i32::MAX,
    ensures
        grid_cell_shows(sample_at(cx, cy, width, height, gx, gy), cx, cy, width, height, gx, gy),
{
}

impl RectangleSelection {
    /// Whether the magnifier has anything to show: the image of the output
    /// and the output itself both have an area.
    pub fn magnifier_visible(&self, image_width: u32, image_height: u32) -> (res: bool)
        requires
            selection_spans_fit(self.output_rect),
        ensures
            res == (image_width > 0 && image_height > 0 && span(
                self.output_rect.left,
                self.output_rect.right,
            ) > 0 && span(self.output_rect.top, self.output_rect.bottom) > 0),
    {
        if image_width == 0 || image_height == 0 {
            return false;
        }
        let (w, h) = self.output_size();
        w > 0 && h > 0
    }
}

/// The source pixels of the magnifier grid, row by row: the entry
/// `gy * SAMPLE_SIZE + gx` is the pixel shown in column `gx` of row `gy`.
pub fn magnifier_grid(center_x: i32, center_y: i32, width: u32, height: u32) -> (res: Vec<(u32, u32)>)
    requires
        0 < width <= i32::MAX,
        0 < height <= i32::MAX,
        i32::MIN + SAMPLE_SIZE / 2 <= center_x <= i32::MAX - (SAMPLE_SIZE - 1),
        i32::MIN + SAMPLE_SIZE / 2 <= center_y <= i32::MAX - (SAMPLE_SIZE - 1),
    ensures
        res@.len() == SAMPLE_SIZE * SAMPLE_SIZE,
        forall|gx: int, gy: int|
            0 <= gx < SAMPLE_SIZE && 0 <= gy < SAMPLE_SIZE ==> #[trigger] res@[gy * SAMPLE_SIZE + gx]
                == sample_at(center_x as int, center_y as int, width as int, height as int, gx, gy),
        forall|gx: int, gy: int|
            0 <= gx < SAMPLE_SIZE && 0 <= gy < SAMPLE_SIZE ==> grid_cell_shows(
                #[trigger] res@[gy * SAMPLE_SIZE + gx],
                center_x as int,
                center_y as int,
                width as int,
                height as int,
                gx,
                gy,
            ),
{
    proof {
        assert forall|gx: int, gy: int| 0 <= gx < SAMPLE_SIZE && 0 <= gy < SAMPLE_SIZE implies
            grid_cell_shows(
                sample_at(center_x as int, center_y as int, width as int, height as int, gx, gy),
                center_x as int,
                center_y as int,
                width as int,
                height as int,
                gx,
                gy,
            ) by {
            lemma_sample_offsets(center_x as int, center_y as int, width as int, height as int, gx, gy);
        }
    }
    let half = SAMPLE_SIZE / 2;
    let max_x = width as i32 - 1;
    let max_y = height as i32 - 1;
    let mut res: Vec<(u32, u32)> = Vec::new();
    let mut gy: i32 = 0;
    while gy < SAMPLE_SIZE
        invariant
            0 <= gy <= SAMPLE_SIZE,
            half == SAMPLE_SIZE / 2,
            max_x == width - 1,
            max_y == height - 1,
            0 < width <= i32::MAX,
            0 < height <= i32::MAX,
            i32::MIN + SAMPLE_SIZE / 2 <= center_x <= i32::MAX - (SAMPLE_SIZE - 1),
            i32::MIN + SAMPLE_SIZE / 2 <= center_y <= i32::MAX - (SAMPLE_SIZE - 1),
            res@.len() == gy * SAMPLE_SIZE,
            forall|gx2: int, gy2: int|
                0 <= gx2 < SAMPLE_SIZE && 0 <= gy2 < gy ==> #[trigger] res@[gy2 * SAMPLE_SIZE + gx2]
                    == sample_at(center_x as int, center_y as int, width as int, height as int, gx2, gy2),
        decreases SAMPLE_SIZE - gy,
    {
        let mut gx: i32 = 0;
        while gx < SAMPLE_SIZE
            invariant
                0 <= gx <= SAMPLE_SIZE,
                0 <= gy < SAMPLE_SIZE,
                half == SAMPLE_SIZE / 2,
                max_x == width - 1,
                max_y == height - 1,
                0 < width <= i32::MAX,
                0 < height <= i32::MAX,
                i32::MIN + SAMPLE_SIZE / 2 <= center_x <= i32::MAX - (SAMPLE_SIZE - 1),
                i32::MIN + SAMPLE_SIZE / 2 <= center_y <= i32::MAX - (SAMPLE_SIZE - 1),
                res@.len() == gy * SAMPLE_SIZE + gx,
                forall|gx2: int, gy2: int|
                    0 <= gx2 < SAMPLE_SIZE && 0 <= gy2 < gy ==> #[trigger] res@[gy2 * SAMPLE_SIZE
                        + gx2] == sample_at(
                        center_x as int,
                        center_y as int,
                        width as int,
                        height as int,
                        gx2,
                        gy2,
                    ),
                forall|gx2: int|
                    0 <= gx2 < gx ==> #[trigger] res@[gy * SAMPLE_SIZE + gx2] == sample_at(
                        center_x as int,
                        center_y as int,
                        width as int,
                        height as int,
                        gx2,
                        gy as int,
                    ),
            decreases SAMPLE_SIZE - gx,
        {
            let sx = center_x + gx - half;
            let sy = center_y + gy - half;
            let cx = if sx < 0 { 0 } else if sx > max_x { max_x } else { sx };
            let cy = if sy < 0 { 0 } else if sy > max_y { max_y } else { sy };
            res.push((cx as u32, cy as u32));
            gx = gx + 1;
        }
        gy = gy + 1;
    }
    res
}

} // verus!
