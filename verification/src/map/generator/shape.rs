//! The silhouette of a zone and the bands along its border.
//!
//! A zone occupies an octagon inside its bounding rectangle: the four corners
//! are clipped along diagonals, so that neighbouring zones can share diagonal
//! edges. Positions near an edge or a clipped corner belong to a border band,
//! which names the side it runs along and how deep inside the zone the
//! position lies.

use vstd::prelude::*;

verus! {

/// The divisor that sets how much of each side a clipped corner takes.
pub const SHAPE_DIVISOR: u32 = 3;

/// A border band: the side or corner it runs along, and the depth of the
/// position in it. Depth 1 is the outermost ring.
#[derive(Clone, Copy, Debug, PartialEq, Eq, Structural)]
pub enum Border {
    TopLeft(u32),
    Top(u32),
    TopRight(u32),
    Right(u32),
    BottomRight(u32),
    Bottom(u32),
    BottomLeft(u32),
    Left(u32),
}

impl Border {
    /// The depth of the position in its band.
    pub open spec fn depth(self) -> u32 {
        match self {
            Border::TopLeft(d) => d,
            Border::Top(d) => d,
            Border::TopRight(d) => d,
            Border::Right(d) => d,
            Border::BottomRight(d) => d,
            Border::Bottom(d) => d,
            Border::BottomLeft(d) => d,
            Border::Left(d) => d,
        }
    }

    /// The depth of the position in its band.
    pub fn get_depth(&self) -> (d: u32)
        ensures
            d == self.depth(),
    {
        match self {
            Border::TopLeft(d) => *d,
            Border::Top(d) => *d,
            Border::TopRight(d) => *d,
            Border::Right(d) => *d,
            Border::BottomRight(d) => *d,
            Border::Bottom(d) => *d,
            Border::BottomLeft(d) => *d,
            Border::Left(d) => *d,
        }
    }
}

/// The length of the part of a side of `extent` tiles that a clipped corner
/// takes.
pub open spec fn part_len(extent: int, divisor: int) -> int {
    (extent - 1) / divisor
}

/// The distance of a row to the nearer of the top and bottom edges.
pub open spec fn edge_distance(height: int, row: int) -> int {
    if row < height / 2 {
        row
    } else {
        height - (row + 1)
    }
}

/// Whether `(row, col)` lies outside the octagon of a `width` by `height`
/// zone whose corners are clipped by `divisor`. Middle rows are never
/// clipped; in the rows near the top and bottom the clipped margin shrinks by
/// one tile per row of distance to the edge.
pub open spec fn out_of_shape(width: int, height: int, row: int, col: int, divisor: int) -> bool {
    let row_part = part_len(width, divisor);
    let col_part = part_len(height, divisor);
    if col_part < row < height - col_part {
        false
    } else {
        let d = edge_distance(height, row);
        col < row_part - d || col >= width - row_part + d
    }
}

/// Whether `(row, col)` lies outside the octagon of the zone.
pub open spec fn out_of_zone(width: int, height: int, row: int, col: int) -> bool {
    out_of_shape(width, height, row, col, SHAPE_DIVISOR as int)
}

/// The border band of `(row, col)`, if any, for bands at most `spacing` deep.
/// Where a position qualifies for several bands, the first in the order top,
/// top left, top right, left, right, bottom left, bottom, bottom right wins.
pub open spec fn border_at(width: int, height: int, row: int, col: int, spacing: int) -> Option<
    Border,
> {
    let row_part = part_len(width, SHAPE_DIVISOR as int);
    let col_part = part_len(height, SHAPE_DIVISOR as int);
    let inside = !out_of_zone(width, height, row, col);
    let top_left = col - (row_part - row - 1);
    let top_right = (width - col) - (row_part - row);
    let bottom_left = col + 1 - (row_part - (height - (row + 1)));
    let bottom_right = (width - row_part + height - (row + 1)) - col;
    if row_part <= col < width - row_part && row < spacing {
        Some(Border::Top((row + 1) as u32))
    } else if col <= row_part && row < col_part && inside && top_left <= spacing {
        Some(Border::TopLeft(top_left as u32))
    } else if col >= width - row_part && row < col_part && inside && top_right <= spacing {
        Some(Border::TopRight(top_right as u32))
    } else if col_part <= row < height - col_part && col < spacing {
        Some(Border::Left((col + 1) as u32))
    } else if col >= width - row_part && row < height - col_part && inside && width - col
        <= spacing {
        Some(Border::Right((width - col) as u32))
    } else if row >= height - col_part && col < row_part && inside && bottom_left <= spacing {
        Some(Border::BottomLeft(bottom_left as u32))
    } else if row_part <= col < width - row_part && height - row <= spacing {
        Some(Border::Bottom((height - row) as u32))
    } else if row >= height - col_part && col >= width - row_part && inside && bottom_right
        <= spacing {
        Some(Border::BottomRight(bottom_right as u32))
    } else {
        None
    }
}

/// Whether the position `(tested_row_i, tested_col_i)` of a zone lies outside
/// the octagon that a corner clipping by `divisor` leaves of it.
pub fn is_out_shape(
    width: u32,
    height: u32,
    tested_row_i: u32,
    tested_col_i: u32,
    divisor: u32,
) -> (out: bool)
    requires
        tested_row_i < height,
        tested_col_i < width,
        divisor > 0,
    ensures
        out == out_of_shape(
            width as int,
            height as int,
            tested_row_i as int,
            tested_col_i as int,
            divisor as int,
        ),
{
    let w: i64 = width as i64;
    let h: i64 = height as i64;
    let row: i64 = tested_row_i as i64;
    let col: i64 = tested_col_i as i64;
    let row_part_len: i64 = (w - 1) / (divisor as i64);
    let col_part_len: i64 = (h - 1) / (divisor as i64);

    if row > col_part_len && row < h - col_part_len {
        return false;
    }
    let distance: i64 = if row < h / 2 {
        row
    } else {
        h - (row + 1)
    };
    col < row_part_len - distance || col >= w - row_part_len + distance
}

/// Whether the position `(tested_row_i, tested_col_i)` of a zone lies outside
/// the zone's octagon.
pub fn is_out_zone(width: u32, height: u32, tested_row_i: u32, tested_col_i: u32) -> (out: bool)
    requires
        tested_row_i < height,
        tested_col_i < width,
    ensures
        out == out_of_zone(
            width as int,
            height as int,
            tested_row_i as int,
            tested_col_i as int,
        ),
{
    is_out_shape(width, height, tested_row_i, tested_col_i, SHAPE_DIVISOR)
}

/// The border band of the position `(tested_row_i, tested_col_i)` of a zone,
/// for bands at most `maximum_spacing` deep.
pub fn is_in_border(
    width: u32,
    height: u32,
    tested_row_i: u32,
    tested_col_i: u32,
    maximum_spacing: u32,
) -> (border: Option<Border>)
    requires
        tested_row_i < height,
        tested_col_i < width,
    ensures
        border == border_at(
            width as int,
            height as int,
            tested_row_i as int,
            tested_col_i as int,
            maximum_spacing as int,
        ),
{
    let w: i64 = width as i64;
    let h: i64 = height as i64;
    let row: i64 = tested_row_i as i64;
    let col: i64 = tested_col_i as i64;
    let spacing: i64 = maximum_spacing as i64;
    let row_part_len: i64 = (w - 1) / (SHAPE_DIVISOR as i64);
    let col_part_len: i64 = (h - 1) / (SHAPE_DIVISOR as i64);
    let inside = !is_out_zone(width, height, tested_row_i, tested_col_i);

    if col >= row_part_len && col < w - row_part_len && row < spacing {
        return Some(Border::Top(tested_row_i + 1));
    }
    if col <= row_part_len && row < col_part_len && inside {
        let depth: i64 = col - (row_part_len - row - 1);
        if depth <= spacing {
            return Some(Border::TopLeft(depth as u32));
        }
    }
    if col >= w - row_part_len && row < col_part_len && inside {
        let depth: i64 = (w - col) - (row_part_len - row);
        if depth <= spacing {
            return Some(Border::TopRight(depth as u32));
        }
    }
    if row >= col_part_len && row < h - col_part_len && col < spacing {
        return Some(Border::Left(tested_col_i + 1));
    }
    if col >= w - row_part_len && row < h - col_part_len && inside && w - col <= spacing {
        return Some(Border::Right(width - tested_col_i));
    }
    if row >= h - col_part_len && col < row_part_len && inside {
        let depth: i64 = col + 1 - (row_part_len - (h - (row + 1)));
        if depth <= spacing {
            return Some(Border::BottomLeft(depth as u32));
        }
    }
    if col >= row_part_len && col < w - row_part_len && h - row <= spacing {
        return Some(Border::Bottom(height - tested_row_i));
    }
    if row >= h - col_part_len && col >= w - row_part_len && inside {
        let depth: i64 = (w - row_part_len + h - (row + 1)) - col;
        if depth <= spacing {
            return Some(Border::BottomRight(depth as u32));
        }
    }
    None
}

/// A border band is never deeper than the spacing asked for, and its depth
/// counts from 1: beyond the spacing a position has no band.
pub proof fn border_depth_within_spacing(width: int, height: int, row: int, col: int, spacing: int)
    requires
        0 <= row < height <= u32::MAX,
        0 <= col < width <= u32::MAX,
        0 <= spacing <= u32::MAX,
    ensures
        border_at(width, height, row, col, spacing) matches Some(border) ==> 1 <= border.depth()
            <= spacing,
{
}

/// A position in a middle row or a middle column that is more than `spacing`
/// tiles away from all four sides of the zone has no border band.
pub proof fn no_border_beyond_spacing(width: int, height: int, row: int, col: int, spacing: int)
    requires
        0 <= row < height,
        0 <= col < width,
        0 <= spacing,
        spacing <= row,
        spacing < height - row,
        spacing <= col,
        spacing < width - col,
        part_len(height, SHAPE_DIVISOR as int) <= row < height - part_len(
            height,
            SHAPE_DIVISOR as int,
        ) || part_len(width, SHAPE_DIVISOR as int) <= col < width - part_len(
            width,
            SHAPE_DIVISOR as int,
        ),
    ensures
        border_at(width, height, row, col, spacing) is None,
{
}

/// A band that exists for some spacing exists for every larger one.
pub proof fn border_grows_with_spacing(
    width: int,
    height: int,
    row: int,
    col: int,
    spacing: int,
    larger: int,
)
    requires
        0 <= row < height,
        0 <= col < width,
        0 <= spacing <= larger,
        border_at(width, height, row, col, spacing) is Some,
    ensures
        border_at(width, height, row, col, larger) is Some,
{
}

/// The octagon of a 13 by 13 zone clipped by 4: the four corner triangles of
/// side 3 are outside, everything else is inside.
pub proof fn thirteen_by_four_octagon(row: int, col: int)
    requires
        0 <= row < 13,
        0 <= col < 13,
    ensures
        out_of_shape(13, 13, row, col, 4) <==> (row + col < 3 || col - row >= 10 || row - col
            >= 10 || row + col >= 22),
{
}

/// The octagon is symmetric from left to right: a position is outside it
/// exactly when its mirror image is. That of a square zone is symmetric from
/// top to bottom too.
pub proof fn octagon_is_symmetric(width: int, height: int, row: int, col: int, divisor: int)
    requires
        0 <= row < height,
        0 <= col < width,
        divisor > 0,
    ensures
        out_of_shape(width, height, row, col, divisor) == out_of_shape(
            width,
            height,
            row,
            width - 1 - col,
            divisor,
        ),
        width == height ==> out_of_shape(width, height, row, col, divisor) == out_of_shape(
            width,
            height,
            height - 1 - row,
            col,
            divisor,
        ),
{
}

/// The middle rows of a zone are never clipped, whatever the divisor.
pub proof fn middle_rows_are_inside(width: int, height: int, row: int, col: int, divisor: int)
    requires
        part_len(height, divisor) < row < height - part_len(height, divisor),
    ensures
        !out_of_shape(width, height, row, col, divisor),
{
}

} // verus!
