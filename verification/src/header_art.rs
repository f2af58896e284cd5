//! Color layout of the bee-themed header art: pure position-to-color rules.
//! The renderer outside the library pairs these RGB triples with the art's
//! glyphs; nothing here touches a terminal.

use vstd::prelude::*;

verus! {

/// Number of rows in the header art.
pub const HEADER_ROWS: usize = 24;

/// Characters per row (including leading/trailing space).
pub const HEADER_COLS: usize = 48;

/// Number of entries in the flat color table: enough for the art plus the
/// trailing padding rows some renderers ask for.
pub const HEADER_COLOR_COUNT: usize = 1256;

/// Color of the bee design at a given cell, as an RGB triple.
///
/// Rows 0-2 are background; rows 3-16 hold the body (gold/dark/amber
/// stripes in a five-row pattern, white eye regions on rows 9-11); row 17 is
/// a gap; rows 18-22 hold the wings (cyan, blue at the outer edges) and the
/// dark legs between them; everything else is background.
pub open spec fn spec_bee_color(row: usize, col: usize) -> (u8, u8, u8) {
    if row < 3 {
        (20, 18, 15)
    } else if row <= 16 {
        if 10 <= col && col <= 36 {
            if 9 <= row && row <= 11 && (16 <= col && col <= 20 || 26 <= col && col <= 30) {
                (255, 255, 255)
            } else {
                let phase: usize = ((row - 3) % 5) as usize;
                if phase == 0 || phase == 1 {
                    (255, 200, 50)
                } else if phase == 2 {
                    (40, 35, 30)
                } else {
                    (255, 180, 30)
                }
            }
        } else {
            (20, 18, 15)
        }
    } else if row == 17 {
        (20, 18, 15)
    } else if row <= 22 {
        if 7 <= col && col <= 17 {
            if col < 10 {
                (100, 180, 230)
            } else {
                (150, 220, 255)
            }
        } else if 29 <= col && col <= 39 {
            if col > 36 {
                (100, 180, 230)
            } else {
                (150, 220, 255)
            }
        } else if 18 <= col && col <= 28 {
            (40, 35, 30)
        } else {
            (20, 18, 15)
        }
    } else {
        (20, 18, 15)
    }
}

/// Color of the flat-table variant of the design: the same body and eyes,
/// but uniformly cyan wings without the blue edges.
pub open spec fn spec_bee_color_flat(row: usize, col: usize) -> (u8, u8, u8) {
    if row < 3 || row > 22 {
        (20, 18, 15)
    } else if row <= 16 && 10 <= col && col <= 36 {
        if 9 <= row && row <= 11 && (16 <= col && col <= 20 || 26 <= col && col <= 30) {
            (255, 255, 255)
        } else {
            let phase: usize = ((row - 3) % 5) as usize;
            if phase == 0 || phase == 1 {
                (255, 200, 50)
            } else if phase == 2 {
                (40, 35, 30)
            } else {
                (255, 180, 30)
            }
        }
    } else if 18 <= row && row <= 22 {
        if 7 <= col && col <= 17 || 29 <= col && col <= 39 {
            (150, 220, 255)
        } else if 18 <= col && col <= 28 {
            (40, 35, 30)
        } else {
            (20, 18, 15)
        }
    } else {
        (20, 18, 15)
    }
}

/// Determine the color at a position in the bee design.
pub fn get_bee_color(row: usize, col: usize) -> (r: (u8, u8, u8))
    ensures
        r == spec_bee_color(row, col),
{
    if row < 3 {
        return (20, 18, 15);
    }
    if row <= 16 {
        if 10 <= col && col <= 36 {
            if row >= 9 && row <= 11 {
                if col >= 16 && col <= 20 {
                    return (255, 255, 255);
                }
                if col >= 26 && col <= 30 {
                    return (255, 255, 255);
                }
            }
            let phase: usize = (row - 3) % 5;
            if phase == 0 || phase == 1 {
                (255, 200, 50)
            } else if phase == 2 {
                (40, 35, 30)
            } else {
                (255, 180, 30)
            }
        } else {
            (20, 18, 15)
        }
    } else if row == 17 {
        (20, 18, 15)
    } else if row <= 22 {
        if col >= 7 && col <= 17 {
            if col < 10 {
                (100, 180, 230)
            } else {
                (150, 220, 255)
            }
        } else if col >= 29 && col <= 39 {
            if col > 36 {
                (100, 180, 230)
            } else {
                (150, 220, 255)
            }
        } else if col >= 18 && col <= 28 {
            (40, 35, 30)
        } else {
            (20, 18, 15)
        }
    } else {
        (20, 18, 15)
    }
}

/// Flat-table variant of [`get_bee_color`], used to fill the legacy color
/// table.
pub fn get_bee_color_flat(row: usize, col: usize) -> (r: (u8, u8, u8))
    ensures
        r == spec_bee_color_flat(row, col),
{
    if row < 3 || row > 22 {
        return (20, 18, 15);
    }
    if row <= 16 && col >= 10 && col <= 36 {
        if row >= 9 && row <= 11 {
            if (col >= 16 && col <= 20) || (col >= 26 && col <= 30) {
                return (255, 255, 255);
            }
        }
        let phase: usize = (row - 3) % 5;
        if phase == 0 || phase == 1 {
            (255, 200, 50)
        } else if phase == 2 {
            (40, 35, 30)
        } else {
            (255, 180, 30)
        }
    } else if row >= 18 && row <= 22 {
        if (col >= 7 && col <= 17) || (col >= 29 && col <= 39) {
            (150, 220, 255)
        } else if col >= 18 && col <= 28 {
            (40, 35, 30)
        } else {
            (20, 18, 15)
        }
    } else {
        (20, 18, 15)
    }
}

/// Build the flat color table: one entry per art cell, row-major over
/// [`HEADER_COLS`]-wide rows.
pub fn generate_colors() -> (r: Vec<(u8, u8, u8)>)
    ensures
        r@.len() == HEADER_COLOR_COUNT,
        forall|i: int|
            0 <= i < r@.len() ==> r@[i] == spec_bee_color_flat(
                ((i / 48) as usize),
                ((i % 48) as usize),
            ),
{
    let mut r: Vec<(u8, u8, u8)> = Vec::new();
    let mut i: usize = 0;
    while i < HEADER_COLOR_COUNT
        invariant
            i <= HEADER_COLOR_COUNT,
            r@.len() == i,
            forall|j: int|
                0 <= j < i ==> r@[j] == spec_bee_color_flat(
                    ((j / 48) as usize),
                    ((j % 48) as usize),
                ),
        decreases HEADER_COLOR_COUNT - i,
    {
        r.push(get_bee_color_flat(i / 48, i % 48));
        i = i + 1;
    }
    r
}

} // verus!
