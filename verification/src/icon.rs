//! The 32×32 RGBA image used as the window and tray icon: a blue square with
//! a light three-by-three grid, on a transparent background.
use vstd::prelude::*;

verus! {

/// Side length of the icon in pixels.
pub const ICON_SIZE: u32 = 32;

/// Whether pixel `(x, y)` lies in the blue square.
pub open spec fn in_square(x: int, y: int) -> bool {
    3 <= x < 29 && 3 <= y < 29
}

/// Whether pixel `(x, y)` lies on one of the grid lines drawn over the square.
pub open spec fn on_grid_line(x: int, y: int) -> bool {
    in_square(x, y) && (x == 12 || x == 20 || y == 12 || y == 20)
}

/// Channel `c` (red, green, blue, alpha) of pixel `(x, y)`.
pub open spec fn icon_channel(x: int, y: int, c: int) -> u8 {
    let color = if on_grid_line(x, y) {
        seq![245u8, 248u8, 255u8, 255u8]
    } else if in_square(x, y) {
        seq![65u8, 105u8, 225u8, 255u8]
    } else {
        seq![0u8, 0u8, 0u8, 0u8]
    };
    color[c]
}

/// Where channel `c` of pixel `(x, y)` stands in the row-major RGBA buffer.
pub open spec fn channel_index(x: int, y: int, c: int) -> int {
    (y * 32 + x) * 4 + c
}

/// The colour of pixel `(x, y)`.
fn pixel_color(x: u32, y: u32) -> (color: [u8; 4])
    ensures
        forall|c: int| 0 <= c < 4 ==> color@[c] == icon_channel(x as int, y as int, c),
{
    let inside = 3 <= x && x < 29 && 3 <= y && y < 29;
    let grid_line = inside && (x == 12 || x == 20 || y == 12 || y == 20);
    if grid_line {
        [245, 248, 255, 255]
    } else if inside {
        [65, 105, 225, 255]
    } else {
        [0, 0, 0, 0]
    }
}

/// The icon as row-major RGBA bytes, with its width and height.
pub fn make_icon_rgba() -> (r: (Vec<u8>, u32, u32))
    ensures
        r.1 == ICON_SIZE,
        r.2 == ICON_SIZE,
        r.0@.len() == 32 * 32 * 4,
        forall|x: int, y: int, c: int|
            0 <= x < 32 && 0 <= y < 32 && 0 <= c < 4 ==> r.0@[channel_index(x, y, c)]
                == #[trigger] icon_channel(x, y, c),
{
    let mut rgba: Vec<u8> = Vec::new();
    let mut y: u32 = 0;
    while y < ICON_SIZE
        invariant
            y <= 32,
            rgba@.len() == y * 128,
            forall|xx: int, yy: int, c: int|
                0 <= xx < 32 && 0 <= yy < y && 0 <= c < 4 ==> rgba@[channel_index(xx, yy, c)]
                    == #[trigger] icon_channel(xx, yy, c),
        decreases 32 - y,
    {
        let mut x: u32 = 0;
        while x < ICON_SIZE
            invariant
                y < 32,
                x <= 32,
                rgba@.len() == y * 128 + x * 4,
                forall|xx: int, yy: int, c: int|
                    0 <= xx < 32 && 0 <= yy < y && 0 <= c < 4 ==> rgba@[channel_index(xx, yy, c)]
                        == #[trigger] icon_channel(xx, yy, c),
                forall|xx: int, c: int|
                    0 <= xx < x && 0 <= c < 4 ==> rgba@[channel_index(xx, y as int, c)]
                        == #[trigger] icon_channel(xx, y as int, c),
            decreases 32 - x,
        {
            let color = pixel_color(x, y);
            let ghost before = rgba@;
            rgba.push(color[0]);
            rgba.push(color[1]);
            rgba.push(color[2]);
            rgba.push(color[3]);
            proof {
                assert(rgba@ =~= before + seq![color@[0], color@[1], color@[2], color@[3]]);
                assert forall|xx: int, yy: int, c: int|
                    0 <= xx < 32 && 0 <= yy < y && 0 <= c < 4 implies rgba@[channel_index(
                        xx,
                        yy,
                        c,
                    )] == #[trigger] icon_channel(xx, yy, c) by {
                    assert(channel_index(xx, yy, c) < before.len());
                }
                assert forall|xx: int, c: int|
                    0 <= xx < x + 1 && 0 <= c < 4 implies rgba@[channel_index(xx, y as int, c)]
                        == #[trigger] icon_channel(xx, y as int, c) by {
                    if xx < x {
                        assert(channel_index(xx, y as int, c) < before.len());
                    } else {
                        assert(channel_index(xx, y as int, c) == before.len() + c);
                    }
                }
            }
            x = x + 1;
        }
        y = y + 1;
    }
    (rgba, ICON_SIZE, ICON_SIZE)
}

/// The icon's colours: a pixel is transparent black outside the square of
/// columns and rows 3 to 28; inside it, a pixel in column 12 or 20 or in row
/// 12 or 20 has the light grid colour (245, 248, 255), and every other one is
/// blue (65, 105, 225); both are opaque.
pub proof fn lemma_icon_colors(x: int, y: int)
    requires
        0 <= x < 32,
        0 <= y < 32,
    ensures
        !(3 <= x < 29 && 3 <= y < 29) ==> icon_channel(x, y, 0) == 0 && icon_channel(x, y, 1) == 0
            && icon_channel(x, y, 2) == 0 && icon_channel(x, y, 3) == 0,
        3 <= x < 29 && 3 <= y < 29 && (x == 12 || x == 20 || y == 12 || y == 20) ==> icon_channel(
            x,
            y,
            0,
        ) == 245 && icon_channel(x, y, 1) == 248 && icon_channel(x, y, 2) == 255 && icon_channel(
            x,
            y,
            3,
        ) == 255,
        3 <= x < 29 && 3 <= y < 29 && !(x == 12 || x == 20 || y == 12 || y == 20) ==> icon_channel(
            x,
            y,
            0,
        ) == 65 && icon_channel(x, y, 1) == 105 && icon_channel(x, y, 2) == 225 && icon_channel(
            x,
            y,
            3,
        ) == 255,
{
}

} // verus!
