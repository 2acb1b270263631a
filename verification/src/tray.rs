//! The tray icon: what its menu and clicks ask for, and the picture it shows.

use vstd::prelude::*;

verus! {

/// A choice in the tray menu.
#[derive(Clone, Copy, Debug, PartialEq, Eq, Structural)]
pub enum MenuChoice {
    /// The entry that shows the switcher.
    Show,
    /// The entry that quits.
    Quit,
    /// An entry of no concern to the switcher.
    Other,
}

/// A mouse event on the tray icon.
#[derive(Clone, Copy, Debug, PartialEq, Eq, Structural)]
pub enum TrayClick {
    /// A click with the left button.
    LeftClick,
    /// A click with another button (the right one opens the menu itself).
    OtherClick,
    /// A double click.
    DoubleClick,
    /// Any other tray event (the pointer entering, moving or leaving).
    Other,
}

/// What the tray asks the switcher for.
#[derive(Clone, Copy, Debug, PartialEq, Eq, Structural)]
pub enum TraySignal {
    /// Show the switcher.
    Show,
    /// Quit the program.
    Exit,
}

/// What a menu choice asks for, and whether the tray stops listening.
pub open spec fn menu_response(choice: MenuChoice) -> (Option<TraySignal>, bool) {
    match choice {
        MenuChoice::Show => (Some(TraySignal::Show), false),
        MenuChoice::Quit => (Some(TraySignal::Exit), true),
        MenuChoice::Other => (None, false),
    }
}

/// What a menu choice asks for, and whether the tray stops listening: the
/// show entry shows the switcher, the quit entry quits and stops the tray.
pub fn on_menu_choice(choice: MenuChoice) -> (r: (Option<TraySignal>, bool))
    ensures
        r == menu_response(choice),
{
    match choice {
        MenuChoice::Show => (Some(TraySignal::Show), false),
        MenuChoice::Quit => (Some(TraySignal::Exit), true),
        MenuChoice::Other => (None, false),
    }
}

/// What a tray event asks for.
pub open spec fn click_response(click: TrayClick) -> Option<TraySignal> {
    match click {
        TrayClick::LeftClick | TrayClick::DoubleClick => Some(TraySignal::Show),
        _ => None,
    }
}

/// What a tray event asks for: a left click or a double click shows the
/// switcher; other events ask for nothing (the right button opens the menu).
pub fn on_tray_click(click: TrayClick) -> (r: Option<TraySignal>)
    ensures
        r == click_response(click),
{
    match click {
        TrayClick::LeftClick | TrayClick::DoubleClick => Some(TraySignal::Show),
        _ => None,
    }
}

/// The side of the square tray icon, in pixels.
pub const ICON_SIZE: usize = 32;

/// Whether pixel `(x, y)` lies in the icon's disc: the circle of radius 15
/// about the centre (15.5, 15.5), in doubled coordinates to stay in integers.
pub open spec fn in_disc(x: int, y: int) -> bool {
    (2 * x - 31) * (2 * x - 31) + (2 * y - 31) * (2 * y - 31) <= 900
}

/// Whether pixel `(x, y)` belongs to the letter M drawn on the disc: two
/// uprights and two diagonals within the square from 8 to 23.
pub open spec fn in_letter(x: int, y: int) -> bool {
    &&& 8 <= x <= 23
    &&& 8 <= y <= 23
    &&& (x == 8 || x == 23 || x == y || x + y == 31)
}

/// Channel `c` (red, green, blue, alpha) of pixel `(x, y)`: white on the
/// letter, dark orange elsewhere on the disc, transparent outside it.
pub open spec fn icon_channel(x: int, y: int, c: int) -> u8 {
    if !in_disc(x, y) {
        0
    } else if in_letter(x, y) {
        255
    } else if c == 0 {
        255
    } else if c == 1 {
        140
    } else if c == 2 {
        0
    } else {
        255
    }
}

/// Byte `i` of the icon's RGBA buffer, rows from the top, pixels from the
/// left, four channels each.
pub open spec fn icon_byte(i: int) -> u8 {
    icon_channel((i / 4) % 32, (i / 4) / 32, i % 4)
}

fn channel(x: usize, y: usize, c: usize) -> (b: u8)
    requires
        x < 32,
        y < 32,
        c < 4,
    ensures
        b == icon_channel(x as int, y as int, c as int),
{
    let dx: i64 = 2 * (x as i64) - 31;
    let dy: i64 = 2 * (y as i64) - 31;
    assert(-31 <= dx <= 31 && -31 <= dy <= 31);
    assert(0 <= dx * dx <= 961 && 0 <= dy * dy <= 961) by (nonlinear_arith)
        requires
            -31 <= dx <= 31,
            -31 <= dy <= 31,
    ;
    let in_disc = dx * dx + dy * dy <= 900;
    let in_letter = 8 <= x && x <= 23 && 8 <= y && y <= 23 && (x == 8 || x == 23 || x == y || x + y == 31);
    if !in_disc {
        0
    } else if in_letter {
        255
    } else if c == 0 {
        255
    } else if c == 1 {
        140
    } else if c == 2 {
        0
    } else {
        255
    }
}

/// The RGBA pixels of the 32 by 32 tray icon: an orange disc with a white M.
pub fn tray_icon_rgba() -> (rgba: Vec<u8>)
    ensures
        rgba@.len() == 32 * 32 * 4,
        forall|i: int| 0 <= i < 32 * 32 * 4 ==> #[trigger] rgba@[i] == icon_byte(i),
{
    let mut rgba: Vec<u8> = Vec::new();
    let mut y: usize = 0;
    while y < 32
        invariant
            y <= 32,
            rgba@.len() == y * 128,
            forall|i: int| 0 <= i < rgba@.len() ==> #[trigger] rgba@[i] == icon_byte(i),
        decreases 32 - y,
    {
        let mut x: usize = 0;
        while x < 32
            invariant
                y < 32,
                x <= 32,
                rgba@.len() == y * 128 + x * 4,
                forall|i: int| 0 <= i < rgba@.len() ==> #[trigger] rgba@[i] == icon_byte(i),
            decreases 32 - x,
        {
            let mut c: usize = 0;
            while c < 4
                invariant
                    y < 32,
                    x < 32,
                    c <= 4,
                    rgba@.len() == y * 128 + x * 4 + c,
                    forall|i: int| 0 <= i < rgba@.len() ==> #[trigger] rgba@[i] == icon_byte(i),
                decreases 4 - c,
            {
                let b = channel(x, y, c);
                proof {
                    let i = (y * 128 + x * 4 + c) as int;
                    let xi = x as int;
                    let yi = y as int;
                    let ci = c as int;
                    assert(i / 4 == yi * 32 + xi && i % 4 == ci) by (nonlinear_arith)
                        requires
                            i == yi * 128 + xi * 4 + ci,
                            0 <= xi < 32,
                            0 <= yi < 32,
                            0 <= ci < 4,
                    ;
                    assert((yi * 32 + xi) % 32 == xi && (yi * 32 + xi) / 32 == yi) by (nonlinear_arith)
                        requires
                            0 <= xi < 32,
                            0 <= yi < 32,
                    ;
                }
                rgba.push(b);
                c = c + 1;
            }
            x = x + 1;
        }
        y = y + 1;
    }
    rgba
}

/// The icon is its own mirror image: pixel `(x, y)` and pixel `(31 - x, y)`
/// have the same colour.
pub proof fn lemma_icon_mirror_symmetric(x: int, y: int, c: int)
    requires
        0 <= x < 32,
        0 <= y < 32,
    ensures
        icon_channel(x, y, c) == icon_channel(31 - x, y, c),
{
    assert((2 * (31 - x) - 31) * (2 * (31 - x) - 31) == (2 * x - 31) * (2 * x - 31)) by (nonlinear_arith);
}

} // verus!
