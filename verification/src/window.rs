//! The size of the settings window for a given screen.

use vstd::prelude::*;

verus! {

/// The size of a window and the least size it may be given, in pixels.
#[derive(Debug, Clone, Copy, PartialEq, Eq, Structural)]
pub struct WindowSize {
    pub width: u32,
    pub height: u32,
    pub min_width: u32,
    pub min_height: u32,
}

/// The size of the settings window on a screen of the given size, or where
/// the screen is not known.
///
/// A screen at least 1920 wide gets 1000 by 900 where it is at least 1440
/// high, else 900 by 800. A screen at least 1366 wide gets 800 by 750. A
/// screen less wide gets 750 by 700. An unknown screen gets 900 by 800. The
/// least size is 500 by 600 throughout.
pub open spec fn window_size_for(screen: Option<(u32, u32)>) -> WindowSize {
    match screen {
        Some((width, height)) => if width >= 1920 {
            if height >= 1440 {
                WindowSize { width: 1000, height: 900, min_width: 500, min_height: 600 }
            } else {
                WindowSize { width: 900, height: 800, min_width: 500, min_height: 600 }
            }
        } else if width >= 1366 {
            WindowSize { width: 800, height: 750, min_width: 500, min_height: 600 }
        } else {
            WindowSize { width: 750, height: 700, min_width: 500, min_height: 600 }
        },
        None => WindowSize { width: 900, height: 800, min_width: 500, min_height: 600 },
    }
}

/// The size of the settings window, given the width and the height of the
/// primary screen where it is known.
pub fn settings_window_size(screen: Option<(u32, u32)>) -> (r: WindowSize)
    ensures
        r == window_size_for(screen),
        r.min_width <= r.width,
        r.min_height <= r.height,
{
    let (width, height): (u32, u32) = match screen {
        Some((screen_width, screen_height)) => {
            if screen_width >= 1920 {
                if screen_height >= 1440 {
                    (1000, 900)
                } else {
                    (900, 800)
                }
            } else if screen_width >= 1366 {
                (800, 750)
            } else {
                (750, 700)
            }
        },
        None => (900, 800),
    };
    WindowSize { width, height, min_width: 500, min_height: 600 }
}

} // verus!
