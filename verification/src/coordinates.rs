//! Where the window is and how large it is.

use crate::geometry::{Point, Rect, Size};
use crate::single::Single;
use vstd::prelude::*;

verus! {

/// What the windowing system reports, in device pixels.
#[derive(Clone, Copy, Debug, PartialEq, Eq)]
pub struct Measurements {
    /// The size of the area that pages are drawn to.
    pub inner: Size,
    /// The size of the window with its borders.
    pub outer: Size,
    /// The place of the window on the screen, where it is known.
    pub position: Option<Point>,
    /// The size of the screen.
    pub screen: Size,
    /// The device pixels to a device independent pixel.
    pub hidpi_factor: Single,
}

/// Where the window is and how large it is, in device pixels.
#[derive(Clone, Copy, Debug, PartialEq, Eq)]
pub struct EmbedderCoordinates {
    pub hidpi_factor: Single,
    pub screen: Size,
    /// The part of the screen that windows may use.
    pub screen_avail: Size,
    /// The window with its borders.
    pub window: (Size, Point),
    pub framebuffer: Size,
    /// The part of the framebuffer that pages are drawn to.
    pub viewport: Rect,
}

/// The coordinates of a native window. There is no way to ask for the part of the screen that
/// windows may use, so it is taken to be all of it.
pub open spec fn native_coordinates(measured: Measurements) -> EmbedderCoordinates {
    EmbedderCoordinates {
        hidpi_factor: measured.hidpi_factor,
        screen: measured.screen,
        screen_avail: measured.screen,
        window: (
            measured.outer,
            match measured.position {
                Some(position) => position,
                None => Point::zero(),
            },
        ),
        framebuffer: measured.inner,
        viewport: Rect { x: 0, y: 0, size: measured.inner },
    }
}

/// The coordinates of a headless window: the window and the screen are the buffer.
pub open spec fn headless_coordinates(measured: Measurements) -> EmbedderCoordinates {
    EmbedderCoordinates {
        hidpi_factor: measured.hidpi_factor,
        screen: measured.inner,
        screen_avail: measured.inner,
        window: (measured.inner, Point::zero()),
        framebuffer: measured.inner,
        viewport: Rect { x: 0, y: 0, size: measured.inner },
    }
}

/// The coordinates of a window, headless or native.
pub fn coordinates(is_headless: bool, measured: Measurements) -> (coordinates: EmbedderCoordinates)
    ensures
        coordinates == if is_headless {
            headless_coordinates(measured)
        } else {
            native_coordinates(measured)
        },
{
    let inner = measured.inner;
    let viewport = Rect { x: 0, y: 0, size: inner };
    if is_headless {
        EmbedderCoordinates {
            hidpi_factor: measured.hidpi_factor,
            screen: inner,
            screen_avail: inner,
            window: (inner, Point::zero()),
            framebuffer: inner,
            viewport,
        }
    } else {
        let position = match measured.position {
            Some(position) => position,
            None => Point::zero(),
        };
        EmbedderCoordinates {
            hidpi_factor: measured.hidpi_factor,
            screen: measured.screen,
            screen_avail: measured.screen,
            window: (measured.outer, position),
            framebuffer: inner,
            viewport,
        }
    }
}

} // verus!
