use vstd::prelude::*;

verus! {

/// Size of a monitor in physical pixels.
#[derive(Clone, Copy, Debug, PartialEq, Eq, Structural)]
pub struct ScreenGeometry {
    pub width: u32,
    pub height: u32,
}

/// Outer size of the overlay window in physical pixels.
#[derive(Clone, Copy, Debug, PartialEq, Eq, Structural)]
pub struct WindowGeometry {
    pub width: u32,
    pub height: u32,
}

/// Top-left corner of the window in physical screen coordinates.
#[derive(Clone, Copy, Debug, PartialEq, Eq, Structural)]
pub struct Position {
    pub x: i64,
    pub y: i64,
}

/// Why no position could be computed.
#[derive(Clone, Copy, Debug, PartialEq, Eq, Structural)]
pub enum PlacementError {
    NoMonitorFound,
}

/// The position that puts the window's right edge `margin_x` pixels left of the
/// screen's right edge, and its top `margin_y` pixels below the screen's top.
pub open spec fn top_right_of(screen: ScreenGeometry, window: WindowGeometry, margin_x: i32, margin_y: i32) -> Position {
    Position {
        x: (screen.width as int - window.width as int - margin_x as int) as i64,
        y: margin_y as i64,
    }
}

/// Places the window in the top-right corner of the monitor, or reports that
/// there is no monitor to place it on.
pub fn compute_top_right(
    screen: Option<ScreenGeometry>,
    window: WindowGeometry,
    margin_x: i32,
    margin_y: i32,
) -> (r: Result<Position, PlacementError>)
    ensures
        screen.is_none() ==> r == Err::<Position, PlacementError>(PlacementError::NoMonitorFound),
        screen.is_some() ==> r == Ok::<Position, PlacementError>(top_right_of(screen.unwrap(), window, margin_x, margin_y)),
        r == compute_top_right_spec(screen, window, margin_x, margin_y),
{
    match screen {
        None => Err(PlacementError::NoMonitorFound),
        Some(s) => {
            let x: i64 = s.width as i64 - window.width as i64 - margin_x as i64;
            Ok(Position { x, y: margin_y as i64 })
        },
    }
}

/// Gap between the window's right edge and the screen's right edge.
pub const MARGIN_X: i32 = 20;

/// Gap between the window's top edge and the screen's top edge.
pub const MARGIN_Y: i32 = 40;

/// Places the window in the top-right corner with this system's margins.
pub fn place_top_right(screen: Option<ScreenGeometry>, window: WindowGeometry) -> (r: Result<Position, PlacementError>)
    ensures
        r == compute_top_right_spec(screen, window, MARGIN_X, MARGIN_Y),
{
    compute_top_right(screen, window, MARGIN_X, MARGIN_Y)
}

/// The outcome of `compute_top_right`.
pub open spec fn compute_top_right_spec(
    screen: Option<ScreenGeometry>,
    window: WindowGeometry,
    margin_x: i32,
    margin_y: i32,
) -> Result<Position, PlacementError> {
    match screen {
        None => Err(PlacementError::NoMonitorFound),
        Some(s) => Ok(top_right_of(s, window, margin_x, margin_y)),
    }
}

pub open spec fn fits_i32(v: i64) -> bool {
    i32::MIN <= v <= i32::MAX
}

/// The position as the platform's 32-bit coordinates, if both fit.
pub fn physical_coords(p: Position) -> (r: Option<(i32, i32)>)
    ensures
        r.is_some() <==> fits_i32(p.x) && fits_i32(p.y),
        r matches Some((x, y)) ==> x as int == p.x as int && y as int == p.y as int,
{
    if p.x >= i32::MIN as i64 && p.x <= i32::MAX as i64 && p.y >= i32::MIN as i64 && p.y <= i32::MAX as i64 {
        Some((p.x as i32, p.y as i32))
    } else {
        None
    }
}

} // verus!
