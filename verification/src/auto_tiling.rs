//! The tiling direction that follows from the shape of the focused window.
use vstd::prelude::*;

use crate::event::{ContainerDto, WmEvent};
use crate::values::{ContainerId, TilingDirection};

verus! {

/// The container that the event says to have come into focus, or to have moved
/// while it had focus.
pub open spec fn focus_reported(event: WmEvent) -> Option<ContainerDto> {
    match event {
        WmEvent::FocusChanged { focused_container } => Some(focused_container),
        WmEvent::FocusedContainerMoved { focused_container } => Some(focused_container),
        _ => None,
    }
}

/// The window whose shape counts after the event.
pub open spec fn window_to_follow(event: WmEvent) -> Option<ContainerId> {
    match focus_reported(event) {
        Some(ContainerDto::Window(window)) => Some(window.id),
        _ => None,
    }
}

/// The ID of the window whose shape counts after the event: of the window that
/// has focus now, or has moved with it.
pub fn auto_tiling_window_id(event: &WmEvent) -> (id: Option<ContainerId>)
    ensures
        id == window_to_follow(*event),
        match *event {
            WmEvent::FocusChanged { focused_container: ContainerDto::Window(window) } => id == Some(
                window.id,
            ),
            WmEvent::FocusedContainerMoved { focused_container: ContainerDto::Window(window) } => id
                == Some(window.id),
            _ => id is None,
        },
{
    let container = match event {
        WmEvent::FocusChanged { focused_container } => focused_container,
        WmEvent::FocusedContainerMoved { focused_container } => focused_container,
        _ => {
            return None;
        },
    };
    match container {
        ContainerDto::Window(window) => Some(window.id),
        _ => None,
    }
}

/// The direction along the longer side. A square has none.
pub open spec fn along_longer_side(width: int, height: int) -> Option<TilingDirection> {
    if width < height {
        Some(TilingDirection::Vertical)
    } else if width > height {
        Some(TilingDirection::Horizontal)
    } else {
        None
    }
}

/// The tiling direction for a window of that size.
pub fn auto_tiling_direction(width: i32, height: i32) -> (direction: Option<TilingDirection>)
    ensures
        direction == along_longer_side(width as int, height as int),
        width < height ==> direction == Some(TilingDirection::Vertical),
        width > height ==> direction == Some(TilingDirection::Horizontal),
        width == height ==> direction is None,
{
    if width < height {
        Some(TilingDirection::Vertical)
    } else if width > height {
        Some(TilingDirection::Horizontal)
    } else {
        None
    }
}

} // verus!
