use uuid::Uuid;
use wm::auto_tiling::{auto_tiling_direction, auto_tiling_window_id};
use wm::event::{ContainerDto, DisplayState, WindowDto, WmEvent};
use wm::values::{ContainerId, LengthValue, Rect, RectDelta, TilingDirection, WindowState};

fn window_dto(id: ContainerId) -> WindowDto {
    WindowDto {
        id,
        parent_id: None,
        has_focus: true,
        tiling_size_bits: Some(1.0f32.to_bits()),
        width: 800,
        height: 600,
        x: 0,
        y: 0,
        state: WindowState::Tiling,
        prev_state: None,
        display_state: DisplayState::Shown,
        border_delta: RectDelta {
            left: LengthValue::zero_px(),
            top: LengthValue::zero_px(),
            right: LengthValue::zero_px(),
            bottom: LengthValue::zero_px(),
        },
        floating_placement: Rect { x: 0, y: 0, width: 800, height: 600 },
        handle: 0,
        title: String::new(),
        process_name: String::new(),
        is_dragged: false,
        transparency_pin: None,
    }
}

#[test]
fn extracts_window_id_from_supported_events() {
    let window_id = ContainerId { value: Uuid::new_v4().as_u128() };
    let event = WmEvent::FocusChanged {
        focused_container: ContainerDto::Window(window_dto(window_id)),
    };

    assert_eq!(auto_tiling_window_id(&event), Some(window_id));
}

#[test]
fn chooses_vertical_for_taller_windows() {
    assert_eq!(auto_tiling_direction(600, 900), Some(TilingDirection::Vertical));
}

#[test]
fn chooses_horizontal_for_wider_windows() {
    assert_eq!(auto_tiling_direction(1200, 700), Some(TilingDirection::Horizontal));
}

#[test]
fn skips_square_windows() {
    assert_eq!(auto_tiling_direction(800, 800), None);
}

#[test]
fn extracts_window_id_when_the_focused_window_moves() {
    let window_id = ContainerId { value: 7 };
    let event = WmEvent::FocusedContainerMoved {
        focused_container: ContainerDto::Window(window_dto(window_id)),
    };

    assert_eq!(auto_tiling_window_id(&event), Some(window_id));
}

#[test]
fn finds_no_window_in_other_events() {
    assert_eq!(auto_tiling_window_id(&WmEvent::ApplicationExiting), None);
    assert_eq!(auto_tiling_window_id(&WmEvent::Other), None);
    assert_eq!(
        auto_tiling_window_id(&WmEvent::FocusChanged { focused_container: ContainerDto::Other }),
        None
    );
}

#[test]
fn tiling_direction_turns_with_the_window() {
    assert_eq!(auto_tiling_direction(i32::MIN, i32::MAX), Some(TilingDirection::Vertical));
    assert_eq!(auto_tiling_direction(i32::MAX, i32::MIN), Some(TilingDirection::Horizontal));
    assert_eq!(auto_tiling_direction(0, 1), Some(TilingDirection::Vertical));
    assert_eq!(auto_tiling_direction(1, 0), Some(TilingDirection::Horizontal));
}
