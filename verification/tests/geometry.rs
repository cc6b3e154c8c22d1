use stickie::command::{Command, ResizeDirection};
use stickie::geometry::WindowGeometry;

#[test]
fn starts_at_the_default_size_and_scale() {
    let g = WindowGeometry::new();
    assert_eq!((g.width, g.height, g.scale), (260, 260, 115));
}

#[test]
fn shrinking_height_stabilizes_at_the_floor() {
    let mut g = WindowGeometry::new();
    for _ in 0..11 {
        g.apply_command(Command::Resize(ResizeDirection::Up, false));
        assert!(g.height >= 150);
    }
    assert_eq!(g.height, 150);
    g.apply_command(Command::Resize(ResizeDirection::Up, false));
    assert_eq!(g.height, 150);
    assert_eq!(g.width, 260);
}

#[test]
fn zoom_out_stabilizes_at_the_minimum_scale() {
    let mut g = WindowGeometry::new();
    for _ in 0..7 {
        g.apply_command(Command::ZoomOut);
        assert!(g.scale >= 50);
    }
    assert_eq!(g.scale, 50);
    g.apply_command(Command::ZoomOut);
    assert_eq!(g.scale, 50);
}

#[test]
fn zoom_in_and_reset() {
    let mut g = WindowGeometry::new();
    g.apply_command(Command::ZoomIn);
    assert_eq!(g.scale, 125);
    g.apply_command(Command::ZoomIn);
    assert_eq!(g.scale, 135);
    g.apply_command(Command::ZoomReset);
    assert_eq!(g.scale, 115);
}

#[test]
fn arrows_step_by_ten_or_thirty() {
    let mut g = WindowGeometry::new();
    g.apply_command(Command::Resize(ResizeDirection::Down, false));
    assert_eq!(g.height, 270);
    g.apply_command(Command::Resize(ResizeDirection::Down, true));
    assert_eq!(g.height, 300);
    g.apply_command(Command::Resize(ResizeDirection::Right, false));
    assert_eq!(g.width, 270);
    g.apply_command(Command::Resize(ResizeDirection::Left, true));
    assert_eq!(g.width, 240);
    g.apply_command(Command::Resize(ResizeDirection::Up, true));
    assert_eq!(g.height, 270);
}

#[test]
fn both_axes_always_use_the_wide_step() {
    let mut g = WindowGeometry::new();
    g.apply_command(Command::Resize(ResizeDirection::Both, false));
    assert_eq!((g.width, g.height), (290, 290));
    g.apply_command(Command::Resize(ResizeDirection::Both, true));
    assert_eq!((g.width, g.height), (260, 260));
}

#[test]
fn shrinking_width_clamps_at_the_floor() {
    let mut g = WindowGeometry::new();
    for _ in 0..5 {
        g.apply_command(Command::Resize(ResizeDirection::Left, true));
    }
    assert_eq!(g.width, 150);
}

#[test]
fn reset_size_restores_the_default() {
    let mut g = WindowGeometry::new();
    g.apply_command(Command::Resize(ResizeDirection::Both, false));
    g.apply_command(Command::Resize(ResizeDirection::Down, true));
    g.apply_command(Command::ResetSize);
    assert_eq!((g.width, g.height), (260, 260));
}

#[test]
fn other_commands_leave_geometry_alone() {
    let mut g = WindowGeometry::new();
    g.apply_command(Command::NewWindow);
    g.apply_command(Command::CloseWindow);
    g.apply_command(Command::Duplicate);
    g.apply_command(Command::StartDrag);
    g.apply_command(Command::CopyAll);
    g.apply_command(Command::HideOthers);
    g.apply_command(Command::FocusEditor);
    assert_eq!((g.width, g.height, g.scale), (260, 260, 115));
}
