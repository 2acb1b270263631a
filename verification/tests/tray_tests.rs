use muka_taskswitch::tray::{on_menu_choice, on_tray_click, tray_icon_rgba, MenuChoice, TrayClick, TraySignal, ICON_SIZE};

#[test]
fn menu_choices() {
    assert_eq!(on_menu_choice(MenuChoice::Show), (Some(TraySignal::Show), false));
    assert_eq!(on_menu_choice(MenuChoice::Quit), (Some(TraySignal::Exit), true));
    assert_eq!(on_menu_choice(MenuChoice::Other), (None, false));
}

#[test]
fn left_and_double_clicks_show() {
    assert_eq!(on_tray_click(TrayClick::LeftClick), Some(TraySignal::Show));
    assert_eq!(on_tray_click(TrayClick::DoubleClick), Some(TraySignal::Show));
    assert_eq!(on_tray_click(TrayClick::OtherClick), None);
    assert_eq!(on_tray_click(TrayClick::Other), None);
}

fn pixel(rgba: &[u8], x: usize, y: usize) -> [u8; 4] {
    let i = (y * ICON_SIZE + x) * 4;
    [rgba[i], rgba[i + 1], rgba[i + 2], rgba[i + 3]]
}

#[test]
fn icon_pixels() {
    let rgba = tray_icon_rgba();
    assert_eq!(rgba.len(), ICON_SIZE * ICON_SIZE * 4);
    assert_eq!(pixel(&rgba, 0, 0), [0, 0, 0, 0]);
    assert_eq!(pixel(&rgba, 15, 0), [0, 0, 0, 0]);
    assert_eq!(pixel(&rgba, 15, 1), [255, 140, 0, 255]);
    assert_eq!(pixel(&rgba, 4, 4), [0, 0, 0, 0]);
    assert_eq!(pixel(&rgba, 5, 5), [255, 140, 0, 255]);
    assert_eq!(pixel(&rgba, 8, 8), [255, 255, 255, 255]);
    assert_eq!(pixel(&rgba, 12, 12), [255, 255, 255, 255]);
    assert_eq!(pixel(&rgba, 12, 19), [255, 255, 255, 255]);
    assert_eq!(pixel(&rgba, 12, 13), [255, 140, 0, 255]);
    assert_eq!(pixel(&rgba, 23, 20), [255, 255, 255, 255]);
    assert_eq!(pixel(&rgba, 24, 20), [255, 140, 0, 255]);
}

#[test]
fn icon_matches_float_geometry() {
    let rgba = tray_icon_rgba();
    let size = 32usize;
    let cx = (size - 1) as f32 / 2.0;
    let cy = (size - 1) as f32 / 2.0;
    let radius = size as f32 / 2.0 - 1.0;
    for y in 0..size {
        for x in 0..size {
            let dx = x as f32 - cx;
            let dy = y as f32 - cy;
            let expected = if dx * dx + dy * dy <= radius * radius {
                let in_letter = (8..=23).contains(&x)
                    && (8..=23).contains(&y)
                    && (x == 8 || x == 23 || x == y || x + y == size - 1);
                if in_letter { [255u8, 255, 255, 255] } else { [255u8, 140, 0, 255] }
            } else {
                [0u8, 0, 0, 0]
            };
            assert_eq!(pixel(&rgba, x, y), expected, "pixel ({}, {})", x, y);
        }
    }
}

#[test]
fn icon_is_mirror_symmetric() {
    let rgba = tray_icon_rgba();
    for y in 0..ICON_SIZE {
        for x in 0..ICON_SIZE {
            assert_eq!(pixel(&rgba, x, y), pixel(&rgba, ICON_SIZE - 1 - x, y));
        }
    }
}
