use barterm::geometry::{
    outer_size_or_fallback, position_below_tray, TrayRect, WindowGeometry, WindowPosition,
    DEFAULT_HEIGHT, DEFAULT_WIDTH, TRAY_GAP,
};

fn place(x: i32, y: i32, w: u32, h: u32, ww: u32, wh: u32) -> WindowPosition {
    position_below_tray(
        TrayRect { x, y, width: w, height: h },
        WindowGeometry { width: ww, height: wh },
    )
}

#[test]
fn position_is_centered_below_the_tray_icon() {
    assert_eq!(place(1000, 0, 24, 24, 600, 400), WindowPosition { x: 712, y: 29 });
    assert_eq!(place(100, 10, 32, 32, 600, 400), WindowPosition { x: -184, y: 47 });
    assert_eq!(place(0, 0, 0, 0, 0, 0), WindowPosition { x: 0, y: 5 });
}

#[test]
fn position_follows_the_formula_on_a_grid_of_values() {
    let xs: [i32; 5] = [0, 1, 37, 1920, 100_000];
    let ys: [i32; 4] = [0, 3, 24, 2160];
    let ws: [u32; 5] = [0, 1, 22, 23, 64];
    let hs: [u32; 4] = [0, 1, 22, 48];
    let wws: [u32; 5] = [0, 1, 599, 600, 3841];
    for &x in xs.iter() {
        for &y in ys.iter() {
            for &w in ws.iter() {
                for &h in hs.iter() {
                    for &ww in wws.iter() {
                        let got = place(x, y, w, h, ww, 400);
                        let want_x = x as i64 + (w / 2) as i64 - (ww / 2) as i64;
                        let want_y = y as i64 + h as i64 + 5;
                        assert_eq!(got.x as i64, want_x);
                        assert_eq!(got.y as i64, want_y);
                    }
                }
            }
        }
    }
}

#[test]
fn position_halves_odd_widths_downwards() {
    // 1000 + 20/2 - 601/2 = 1000 + 10 - 300
    assert_eq!(place(1000, 0, 20, 20, 601, 400).x, 710);
    // 1000 + 21/2 - 600/2 = 1000 + 10 - 300
    assert_eq!(place(1000, 0, 21, 20, 600, 400).x, 710);
}

#[test]
fn position_does_not_depend_on_the_window_height() {
    assert_eq!(place(500, 7, 20, 20, 600, 1), place(500, 7, 20, 20, 600, 4000));
}

#[test]
fn position_with_negative_origin() {
    assert_eq!(place(-1920, -30, 24, 24, 600, 400), WindowPosition { x: -2208, y: -1 });
}

#[test]
fn position_stops_at_the_ends_of_the_coordinate_range() {
    assert_eq!(
        place(i32::MAX, i32::MAX, u32::MAX, u32::MAX, 0, 0),
        WindowPosition { x: i32::MAX, y: i32::MAX }
    );
    assert_eq!(place(i32::MIN, 0, 0, 0, u32::MAX, 0).x, i32::MIN);
    assert_eq!(place(0, i32::MAX - 5, 0, 0, 0, 0).y, i32::MAX);
    assert_eq!(place(0, i32::MAX - 6, 0, 0, 0, 0).y, i32::MAX - 1);
}

#[test]
fn tray_gap_is_five_pixels() {
    assert_eq!(TRAY_GAP, 5);
    assert_eq!(place(0, 100, 10, 20, 10, 10).y, 125);
}

#[test]
fn fallback_size_is_600_by_400() {
    assert_eq!(DEFAULT_WIDTH, 600);
    assert_eq!(DEFAULT_HEIGHT, 400);
    assert_eq!(WindowGeometry::fallback(), WindowGeometry { width: 600, height: 400 });
    assert_eq!(outer_size_or_fallback(None), WindowGeometry { width: 600, height: 400 });
    let known = WindowGeometry { width: 800, height: 500 };
    assert_eq!(outer_size_or_fallback(Some(known)), known);
}

#[test]
fn geometry_refuses_an_empty_side() {
    assert_eq!(WindowGeometry::new(0, 400), None);
    assert_eq!(WindowGeometry::new(600, 0), None);
    assert_eq!(WindowGeometry::new(0, 0), None);
    assert_eq!(WindowGeometry::new(1, 1), Some(WindowGeometry { width: 1, height: 1 }));
    assert!(WindowGeometry { width: 1, height: 1 }.valid());
    assert!(!WindowGeometry { width: 0, height: 1 }.valid());
    assert!(!WindowGeometry { width: 1, height: 0 }.valid());
    assert!(WindowGeometry::fallback().valid());
}
