use pixel_canvas::color::Pixel;
use pixel_canvas::error::CanvasError;
use pixel_canvas::universe::Universe;

fn pixel_at(buf: &[u8], width: u32, x: u32, y: u32) -> [u8; 4] {
    let at = ((y as usize) * (width as usize) + (x as usize)) * 4;
    [buf[at], buf[at + 1], buf[at + 2], buf[at + 3]]
}

#[test]
fn from_color_unpacks_low_byte_first() {
    assert_eq!(
        Pixel::from_color(0x00112233),
        Pixel { blue: 0x33, green: 0x22, red: 0x11, alpha: 0xff }
    );
    assert_eq!(Pixel::from_color(0), Pixel { blue: 0, green: 0, red: 0, alpha: 0xff });
    assert_eq!(
        Pixel::from_color(0xffff_ffff),
        Pixel { blue: 0xff, green: 0xff, red: 0xff, alpha: 0xff }
    );
}

#[test]
fn from_color_ignores_the_top_byte() {
    assert_eq!(Pixel::from_color(0xab11_2233), Pixel::from_color(0x0011_2233));
}

#[test]
fn fillbox_writes_blue_green_red_alpha() {
    let mut u = Universe::new(5, 4).unwrap();
    u.fillbox(0x000102);
    for y in 0..4 {
        for x in 0..5 {
            assert_eq!(pixel_at(u.output_buffer(), 5, x, y), [0x02, 0x01, 0x00, 0xff]);
        }
    }
    assert!(u.input_buffer().iter().all(|&b| b == 0));
}

#[test]
fn fillbox_accepts_any_value() {
    let mut u = Universe::new(3, 3).unwrap();
    u.fillbox(0xdead_beef);
    for chunk in u.output_buffer().chunks(4) {
        assert_eq!(chunk, &[0xef, 0xbe, 0xad, 0xff]);
    }
    u.fillbox(0);
    for chunk in u.output_buffer().chunks(4) {
        assert_eq!(chunk, &[0, 0, 0, 0xff]);
    }
}

#[test]
fn fillrect_window_on_fresh_canvas() {
    let mut u = Universe::new(8, 8).unwrap();
    assert_eq!(u.fillrect(1, 1, 2, 2, 0xffffff), Ok(()));
    for y in 0..8 {
        for x in 0..8 {
            let inside = (1..3).contains(&x) && (1..3).contains(&y);
            let expected = if inside { [0xff, 0xff, 0xff, 0xff] } else { [0, 0, 0, 0] };
            assert_eq!(pixel_at(u.output_buffer(), 8, x, y), expected, "pixel ({x}, {y})");
        }
    }
}

#[test]
fn fillrect_keeps_prior_values_outside_the_window() {
    let mut u = Universe::new(8, 8).unwrap();
    u.fillbox(0x102030);
    assert_eq!(u.fillrect(1, 1, 2, 2, 0xffffff), Ok(()));
    let mut inside_count = 0;
    for y in 0..8 {
        for x in 0..8 {
            let inside = (1..3).contains(&x) && (1..3).contains(&y);
            if inside {
                inside_count += 1;
                assert_eq!(pixel_at(u.output_buffer(), 8, x, y), [0xff, 0xff, 0xff, 0xff]);
            } else {
                assert_eq!(pixel_at(u.output_buffer(), 8, x, y), [0x30, 0x20, 0x10, 0xff]);
            }
        }
    }
    assert_eq!(inside_count, 4);
}

#[test]
fn fillrect_uses_the_canvas_width_for_rows() {
    let mut u = Universe::new(5, 3).unwrap();
    assert_eq!(u.fillrect(3, 1, 2, 2, 0x0a0b0c), Ok(()));
    let mut expected = vec![0u8; 60];
    for (x, y) in [(3usize, 1usize), (4, 1), (3, 2), (4, 2)] {
        let at = (y * 5 + x) * 4;
        expected[at..at + 4].copy_from_slice(&[0x0c, 0x0b, 0x0a, 0xff]);
    }
    assert_eq!(u.output_buffer(), &expected[..]);
}

#[test]
fn fillrect_up_to_the_edges_succeeds() {
    let mut u = Universe::new(4, 3).unwrap();
    assert_eq!(u.fillrect(2, 1, 2, 2, 0x010203), Ok(()));
    assert_eq!(pixel_at(u.output_buffer(), 4, 3, 2), [3, 2, 1, 0xff]);
    assert_eq!(pixel_at(u.output_buffer(), 4, 1, 2), [0, 0, 0, 0]);
}

#[test]
fn fillrect_of_no_pixels_changes_nothing() {
    let mut u = Universe::new(4, 3).unwrap();
    u.fillbox(0x445566);
    let before = u.output_buffer().to_vec();
    assert_eq!(u.fillrect(1, 1, 0, 2, 0xffffff), Ok(()));
    assert_eq!(u.fillrect(1, 1, 2, 0, 0xffffff), Ok(()));
    assert_eq!(u.fillrect(4, 3, 0, 0, 0xffffff), Ok(()));
    assert_eq!(u.output_buffer(), &before[..]);
}

#[test]
fn fillrect_beyond_the_right_edge_fails_unchanged() {
    let mut u = Universe::new(8, 8).unwrap();
    u.fillbox(0x123456);
    let before = u.output_buffer().to_vec();
    assert_eq!(u.fillrect(7, 0, 2, 1, 0xffffff), Err(CanvasError::OutOfBounds));
    assert_eq!(u.fillrect(0, 0, 9, 1, 0xffffff), Err(CanvasError::OutOfBounds));
    assert_eq!(u.fillrect(8, 0, 1, 1, 0xffffff), Err(CanvasError::OutOfBounds));
    assert_eq!(u.output_buffer(), &before[..]);
}

#[test]
fn fillrect_beyond_the_bottom_edge_fails_unchanged() {
    let mut u = Universe::new(8, 8).unwrap();
    u.fillbox(0x123456);
    let before = u.output_buffer().to_vec();
    assert_eq!(u.fillrect(0, 7, 1, 2, 0xffffff), Err(CanvasError::OutOfBounds));
    assert_eq!(u.fillrect(0, 0, 1, 9, 0xffffff), Err(CanvasError::OutOfBounds));
    assert_eq!(u.output_buffer(), &before[..]);
}

#[test]
fn fillrect_whose_end_overflows_fails_unchanged() {
    let mut u = Universe::new(8, 8).unwrap();
    let before = u.output_buffer().to_vec();
    assert_eq!(u.fillrect(u32::MAX, 0, 2, 1, 0xffffff), Err(CanvasError::OutOfBounds));
    assert_eq!(u.fillrect(0, 2, 1, u32::MAX, 0xffffff), Err(CanvasError::OutOfBounds));
    assert_eq!(u.output_buffer(), &before[..]);
}

#[test]
fn clear_equals_full_fillrect() {
    for color in [0u32, 0x000102, 0xffffff, 0x80c0e0, 0xff00_0001] {
        let mut cleared = Universe::new(6, 5).unwrap();
        let mut filled = Universe::new(6, 5).unwrap();
        cleared.fillrect(1, 1, 3, 2, 0x555555).unwrap();
        filled.fillrect(1, 1, 3, 2, 0x555555).unwrap();
        cleared.clear(color);
        assert_eq!(filled.fillrect(0, 0, 6, 5, color), Ok(()));
        assert_eq!(cleared.output_buffer(), filled.output_buffer());
    }
}

#[test]
fn clear_equals_fillbox() {
    let mut cleared = Universe::new(7, 3).unwrap();
    let mut boxed = Universe::new(7, 3).unwrap();
    cleared.clear(0x0a141e);
    boxed.fillbox(0x0a141e);
    assert_eq!(cleared.output_buffer(), boxed.output_buffer());
    assert_eq!(&cleared.output_buffer()[..4], &[0x1e, 0x14, 0x0a, 0xff]);
}

#[test]
fn fills_leave_the_input_buffer_alone() {
    let mut u = Universe::new(3, 3).unwrap();
    let frame: Vec<u8> = (0..36).collect();
    u.load_input(&frame).unwrap();
    u.fillbox(0x010101);
    u.fillrect(0, 0, 2, 2, 0x020202).unwrap();
    u.clear(0x030303);
    assert_eq!(u.input_buffer(), &frame[..]);
}
