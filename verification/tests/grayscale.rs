use pixel_canvas::error::CanvasError;
use pixel_canvas::grayscale::{weights_of, Weights, SCHEME_COUNT, WEIGHT_SCALE};
use pixel_canvas::universe::Universe;

fn canvas_with_pixel(r: u8, g: u8, b: u8, a: u8) -> Universe {
    let mut u = Universe::new(2, 2).unwrap();
    let mut frame = vec![0u8; 16];
    frame[4..8].copy_from_slice(&[r, g, b, a]);
    u.load_input(&frame).unwrap();
    u
}

#[test]
fn weights_table_holds_six_schemes() {
    assert_eq!(SCHEME_COUNT, 6);
    assert_eq!(WEIGHT_SCALE, 10_000_000);
    assert_eq!(weights_of(0), Some(Weights { first: 2_990_000, second: 5_870_000, third: 1_140_000 }));
    assert_eq!(weights_of(1), Some(Weights { first: 2_126_000, second: 7_152_000, third: 722_000 }));
    assert_eq!(weights_of(2), Some(Weights { first: 3_333_333, second: 3_333_334, third: 3_333_333 }));
    assert_eq!(weights_of(3), Some(Weights { first: 10_000_000, second: 0, third: 0 }));
    assert_eq!(weights_of(4), Some(Weights { first: 0, second: 10_000_000, third: 0 }));
    assert_eq!(weights_of(5), Some(Weights { first: 0, second: 0, third: 10_000_000 }));
    assert_eq!(weights_of(6), None);
    assert_eq!(weights_of(usize::MAX), None);
}

#[test]
fn every_scheme_sums_to_one() {
    for scheme in 0..SCHEME_COUNT {
        let w = weights_of(scheme).unwrap();
        assert_eq!(w.first as u64 + w.second as u64 + w.third as u64, WEIGHT_SCALE as u64);
    }
}

#[test]
fn gray_exact_values_per_scheme() {
    // 0.299*10 + 0.587*20 + 0.114*30 = 18.15
    assert_eq!(weights_of(0).unwrap().gray(10, 20, 30), 18);
    // 0.2126*10 + 0.7152*20 + 0.0722*30 = 18.596
    assert_eq!(weights_of(1).unwrap().gray(10, 20, 30), 19);
    // 0.3333333*10 + 0.3333334*20 + 0.3333333*30 = 20
    assert_eq!(weights_of(2).unwrap().gray(10, 20, 30), 20);
    assert_eq!(weights_of(3).unwrap().gray(10, 20, 30), 10);
    assert_eq!(weights_of(4).unwrap().gray(10, 20, 30), 20);
    assert_eq!(weights_of(5).unwrap().gray(10, 20, 30), 30);
}

#[test]
fn gray_rounds_a_half_upward() {
    // 0.587*36 + 0.114*12 = 22.5
    assert_eq!(weights_of(0).unwrap().gray(0, 36, 12), 23);
    // 0.7152*14 + 0.0722*76 = 15.5
    assert_eq!(weights_of(1).unwrap().gray(0, 14, 76), 16);
    // just below and just above a half
    let w = Weights { first: 4_999_999, second: 0, third: 0 };
    assert_eq!(w.gray(1, 0, 0), 0);
    let w = Weights { first: 5_000_000, second: 0, third: 0 };
    assert_eq!(w.gray(1, 0, 0), 1);
}

#[test]
fn gray_extremes() {
    for scheme in 0..SCHEME_COUNT {
        let w = weights_of(scheme).unwrap();
        assert_eq!(w.gray(0, 0, 0), 0);
        assert_eq!(w.gray(255, 255, 255), 255);
    }
}

#[test]
fn gray_holds_at_255_for_weights_beyond_one() {
    let w = Weights { first: u32::MAX, second: u32::MAX, third: u32::MAX };
    assert_eq!(w.gray(255, 255, 255), 255);
    let w = Weights { first: 20_000_000, second: 0, third: 0 };
    assert_eq!(w.gray(200, 0, 0), 255);
    assert_eq!(w.gray(100, 0, 0), 200);
}

#[test]
fn gray_of_equal_channels_is_that_value() {
    for scheme in 0..SCHEME_COUNT {
        let w = weights_of(scheme).unwrap();
        for v in 0..=255u8 {
            assert_eq!(w.gray(v, v, v), v);
        }
    }
}

#[test]
fn gray_agrees_with_floating_point_off_the_halves() {
    let table = [
        (0.299_f64, 0.587_f64, 0.114_f64),
        (0.2126, 0.7152, 0.0722),
        (0.3333333, 0.3333334, 0.3333333),
        (1.0, 0.0, 0.0),
        (0.0, 1.0, 0.0),
        (0.0, 0.0, 1.0),
    ];
    for scheme in 0..SCHEME_COUNT {
        let w = weights_of(scheme).unwrap();
        let (f0, f1, f2) = table[scheme];
        for c0 in (0..=255u32).step_by(5) {
            for c1 in (0..=255u32).step_by(3) {
                for c2 in (0..=255u32).step_by(7) {
                    let sum = w.first as u64 * c0 as u64
                        + w.second as u64 * c1 as u64
                        + w.third as u64 * c2 as u64;
                    if sum % 10_000_000 == 5_000_000 {
                        continue;
                    }
                    let float = (f0 * c0 as f64 + f1 * c1 as f64 + f2 * c2 as f64).round() as u8;
                    assert_eq!(w.gray(c0 as u8, c1 as u8, c2 as u8), float);
                }
            }
        }
    }
}

#[test]
fn to_grayscale_red_only() {
    let mut u = canvas_with_pixel(10, 20, 30, 0);
    assert_eq!(u.to_grayscale(3), Ok(()));
    assert_eq!(&u.output_buffer()[4..8], &[10, 10, 10, 0xff]);
}

#[test]
fn to_grayscale_writes_every_pixel() {
    let mut u = canvas_with_pixel(10, 20, 30, 7);
    assert_eq!(u.to_grayscale(0), Ok(()));
    assert_eq!(
        u.output_buffer(),
        &[0, 0, 0, 0xff, 18, 18, 18, 0xff, 0, 0, 0, 0xff, 0, 0, 0, 0xff][..]
    );
    assert_eq!(u.to_grayscale(1), Ok(()));
    assert_eq!(&u.output_buffer()[4..8], &[19, 19, 19, 0xff]);
    assert_eq!(u.to_grayscale(2), Ok(()));
    assert_eq!(&u.output_buffer()[4..8], &[20, 20, 20, 0xff]);
    assert_eq!(u.to_grayscale(4), Ok(()));
    assert_eq!(&u.output_buffer()[4..8], &[20, 20, 20, 0xff]);
    assert_eq!(u.to_grayscale(5), Ok(()));
    assert_eq!(&u.output_buffer()[4..8], &[30, 30, 30, 0xff]);
}

#[test]
fn to_grayscale_reads_input_and_overwrites_output() {
    let mut u = canvas_with_pixel(200, 100, 50, 1);
    u.fillbox(0xabcdef);
    let frame = u.input_buffer().to_vec();
    assert_eq!(u.to_grayscale(4), Ok(()));
    assert_eq!(u.input_buffer(), &frame[..]);
    assert_eq!(
        u.output_buffer(),
        &[0, 0, 0, 0xff, 100, 100, 100, 0xff, 0, 0, 0, 0xff, 0, 0, 0, 0xff][..]
    );
}

#[test]
fn to_grayscale0_is_the_first_scheme() {
    let frame: Vec<u8> = (0..64).map(|i| (i * 37 % 251) as u8).collect();
    let mut a = Universe::new(4, 4).unwrap();
    let mut b = Universe::new(4, 4).unwrap();
    a.load_input(&frame).unwrap();
    b.load_input(&frame).unwrap();
    a.to_grayscale0();
    assert_eq!(b.to_grayscale(0), Ok(()));
    assert_eq!(a.output_buffer(), b.output_buffer());
    assert_eq!(&a.output_buffer()[..4], &[30, 30, 30, 0xff]);
}

#[test]
fn to_grayscale_is_idempotent_through_a_copy() {
    let frame: Vec<u8> = (0..96).map(|i| (i * 89 % 256) as u8).collect();
    for first in 0..SCHEME_COUNT {
        for second in 0..SCHEME_COUNT {
            let mut u = Universe::new(6, 4).unwrap();
            u.load_input(&frame).unwrap();
            assert_eq!(u.to_grayscale(first), Ok(()));
            let once = u.output_buffer().to_vec();
            u.load_input(&once).unwrap();
            assert_eq!(u.to_grayscale(second), Ok(()));
            assert_eq!(u.output_buffer(), &once[..]);
        }
    }
}

#[test]
fn to_grayscale_rejects_an_index_outside_the_table() {
    let mut u = canvas_with_pixel(10, 20, 30, 0);
    u.fillbox(0x0c0d0e);
    let before = u.output_buffer().to_vec();
    assert_eq!(u.to_grayscale(6), Err(CanvasError::InvalidScheme));
    assert_eq!(u.to_grayscale(7), Err(CanvasError::InvalidScheme));
    assert_eq!(u.to_grayscale(usize::MAX), Err(CanvasError::InvalidScheme));
    assert_eq!(u.output_buffer(), &before[..]);
    assert_eq!(u.to_grayscale(5), Ok(()));
    assert_eq!(&u.output_buffer()[4..8], &[30, 30, 30, 0xff]);
}
