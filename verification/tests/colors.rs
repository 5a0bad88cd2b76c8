use parallax::color_calc::{gen_pixel, lin_interp, pixel_color, yellow_to_blue, SimpleColor};

#[test]
fn interpolation_ends_at_its_ends() {
    for start in [0u8, 1, 77, 254, 255] {
        for end in [0u8, 3, 128, 255] {
            assert_eq!(lin_interp(start, end, 0), start);
            assert_eq!(lin_interp(start, end, 255), end);
        }
    }
}

#[test]
fn interpolation_rounds_down() {
    assert_eq!(lin_interp(0, 255, 128), 128);
    assert_eq!(lin_interp(10, 20, 128), 15);
    assert_eq!(lin_interp(200, 100, 77), 169);
    assert_eq!(lin_interp(0, 1, 254), 0);
    assert_eq!(lin_interp(1, 0, 1), 0);
    assert_eq!(lin_interp(255, 255, 100), 255);
    assert_eq!(lin_interp(7, 7, 200), 7);
}

#[test]
fn interpolation_is_the_weighted_mean_everywhere() {
    for start in (0u32..=255).step_by(15) {
        for end in (0u32..=255).step_by(17) {
            for val in 0u32..=255 {
                let expected = ((255 - val) * start + val * end) / 255;
                assert_eq!(lin_interp(start as u8, end as u8, val as u8) as u32, expected);
            }
        }
    }
}

#[test]
fn pixel_interpolates_each_channel() {
    let start = SimpleColor { red: 10, green: 200, blue: 0 };
    let end = SimpleColor { red: 20, green: 100, blue: 255 };
    assert_eq!(pixel_color(start, end, 0), [10, 200, 0, 255]);
    assert_eq!(pixel_color(start, end, 255), [20, 100, 255, 255]);
    assert_eq!(pixel_color(start, end, 128), [15, 149, 128, 255]);
}

#[test]
fn yellow_turns_blue() {
    assert_eq!(yellow_to_blue(0), [255, 255, 0, 255]);
    assert_eq!(yellow_to_blue(255), [0, 0, 255, 255]);
    assert_eq!(yellow_to_blue(100), [155, 155, 100, 255]);
    for value in 0u8..=255 {
        assert_eq!(yellow_to_blue(value), [255 - value, 255 - value, value, 255]);
    }
}

#[test]
fn pixel_of_a_point() {
    assert_eq!(gen_pixel(Ok(()), 25), [0, 0, 0, 255]);
    assert_eq!(gen_pixel(Ok(()), 0), [0, 0, 0, 255]);
    assert_eq!(gen_pixel(Err(25), 25), [0, 0, 255, 255]);
    assert_eq!(gen_pixel(Err(5), 25), [204, 204, 51, 255]);
    assert_eq!(gen_pixel(Err(1), 25), [245, 245, 10, 255]);
    assert_eq!(gen_pixel(Err(0), 25), [255, 255, 0, 255]);
    assert_eq!(gen_pixel(Err(50), 25), [1, 1, 254, 255]);
    assert_eq!(gen_pixel(Err(u32::MAX), u32::MAX), [0, 0, 255, 255]);
}
