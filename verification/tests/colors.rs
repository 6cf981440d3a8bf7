use wind_waker_shader::{mix_colors, Rgba};

fn rgb(red: u8, green: u8, blue: u8) -> Rgba {
    Rgba { red, green, blue, alpha: 255 }
}

#[test]
fn mix_at_zero_reproduces_first_endpoint() {
    let a = rgb(0xFE, 0xFE, 0xFE);
    let b = rgb(0x82, 0x98, 0xAF);
    assert_eq!(mix_colors(a, b, 0, 1), a);
    assert_eq!(mix_colors(a, b, 0, 1000), a);
}

#[test]
fn mix_at_one_reproduces_second_endpoint() {
    let a = rgb(0xA1, 0x95, 0x8F);
    let b = rgb(0x5C, 0x6C, 0x96);
    assert_eq!(mix_colors(a, b, 1, 1), b);
    assert_eq!(mix_colors(a, b, 1000, 1000), b);
}

#[test]
fn mix_at_half_is_arithmetic_midpoint() {
    let a = rgb(100, 50, 200);
    let b = rgb(200, 150, 0);
    assert_eq!(mix_colors(a, b, 1, 2), rgb(150, 100, 100));
}

#[test]
fn mix_at_quarter_exact_value() {
    let a = rgb(0, 0, 0);
    let b = rgb(255, 255, 255);
    // 255 / 4 rounds down to 63 in each channel
    assert_eq!(mix_colors(a, b, 1, 4), rgb(63, 63, 63));
}

#[test]
fn mix_result_is_opaque() {
    let a = Rgba { red: 10, green: 20, blue: 30, alpha: 0 };
    let b = Rgba { red: 40, green: 50, blue: 60, alpha: 17 };
    assert_eq!(mix_colors(a, b, 1, 2).alpha, 255);
}

#[test]
fn white_helper_is_opaque_white() {
    assert_eq!(Rgba::white(), rgb(255, 255, 255));
    assert_eq!(Rgba::rgb(1, 2, 3), rgb(1, 2, 3));
}
