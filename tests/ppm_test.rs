use raytrace::ppm::{Ppm, Rgb};

fn text(ppm: &Ppm) -> String {
    String::from_utf8(ppm.encode()).expect("the encoding is ASCII")
}

#[test]
fn create_and_write() {
    let width = 200;
    let height = 100;
    let mut ppm = Ppm::from(width, height);
    for y in (0..height).rev() {
        for x in 0..width {
            let r = ((x as f64) / (width as f64) * 255.99) as u32;
            let g = ((y as f64) / (height as f64) * 255.99) as u32;
            let b = (0.2 * 255.99) as u32;
            ppm.set_pixel(x, y, Rgb::new(r as u8, g as u8, b as u8));
        }
    }

    let output = ppm.encode();

    let mut expected = String::from("P3\n200 100\n255\n");
    for y in (0..height).rev() {
        for x in 0..width {
            let r = ((x as f64) / (width as f64) * 255.99) as u32;
            let g = ((y as f64) / (height as f64) * 255.99) as u32;
            let b = (0.2 * 255.99) as u32;
            expected.push_str(&format!("{} {} {}\n", r, g, b));
        }
    }
    let expected_output = expected.into_bytes();

    assert!(output == expected_output);
}

#[test]
fn new_image_is_empty() {
    let ppm = Ppm::new();
    assert_eq!(ppm.get_width(), 0);
    assert_eq!(ppm.get_height(), 0);
    assert_eq!(text(&ppm), "P3\n0 0\n255\n");
}

#[test]
fn from_fills_black() {
    let ppm = Ppm::from(2, 1);
    assert_eq!(ppm.get_width(), 2);
    assert_eq!(ppm.get_height(), 1);
    assert_eq!(text(&ppm), "P3\n2 1\n255\n0 0 0\n0 0 0\n");
}

#[test]
fn set_pixel_counts_rows_from_the_bottom() {
    let mut ppm = Ppm::from(2, 2);
    ppm.set_pixel(1, 0, Rgb::new(1, 2, 3));
    ppm.set_pixel(0, 1, Rgb::new(255, 128, 7));
    assert_eq!(ppm.get_pixel(1, 0), Rgb::new(1, 2, 3));
    assert_eq!(ppm.get_pixel(0, 1), Rgb::new(255, 128, 7));
    assert_eq!(ppm.get_pixel(0, 0), Rgb::new(0, 0, 0));
    assert_eq!(
        text(&ppm),
        "P3\n2 2\n255\n255 128 7\n0 0 0\n0 0 0\n1 2 3\n"
    );
}

#[test]
fn set_height_grows_and_shrinks() {
    let mut ppm = Ppm::from(1, 1);
    ppm.set_pixel(0, 0, Rgb::new(9, 9, 9));
    ppm.set_height(3);
    assert_eq!(ppm.get_height(), 3);
    assert_eq!(text(&ppm), "P3\n1 3\n255\n9 9 9\n0 0 0\n0 0 0\n");
    ppm.set_height(0);
    assert_eq!(ppm.get_height(), 0);
    assert_eq!(ppm.get_width(), 1);
    assert_eq!(text(&ppm), "P3\n1 0\n255\n");
}

#[test]
fn set_width_grows_and_shrinks() {
    let mut ppm = Ppm::from(2, 2);
    ppm.set_pixel(1, 1, Rgb::new(5, 6, 7));
    ppm.set_pixel(0, 0, Rgb::new(1, 1, 1));
    ppm.set_width(3);
    assert_eq!(ppm.get_width(), 3);
    assert_eq!(
        text(&ppm),
        "P3\n3 2\n255\n0 0 0\n5 6 7\n0 0 0\n1 1 1\n0 0 0\n0 0 0\n"
    );
    ppm.set_width(1);
    assert_eq!(ppm.get_width(), 1);
    assert_eq!(ppm.get_height(), 2);
    assert_eq!(text(&ppm), "P3\n1 2\n255\n0 0 0\n1 1 1\n");
}

#[test]
fn resize_from_empty() {
    let mut ppm = Ppm::new();
    ppm.set_width(2);
    ppm.set_height(1);
    ppm.set_pixel(1, 0, Rgb::new(10, 100, 200));
    assert_eq!(text(&ppm), "P3\n2 1\n255\n0 0 0\n10 100 200\n");
}
