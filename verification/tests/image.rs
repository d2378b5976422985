use pano_monitor::frame::VideoFrame;
use pano_monitor::image::{convert_rgbx_to_color_image, is_drawable, Rgba};

fn frame(data: Vec<u8>, width: u32, height: u32) -> VideoFrame {
    VideoFrame { data, width, height }
}

fn rgb(r: u8, g: u8, b: u8) -> Rgba {
    Rgba { r, g, b, a: 255 }
}

#[test]
fn a_full_frame_is_drawn_row_by_row() {
    let data = vec![1, 2, 3, 0, 4, 5, 6, 0, 7, 8, 9, 0, 10, 11, 12, 0];
    let image = convert_rgbx_to_color_image(frame(data, 2, 2));
    assert_eq!(image.size, [2, 2]);
    assert_eq!(image.pixels, vec![rgb(1, 2, 3), rgb(4, 5, 6), rgb(7, 8, 9), rgb(10, 11, 12)]);
}

#[test]
fn the_colours_are_those_of_egui() {
    let image = convert_rgbx_to_color_image(frame(vec![12, 200, 99, 77], 1, 2));
    let drawn = egui::Color32::from_rgb(12, 200, 99);
    assert_eq!(image.pixels[0], Rgba { r: drawn.r(), g: drawn.g(), b: drawn.b(), a: drawn.a() });
    let black = egui::Color32::BLACK;
    assert_eq!(image.pixels[1], Rgba { r: black.r(), g: black.g(), b: black.b(), a: black.a() });
}

#[test]
fn padding_is_ignored() {
    let a = convert_rgbx_to_color_image(frame(vec![9, 8, 7, 0, 6, 5, 4, 0], 2, 1));
    let b = convert_rgbx_to_color_image(frame(vec![9, 8, 7, 255, 6, 5, 4, 13], 2, 1));
    assert_eq!(a, b);
    assert_eq!(a.pixels, vec![rgb(9, 8, 7), rgb(6, 5, 4)]);
}

#[test]
fn rows_without_bytes_are_black() {
    let image = convert_rgbx_to_color_image(frame(vec![1, 1, 1, 0, 2, 2, 2, 0], 2, 2));
    assert_eq!(image.pixels, vec![rgb(1, 1, 1), rgb(2, 2, 2), rgb(0, 0, 0), rgb(0, 0, 0)]);
}

#[test]
fn bytes_of_an_incomplete_row_are_not_drawn() {
    let image = convert_rgbx_to_color_image(frame(vec![1, 1, 1, 0, 2, 2, 2], 2, 1));
    assert_eq!(image.pixels, vec![rgb(0, 0, 0), rgb(0, 0, 0)]);
}

#[test]
fn an_image_without_rows() {
    let image = convert_rgbx_to_color_image(frame(vec![], 3, 0));
    assert_eq!(image.size, [3, 0]);
    assert!(image.pixels.is_empty());
}

#[test]
fn drawable_frames() {
    assert!(is_drawable(&frame(vec![0; 16], 2, 2)));
    assert!(is_drawable(&frame(vec![], 2, 2)));
    assert!(is_drawable(&frame(vec![0; 23], 2, 2)));
    assert!(!is_drawable(&frame(vec![0; 24], 2, 2)));
    assert!(!is_drawable(&frame(vec![0; 4], 0, 1)));
    assert!(!is_drawable(&frame(vec![], u32::MAX, u32::MAX)));
}
