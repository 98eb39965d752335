use annotator::capture::{
    bgra_to_rgba, crop_selection, selection_frame, Region, RgbPixels, SelectionFrame,
};
use annotator::geometry::Coordinate;

fn c(x: i32, y: i32) -> Coordinate {
    Coordinate::new(x, y)
}

/// A `width` by `height` image whose pixel in column x of row y holds the
/// bytes (x, y, x + y).
fn gradient(width: u32, height: u32) -> RgbPixels {
    let mut data = Vec::new();
    for y in 0..height {
        for x in 0..width {
            data.push(x as u8);
            data.push(y as u8);
            data.push((x + y) as u8);
        }
    }
    RgbPixels { width, height, data }
}

#[test]
fn bgra_to_rgba_swaps_blue_and_red_and_sets_alpha() {
    let out = bgra_to_rgba(vec![1, 2, 3, 4, 10, 20, 30, 0]);
    assert_eq!(out, vec![3, 2, 1, 255, 30, 20, 10, 255]);
}

#[test]
fn bgra_to_rgba_of_nothing_is_nothing() {
    assert_eq!(bgra_to_rgba(Vec::new()), Vec::<u8>::new());
}

#[test]
fn bgra_to_rgba_twice_restores_the_colours() {
    let out = bgra_to_rgba(bgra_to_rgba(vec![9, 8, 7, 6]));
    assert_eq!(out, vec![9, 8, 7, 255]);
}

#[test]
fn selection_frame_in_each_direction() {
    let expected = SelectionFrame { x: 10, y: 20, w: 30, h: 40 };
    assert_eq!(selection_frame(c(10, 20), c(40, 60)), expected);
    assert_eq!(selection_frame(c(40, 60), c(10, 20)), expected);
    assert_eq!(selection_frame(c(40, 20), c(10, 60)), expected);
    assert_eq!(selection_frame(c(10, 60), c(40, 20)), expected);
}

#[test]
fn selection_frame_of_a_click_is_empty() {
    assert_eq!(selection_frame(c(7, 7), c(7, 7)), SelectionFrame { x: 7, y: 7, w: 0, h: 0 });
}

#[test]
fn selection_frame_over_the_whole_range() {
    assert_eq!(
        selection_frame(c(i32::MAX, i32::MIN), c(i32::MIN, i32::MAX)),
        SelectionFrame { x: i32::MIN, y: i32::MIN, w: u32::MAX, h: u32::MAX }
    );
}

#[test]
fn region_of_frame_wraps_negative_coordinates() {
    let f = SelectionFrame { x: 3, y: 4, w: 5, h: 6 };
    assert_eq!(f.region(), Region { x: 3, y: 4, width: 5, height: 6 });
    let g = SelectionFrame { x: -1, y: i32::MIN, w: 5, h: 6 };
    assert_eq!(g.region(), Region { x: u32::MAX, y: 2147483648, width: 5, height: 6 });
}

#[test]
fn crop_cuts_the_selected_pixels() {
    let cut = crop_selection(gradient(4, 3), SelectionFrame { x: 1, y: 1, w: 2, h: 2 }).unwrap();
    assert_eq!(cut.width, 2);
    assert_eq!(cut.height, 2);
    assert_eq!(cut.data, vec![1, 1, 2, 2, 1, 3, 1, 2, 3, 2, 2, 4]);
}

#[test]
fn crop_of_the_whole_image_is_the_image() {
    let cut = crop_selection(gradient(4, 3), SelectionFrame { x: 0, y: 0, w: 4, h: 3 }).unwrap();
    assert_eq!(cut.width, 4);
    assert_eq!(cut.height, 3);
    assert_eq!(cut.data, gradient(4, 3).data);
}

#[test]
fn crop_is_cut_to_the_image() {
    let cut = crop_selection(gradient(4, 3), SelectionFrame { x: 3, y: 2, w: 10, h: 10 }).unwrap();
    assert_eq!(cut.width, 1);
    assert_eq!(cut.height, 1);
    assert_eq!(cut.data, vec![3, 2, 5]);
}

#[test]
fn crop_beyond_the_image_is_empty() {
    let cut = crop_selection(gradient(4, 3), SelectionFrame { x: 9, y: 0, w: 2, h: 2 }).unwrap();
    assert_eq!(cut.width, 0);
    assert_eq!(cut.height, 2);
    assert!(cut.data.is_empty());
    let cut = crop_selection(gradient(4, 3), SelectionFrame { x: -1, y: 0, w: 2, h: 2 }).unwrap();
    assert_eq!(cut.width, 0);
    assert!(cut.data.is_empty());
}

#[test]
fn crop_of_an_empty_frame_is_empty() {
    let cut = crop_selection(gradient(4, 3), SelectionFrame { x: 1, y: 1, w: 0, h: 0 }).unwrap();
    assert_eq!(cut.width, 0);
    assert_eq!(cut.height, 0);
    assert!(cut.data.is_empty());
}

#[test]
fn crop_of_a_wide_image_without_rows() {
    let wide = RgbPixels { width: 0x6000_0000, height: 0, data: Vec::new() };
    let cut = crop_selection(wide, SelectionFrame { x: 10, y: 0, w: 20, h: 5 }).unwrap();
    assert_eq!(cut.width, 20);
    assert_eq!(cut.height, 0);
    assert!(cut.data.is_empty());

    let widest = RgbPixels { width: u32::MAX, height: 0, data: Vec::new() };
    let cut = crop_selection(widest, SelectionFrame { x: 5, y: 3, w: u32::MAX, h: 1 }).unwrap();
    assert_eq!(cut.width, u32::MAX - 5);
    assert_eq!(cut.height, 0);
    assert!(cut.data.is_empty());

    let beside = RgbPixels { width: 0x6000_0000, height: 0, data: Vec::new() };
    let cut = crop_selection(beside, SelectionFrame { x: -1, y: 0, w: 20, h: 5 }).unwrap();
    assert_eq!(cut.width, 0);
    assert_eq!(cut.height, 0);
    assert!(cut.data.is_empty());
}

#[test]
fn crop_of_an_image_without_columns() {
    let tall = RgbPixels { width: 0, height: u32::MAX, data: Vec::new() };
    let cut = crop_selection(tall, SelectionFrame { x: 0, y: 7, w: 20, h: 5 }).unwrap();
    assert_eq!(cut.width, 0);
    assert_eq!(cut.height, 5);
    assert!(cut.data.is_empty());
}

#[test]
fn crop_refuses_a_buffer_of_the_wrong_length() {
    let short = RgbPixels { width: 4, height: 3, data: vec![0; 35] };
    assert!(crop_selection(short, SelectionFrame { x: 0, y: 0, w: 1, h: 1 }).is_none());
    let long = RgbPixels { width: 4, height: 3, data: vec![0; 37] };
    assert!(crop_selection(long, SelectionFrame { x: 0, y: 0, w: 1, h: 1 }).is_none());
    let huge = RgbPixels { width: u32::MAX, height: u32::MAX, data: Vec::new() };
    assert!(crop_selection(huge, SelectionFrame { x: 0, y: 0, w: 1, h: 1 }).is_none());
}
