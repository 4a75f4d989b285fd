use sitro::layout::composite_size;
use sitro::layout::offsets;
use sitro::layout::BorderFraction;
use sitro::layout::BorderLayout;

#[test]
fn border_of_a_fiftieth() {
    let f = BorderFraction::new(1, 50).unwrap();
    assert_eq!(f.numerator(), 1);
    assert_eq!(f.denominator(), 50);
    assert_eq!(f.border_width(100, 200), Some(2));
    let layout = BorderLayout::plan(100, 200, Some(f)).unwrap();
    assert_eq!(layout.border, 2);
    assert_eq!((layout.page_width, layout.page_height), (100, 200));
    assert_eq!((layout.canvas_width, layout.canvas_height), (102, 202));
    assert_eq!((layout.paste_x(), layout.paste_y()), (2, 2));
}

#[test]
fn border_uses_the_shorter_side() {
    let f = BorderFraction::new(1, 50).unwrap();
    assert_eq!(f.border_width(200, 100), Some(2));
    assert_eq!(f.border_width(1050, 99), Some(1));
}

#[test]
fn border_is_rounded_down() {
    let f = BorderFraction::new(1, 50).unwrap();
    assert_eq!(f.border_width(149, 149), Some(2));
    assert_eq!(f.border_width(150, 150), Some(3));
    assert_eq!(f.border_width(49, 49), Some(0));
    let third = BorderFraction::new(2, 3).unwrap();
    assert_eq!(third.border_width(10, 10), Some(6));
}

#[test]
fn zero_denominator_is_no_fraction() {
    assert!(BorderFraction::new(1, 0).is_none());
    assert!(BorderFraction::new(0, 1).is_some());
}

#[test]
fn border_that_does_not_fit() {
    let f = BorderFraction::new(u32::MAX, 1).unwrap();
    assert_eq!(f.border_width(2, 2), None);
    assert_eq!(f.border_width(1, 1), Some(u32::MAX));
    assert!(BorderLayout::plan(1, 1, Some(f)).is_none());
    assert!(BorderLayout::plan(2, 2, Some(f)).is_none());
}

#[test]
fn no_fraction_passes_the_page_through() {
    let layout = BorderLayout::plan(640, 480, None).unwrap();
    assert_eq!(layout.border, 0);
    assert_eq!((layout.canvas_width, layout.canvas_height), (640, 480));
    let layout = BorderLayout::plan(u32::MAX, u32::MAX, None).unwrap();
    assert_eq!((layout.canvas_width, layout.canvas_height), (u32::MAX, u32::MAX));
}

#[test]
fn canvas_at_the_limit() {
    let f = BorderFraction::new(1, 1).unwrap();
    let layout = BorderLayout::plan(1, u32::MAX - 1, Some(f)).unwrap();
    assert_eq!(layout.border, 1);
    assert_eq!((layout.canvas_width, layout.canvas_height), (2, u32::MAX));
    assert!(BorderLayout::plan(1, u32::MAX, Some(f)).is_none());
}

#[test]
fn composite_of_three_pages() {
    let sizes = vec![(102, 202), (150, 300), (80, 90)];
    assert_eq!(composite_size(&sizes), Some((332, 300)));
    assert_eq!(offsets(&sizes), Some(vec![0, 102, 252]));
}

#[test]
fn composite_of_one_page() {
    let sizes = vec![(7, 9)];
    assert_eq!(composite_size(&sizes), Some((7, 9)));
    assert_eq!(offsets(&sizes), Some(vec![0]));
}

#[test]
fn composite_of_no_page() {
    let sizes: Vec<(u32, u32)> = vec![];
    assert_eq!(composite_size(&sizes), Some((0, 0)));
    assert_eq!(offsets(&sizes), Some(vec![]));
}

#[test]
fn composite_too_wide() {
    let sizes = vec![(u32::MAX, 1), (1, 1)];
    assert_eq!(composite_size(&sizes), None);
    assert_eq!(offsets(&sizes), None);
    let sizes = vec![(u32::MAX - 1, 3), (1, 5)];
    assert_eq!(composite_size(&sizes), Some((u32::MAX, 5)));
    assert_eq!(offsets(&sizes), Some(vec![0, u32::MAX - 1]));
}
