use dirtables::layout::{container_width, field_widths, row_style, RowStyle};

#[test]
fn container_width_leaves_out_the_last_column() {
    assert_eq!(container_width(&vec![3, 16, 5], 10), Some(190));
    assert_eq!(container_width(&vec![3, 16, 5], 11), Some(209));
    assert_eq!(container_width(&vec![4, 4, 4, 100], 1), Some(12));
}

#[test]
fn container_of_a_single_column_is_empty() {
    assert_eq!(container_width(&vec![42], 10), Some(0));
    assert_eq!(container_width(&vec![usize::MAX], usize::MAX), Some(0));
}

#[test]
fn container_without_columns_has_no_width() {
    assert_eq!(container_width(&Vec::new(), 10), None);
    assert_eq!(container_width(&Vec::new(), 0), None);
}

#[test]
fn container_width_at_scale_zero_is_zero() {
    assert_eq!(container_width(&vec![usize::MAX, usize::MAX, 7], 0), Some(0));
}

#[test]
fn container_width_up_to_the_largest_number() {
    assert_eq!(container_width(&vec![usize::MAX - 1, 1, 9], 1), Some(usize::MAX));
    assert_eq!(container_width(&vec![usize::MAX / 2, 0], 2), Some(usize::MAX - 1));
}

#[test]
fn container_width_that_does_not_fit_is_none() {
    assert_eq!(container_width(&vec![usize::MAX, 1, 9], 1), None);
    assert_eq!(container_width(&vec![usize::MAX / 2 + 1, 0], 2), None);
    assert_eq!(container_width(&vec![1, usize::MAX, 0, 5], 3), None);
}

#[test]
fn field_widths_scale_each_displayed_column() {
    assert_eq!(field_widths(&vec![3, 16, 5], 10), Some(vec![30, 160]));
    assert_eq!(field_widths(&vec![0, 1, 2, 3], 7), Some(vec![0, 7, 14]));
    assert_eq!(field_widths(&vec![9], 10), Some(Vec::new()));
    assert_eq!(field_widths(&vec![5, usize::MAX], 2), Some(vec![10]));
}

#[test]
fn field_widths_without_columns_or_room_are_none() {
    assert_eq!(field_widths(&Vec::new(), 10), None);
    assert_eq!(field_widths(&vec![1, usize::MAX, 3], 2), None);
    assert_eq!(field_widths(&vec![usize::MAX, 3], 1), Some(vec![usize::MAX]));
}

#[test]
fn first_row_is_the_header() {
    assert_eq!(row_style(0), RowStyle { header: true, first_color: true });
    assert!(!row_style(1).header);
    assert!(!row_style(2).header);
    assert!(!row_style(usize::MAX).header);
}

#[test]
fn background_colours_alternate_from_the_header_on() {
    let colours: Vec<bool> = (0..6).map(|i| row_style(i).first_color).collect();
    assert_eq!(colours, vec![true, false, true, false, true, false]);
    assert!(!row_style(usize::MAX).first_color);
}
