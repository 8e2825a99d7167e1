use khzeb::surface::{accepts_size, preferred_format};

#[test]
fn first_srgb_format_is_preferred() {
    assert_eq!(preferred_format(&[false, true, true]), 1);
    assert_eq!(preferred_format(&[true, false]), 0);
    assert_eq!(preferred_format(&[false, false, false, true]), 3);
}

#[test]
fn first_format_is_taken_where_none_is_srgb() {
    assert_eq!(preferred_format(&[false]), 0);
    assert_eq!(preferred_format(&[false, false, false]), 0);
}

#[test]
fn surface_needs_both_sides() {
    assert!(accepts_size(1, 1));
    assert!(accepts_size(1920, 1080));
    assert!(!accepts_size(0, 1080));
    assert!(!accepts_size(1920, 0));
    assert!(!accepts_size(0, 0));
}
