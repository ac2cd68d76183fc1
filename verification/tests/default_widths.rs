//! The width hints of a type that gives none.

use data_row::default_column_widths;

#[test]
fn default_widths_are_empty_for_no_records() {
    let nothing: [u8; 0] = [];
    assert_eq!(default_column_widths(&nothing), Vec::<u16>::new());
}

#[test]
fn default_widths_are_empty_for_some_records() {
    assert_eq!(default_column_widths(&[1u8, 2, 3]), Vec::<u16>::new());
    assert_eq!(default_column_widths(&[String::from("wide column")]), Vec::<u16>::new());
    assert_eq!(default_column_widths(&[(0i32, 0i32), (1, 1)]), Vec::<u16>::new());
}

#[test]
fn default_widths_are_empty_for_many_records() {
    let records = vec![u64::MAX; 10_000];
    assert_eq!(default_column_widths(&records).len(), 0);
}

#[test]
fn default_widths_do_not_depend_on_the_records() {
    let short = [7u16];
    let long = [1u16, 2, 3, 4, 5, 6, 7, 8];
    assert_eq!(default_column_widths(&short), default_column_widths(&long));
    assert_eq!(default_column_widths(&short), default_column_widths(&short[..0]));
}
