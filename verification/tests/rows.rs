use tweak_shader_ae::rows::{check_rows_fit, store_rows, store_run};

#[test]
fn bytes_between_rows_are_left_untouched() {
    // two rows of two pixels of four bytes, rows twelve bytes apart
    let packed: Vec<u8> = (1..=16).collect();
    let mut dest = vec![0xAAu8; 24];
    assert!(store_rows(&mut dest, 12, &packed, 8, 2));
    assert_eq!(
        dest,
        vec![
            1, 2, 3, 4, 5, 6, 7, 8, 0xAA, 0xAA, 0xAA, 0xAA, //
            9, 10, 11, 12, 13, 14, 15, 16, 0xAA, 0xAA, 0xAA, 0xAA,
        ]
    );
}

#[test]
fn tightly_packed_rows_are_copied_whole() {
    let packed: Vec<u8> = (0..12).collect();
    let mut dest = vec![0xFFu8; 12];
    assert!(store_rows(&mut dest, 4, &packed, 4, 3));
    assert_eq!(dest, packed);
}

#[test]
fn last_row_needs_no_room_behind_its_pixels() {
    let packed = vec![1u8, 2, 3, 4];
    let mut dest = vec![0u8; 8];
    assert!(store_rows(&mut dest, 6, &packed, 2, 2));
    assert_eq!(dest, vec![1, 2, 0, 0, 0, 0, 3, 4]);
}

#[test]
fn bytes_behind_the_last_row_are_left_untouched() {
    let packed = vec![7u8, 8];
    let mut dest = vec![0x55u8; 10];
    assert!(store_rows(&mut dest, 4, &packed, 2, 1));
    assert_eq!(dest, vec![7, 8, 0x55, 0x55, 0x55, 0x55, 0x55, 0x55, 0x55, 0x55]);
}

#[test]
fn rows_that_do_not_fit_are_not_written() {
    let packed = vec![1u8; 16];
    let mut dest = vec![0u8; 19];
    // the second row would end at byte 20
    assert!(!store_rows(&mut dest, 12, &packed, 8, 2));
    assert_eq!(dest, vec![0u8; 19]);
    // a row longer than the distance between rows
    let mut dest = vec![0u8; 64];
    assert!(!store_rows(&mut dest, 4, &packed, 8, 2));
    assert_eq!(dest, vec![0u8; 64]);
    // more rows than the packed buffer holds
    assert!(!store_rows(&mut dest, 8, &packed, 8, 3));
    assert_eq!(dest, vec![0u8; 64]);
}

#[test]
fn no_rows_write_nothing() {
    let mut dest = vec![9u8; 4];
    assert!(store_rows(&mut dest, 4, &[], 4, 0));
    assert_eq!(dest, vec![9u8; 4]);
    assert!(store_rows(&mut dest, 0, &[], 0, 5));
    assert_eq!(dest, vec![9u8; 4]);
    let mut empty: Vec<u8> = Vec::new();
    assert!(store_rows(&mut empty, 0, &[], 0, 0));
}

#[test]
fn sizes_beyond_the_machine_do_not_fit() {
    assert!(!check_rows_fit(usize::MAX, 2, usize::MAX, 2, usize::MAX));
    assert!(!check_rows_fit(usize::MAX, usize::MAX, 8, 1, 3));
    assert!(!check_rows_fit(usize::MAX, usize::MAX, usize::MAX, usize::MAX, 2));
    assert!(check_rows_fit(usize::MAX, usize::MAX, usize::MAX, usize::MAX, 1));
    assert!(check_rows_fit(20, 12, 16, 8, 2));
    assert!(!check_rows_fit(19, 12, 16, 8, 2));
}

#[test]
fn a_run_is_copied_in_place() {
    let mut dest = vec![0u8; 6];
    store_run(&mut dest, 2, &[9, 8, 7, 6], 1, 3);
    assert_eq!(dest, vec![0, 0, 8, 7, 6, 0]);
    store_run(&mut dest, 6, &[1], 1, 0);
    assert_eq!(dest, vec![0, 0, 8, 7, 6, 0]);
}
