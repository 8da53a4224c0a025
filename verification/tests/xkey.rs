use kindle_button_mapper::xkey::{
    is_match, name_request, query_tree_request, read_u16, read_u32, root_window, send_key_request, title_parts,
    tree_children, x_keycode,
};

const READER: &str = "L:A_N:application_ID:com.lab126.booklet.reader_M:false_WT:true_S:-2";

#[test]
fn the_window_in_front_is_matched() {
    let (prefix, id) = title_parts(READER).unwrap();
    assert_eq!(prefix, "L:A_N:application_");
    assert_eq!(id, "com.lab126.booklet.reader");
    assert!(is_match(READER, &prefix, &id));
    assert!(is_match(&format!("{}_DM:N", READER), &prefix, &id));
    assert!(!is_match(
        "L:C_N:footerBar_ID:com.lab126.booklet.reader_M:false",
        &prefix,
        &id
    ));
    assert!(!is_match(
        "L:C_N:appToolBar_owner:com.lab126.booklet.reader_ID:com.lab126.KPPMainApp",
        &prefix,
        &id
    ));
    assert!(!is_match(
        "L:A_N:application_ID:com.lab126.booklet.home_M:false",
        &prefix,
        &id
    ));
    assert!(!is_match(
        "L:A_N:application_ID:com.lab126.booklet.reader2_M:false",
        &prefix,
        &id
    ));
}

#[test]
fn titles_without_an_id_are_not_ours() {
    assert_eq!(title_parts("mesquite"), None);
    assert_eq!(title_parts("ID:com.lab126.krpp"), None);
}

#[test]
fn keycodes_and_little_endian_fields() {
    assert_eq!(x_keycode(104), 112);
    assert_eq!(x_keycode(250), 2);
    assert_eq!(read_u16(&[1, 2, 3], 1), Some(0x0302));
    assert_eq!(read_u16(&[1, 2, 3], 2), None);
    assert_eq!(read_u32(&[1, 2, 3, 4], 0), Some(0x04030201));
    assert_eq!(read_u32(&[1, 2, 3], 0), None);
}

#[test]
fn requests_carry_the_window_little_endian() {
    assert_eq!(query_tree_request(0x01020304), vec![15, 0, 2, 0, 4, 3, 2, 1]);
    let name = name_request(0x0a0b0c0d);
    assert_eq!(name.len(), 24);
    assert_eq!(&name[4..8], &[0x0d, 0x0c, 0x0b, 0x0a]);
    assert_eq!(&name[8..12], &[39, 0, 0, 0]);
    assert_eq!(&name[20..24], &[128, 0, 0, 0]);
    let key = send_key_request(7, 9, 112, 2);
    assert_eq!(key.len(), 44);
    assert_eq!(key[0], 25);
    assert_eq!(key[12], 2);
    assert_eq!(key[13], 112);
    assert_eq!(&key[20..24], &[7, 0, 0, 0]);
    assert_eq!(&key[24..28], &[9, 0, 0, 0]);
    assert_eq!(key[42], 1);
}

#[test]
fn the_root_window_follows_vendor_and_formats() {
    let mut setup = vec![0u8; 64];
    setup[16] = 5; // vendor length 5, padded to 8
    setup[21] = 2; // two formats
    let at = 32 + 8 + 16;
    setup[at..at + 4].copy_from_slice(&[0x44, 0x33, 0x22, 0x11]);
    assert_eq!(root_window(&setup), Some(0x11223344));
    assert_eq!(root_window(&setup[..at + 2]), None);
    let mut head = vec![0u8; 32];
    head[16] = 2;
    assert_eq!(tree_children(&head, &[1, 0, 0, 0, 2, 0, 0, 0]), Some(vec![1, 2]));
    assert_eq!(tree_children(&head, &[1, 0, 0, 0]), None);
}
