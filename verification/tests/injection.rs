use nimbus_scroll::injection::{cancel_keys, KeyInput};

#[test]
fn cancel_is_a_press_and_a_release_of_no_key() {
    assert_eq!(
        cancel_keys(),
        vec![
            KeyInput { virtual_key: 0, scan_code: 0, flags: 0 },
            KeyInput { virtual_key: 0, scan_code: 0, flags: 2 },
        ]
    );
}
