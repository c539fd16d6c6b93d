use input_locale::locale::locale_from_layout;

#[test]
fn keeps_the_low_sixteen_bits() {
    assert_eq!(locale_from_layout(0x04090409), 0x0409);
    assert_eq!(locale_from_layout(0xF0080804), 0x0804);
    assert_eq!(locale_from_layout(0x0409), 0x0409);
}

#[test]
fn drops_the_device_bits() {
    assert_eq!(locale_from_layout(0xABCD0000), 0);
    assert_eq!(locale_from_layout(0xFFFF_FFFF_FFFF_FFFF), 0xFFFF);
    assert_eq!(locale_from_layout(0), 0);
}
