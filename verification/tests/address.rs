use alphamon_cli::address::{parse_vid_pid, resolve_address, Address, ArgError, InterfaceType};

#[test]
fn serial_rejects_vid_pid() {
    let r = resolve_address(
        InterfaceType::Serial,
        None,
        Some(String::from("1234:5678")),
    );
    assert_eq!(r, Err(ArgError::VidPidWithSerial));
}

#[test]
fn serial_rejects_vid_pid_even_beside_path() {
    let r = resolve_address(
        InterfaceType::Serial,
        Some(String::from("/dev/ttyUSB0")),
        Some(String::from("1234:5678")),
    );
    assert_eq!(r, Err(ArgError::VidPidWithSerial));
}

#[test]
fn both_address_forms_rejected() {
    let r = resolve_address(
        InterfaceType::UsbHid,
        Some(String::from("/dev/hidraw0")),
        Some(String::from("1234:5678")),
    );
    assert_eq!(r, Err(ArgError::NotExactlyOneAddress));
}

#[test]
fn no_address_rejected() {
    let r = resolve_address(InterfaceType::UsbHid, None, None);
    assert_eq!(r, Err(ArgError::NotExactlyOneAddress));
    let r = resolve_address(InterfaceType::Serial, None, None);
    assert_eq!(r, Err(ArgError::NotExactlyOneAddress));
}

#[test]
fn serial_path_accepted() {
    let r = resolve_address(
        InterfaceType::Serial,
        Some(String::from("/dev/ttyUSB0")),
        None,
    );
    assert_eq!(r, Ok(Address::Path(String::from("/dev/ttyUSB0"))));
}

#[test]
fn usb_hid_path_accepted() {
    let r = resolve_address(
        InterfaceType::UsbHid,
        Some(String::from("/dev/hidraw0")),
        None,
    );
    assert_eq!(r, Ok(Address::Path(String::from("/dev/hidraw0"))));
}

#[test]
fn usb_hid_vid_pid_accepted() {
    let r = resolve_address(InterfaceType::UsbHid, None, Some(String::from("1234:5678")));
    assert_eq!(r, Ok(Address::VidPid(0x1234, 0x5678)));
}

#[test]
fn vid_pid_too_short_rejected() {
    assert_eq!(parse_vid_pid("123:5678"), Err(ArgError::VidPidBadLength));
    assert_eq!(
        resolve_address(InterfaceType::UsbHid, None, Some(String::from("123:5678"))),
        Err(ArgError::VidPidBadLength)
    );
}

#[test]
fn vid_pid_too_long_rejected() {
    assert_eq!(parse_vid_pid("12345:5678"), Err(ArgError::VidPidBadLength));
    assert_eq!(parse_vid_pid(""), Err(ArgError::VidPidBadLength));
}

#[test]
fn vid_pid_colon_delimiter_parses() {
    assert_eq!(parse_vid_pid("1234:5678"), Ok((0x1234, 0x5678)));
}

#[test]
fn vid_pid_slash_delimiter_parses() {
    assert_eq!(parse_vid_pid("1234/5678"), Ok((0x1234, 0x5678)));
}

#[test]
fn vid_pid_delimiter_does_not_change_values() {
    assert_eq!(parse_vid_pid("abcd:ef01"), parse_vid_pid("abcd/ef01"));
}

#[test]
fn vid_pid_hex_letters_parse_in_both_cases() {
    assert_eq!(parse_vid_pid("ffff:ffff"), Ok((0xffff, 0xffff)));
    assert_eq!(parse_vid_pid("ABCD:EF01"), Ok((0xabcd, 0xef01)));
    assert_eq!(parse_vid_pid("0000:0001"), Ok((0x0000, 0x0001)));
}

#[test]
fn vid_pid_non_hex_digit_rejected() {
    assert_eq!(parse_vid_pid("12g4:5678"), Err(ArgError::VidPidNotHex));
    assert_eq!(parse_vid_pid("1234:56 8"), Err(ArgError::VidPidNotHex));
    assert_eq!(parse_vid_pid("+123:5678"), Err(ArgError::VidPidNotHex));
}
