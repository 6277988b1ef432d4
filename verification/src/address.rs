//! Validation of the transport selection and device addressing options.
//!
//! A device is addressed either by a filesystem path or by a USB
//! vendor/product identifier pair written as a 9-character string
//! (`ffff:ffff` or `ffff/ffff`). Exactly one of the two must be given,
//! and a VID/PID is legal only with the USB-HID transport. All of this
//! is checked here, before any attempt to open the device.

use vstd::prelude::*;
use vstd::string::*;

verus! {

/// Which physical transport the user selected.
#[derive(Clone, Copy, PartialEq, Eq, Structural, Debug)]
pub enum InterfaceType {
    UsbHid,
    Serial,
}

/// A validated device address: exactly one way of naming the device.
#[derive(Clone, PartialEq, Eq, Debug)]
pub enum Address {
    /// A filesystem device-node path (legal for both transports).
    Path(String),
    /// A USB vendor/product identifier pair (legal only for USB-HID).
    VidPid(u16, u16),
}

/// Why a transport/address combination was rejected, before any I/O.
#[derive(Clone, Copy, PartialEq, Eq, Structural, Debug)]
pub enum ArgError {
    /// A VID/PID was supplied together with the serial transport.
    VidPidWithSerial,
    /// Both a path and a VID/PID were supplied, or neither was.
    NotExactlyOneAddress,
    /// The VID/PID string is not exactly 9 characters long.
    VidPidBadLength,
    /// A character in one of the two 4-digit groups is not a hex digit.
    VidPidNotHex,
}

/// Is `c` a hexadecimal digit (either case)?
pub open spec fn is_hex_digit(c: char) -> bool {
    (48 <= c as int && c as int <= 57)  // '0' ..= '9'
    || (97 <= c as int && c as int <= 102)  // 'a' ..= 'f'
    || (65 <= c as int && c as int <= 70)  // 'A' ..= 'F'
}

/// The numeric value of a hexadecimal digit.
pub open spec fn hex_digit_val(c: char) -> int {
    if 48 <= c as int && c as int <= 57 {
        c as int - 48
    } else if 97 <= c as int && c as int <= 102 {
        c as int - 97 + 10
    } else {
        c as int - 65 + 10
    }
}

/// A well-formed VID/PID string: 9 characters, hex digits at positions
/// 0-3 and 5-8. The delimiter character at position 4 is not read.
pub open spec fn vid_pid_well_formed(s: Seq<char>) -> bool {
    s.len() == 9 && (forall|i: int|
        (0 <= i < 4 || 5 <= i < 9) ==> is_hex_digit(#[trigger] s[i]))
}

/// The value of the 4-hex-digit group starting at `start`.
pub open spec fn hex4_val(s: Seq<char>, start: int) -> int {
    4096 * hex_digit_val(s[start]) + 256 * hex_digit_val(s[start + 1]) + 16 * hex_digit_val(
        s[start + 2],
    ) + hex_digit_val(s[start + 3])
}

/// The vendor identifier encoded at positions 0-3.
pub open spec fn vid_of(s: Seq<char>) -> int {
    hex4_val(s, 0)
}

/// The product identifier encoded at positions 5-8.
pub open spec fn pid_of(s: Seq<char>) -> int {
    hex4_val(s, 5)
}

/// The numeric value of one hexadecimal digit character, or `None` if
/// the character is not a hex digit.
fn hex_digit_value(c: char) -> (r: Option<u16>)
    ensures
        r is Some <==> is_hex_digit(c),
        r matches Some(v) ==> v == hex_digit_val(c) && v < 16,
{
    let cu: u32 = c as u32;
    if 48 <= cu && cu <= 57 {
        Some((cu - 48) as u16)
    } else if 97 <= cu && cu <= 102 {
        Some((cu - 97 + 10) as u16)
    } else if 65 <= cu && cu <= 70 {
        Some((cu - 65 + 10) as u16)
    } else {
        None
    }
}

/// Parses the 4-hex-digit group of `s` starting at character `start`.
fn parse_hex4(s: &str, start: usize) -> (r: Option<u16>)
    requires
        start + 4 <= s@.len(),
        start + 4 <= usize::MAX,
    ensures
        r is Some <==> (forall|i: int| start <= i < start + 4 ==> is_hex_digit(#[trigger] s@[i])),
        r matches Some(v) ==> v == hex4_val(s@, start as int),
{
    let c0 = s.get_char(start);
    let c1 = s.get_char(start + 1);
    let c2 = s.get_char(start + 2);
    let c3 = s.get_char(start + 3);
    let v0: u16 = match hex_digit_value(c0) {
        Some(v) => v,
        None => {
            return None;
        },
    };
    let v1: u16 = match hex_digit_value(c1) {
        Some(v) => v,
        None => {
            return None;
        },
    };
    let v2: u16 = match hex_digit_value(c2) {
        Some(v) => v,
        None => {
            return None;
        },
    };
    let v3: u16 = match hex_digit_value(c3) {
        Some(v) => v,
        None => {
            return None;
        },
    };
    Some(v0 * 4096 + v1 * 256 + v2 * 16 + v3)
}

/// Parses a VID/PID string: rejects any string that is not 9 characters
/// long, then any whose two 4-digit groups are not hexadecimal; the
/// delimiter at position 4 is ignored. On success returns the two
/// 16-bit values in order.
pub fn parse_vid_pid(s: &str) -> (r: Result<(u16, u16), ArgError>)
    ensures
        r matches Err(ArgError::VidPidBadLength) <==> s@.len() != 9,
        r matches Err(ArgError::VidPidNotHex) <==> (s@.len() == 9 && !vid_pid_well_formed(s@)),
        r is Ok <==> vid_pid_well_formed(s@),
        r matches Ok((vid, pid)) ==> vid == vid_of(s@) && pid == pid_of(s@),
{
    let n: usize = s.unicode_len();
    if n != 9 {
        return Err(ArgError::VidPidBadLength);
    }
    let vid: u16 = match parse_hex4(s, 0) {
        Some(v) => v,
        None => {
            return Err(ArgError::VidPidNotHex);
        },
    };
    let pid: u16 = match parse_hex4(s, 5) {
        Some(v) => v,
        None => {
            return Err(ArgError::VidPidNotHex);
        },
    };
    Ok((vid, pid))
}

/// Validates the transport/addressing combination and produces the one
/// address the device is to be opened with, or the first violated rule.
///
/// The rules, in the order they are checked: a VID/PID never goes with
/// the serial transport; exactly one of path and VID/PID must be given;
/// a VID/PID string must be 9 characters of the form `XXXX?XXXX` with
/// hexadecimal groups. No device I/O happens here or below.
pub fn resolve_address(interface: InterfaceType, path: Option<String>, vid_pid: Option<String>) -> (r:
    Result<Address, ArgError>)
    ensures
        (r matches Err(ArgError::VidPidWithSerial)) <==> (interface is Serial && vid_pid is Some),
        (r matches Err(ArgError::NotExactlyOneAddress)) <==> (!(interface is Serial
            && vid_pid is Some) && (vid_pid is Some <==> path is Some)),
        (r matches Err(ArgError::VidPidBadLength)) <==> (!(interface is Serial && vid_pid is Some)
            && path is None && (vid_pid matches Some(v) && v@.len() != 9)),
        (r matches Err(ArgError::VidPidNotHex)) <==> (!(interface is Serial && vid_pid is Some)
            && path is None && (vid_pid matches Some(v) && v@.len() == 9 && !vid_pid_well_formed(
            v@,
        ))),
        vid_pid matches Some(v) ==> ((!(interface is Serial) && path is None
            && vid_pid_well_formed(v@)) ==> (r matches Ok(a) && a matches Address::VidPid(vid, pid)
            && vid == vid_of(v@) && pid == pid_of(v@))),
        path matches Some(p) ==> (vid_pid is None ==> (r matches Ok(a) && a matches Address::Path(q)
            && q@ == p@)),
        r is Ok <==> (!(interface is Serial && vid_pid is Some) && (vid_pid is Some <==> path is None)
            && (vid_pid matches Some(v) ==> vid_pid_well_formed(v@))),
{
    if vid_pid.is_some() && matches!(interface, InterfaceType::Serial) {
        return Err(ArgError::VidPidWithSerial);
    }
    match (path, vid_pid) {
        (Some(_), Some(_)) => Err(ArgError::NotExactlyOneAddress),
        (None, None) => Err(ArgError::NotExactlyOneAddress),
        (None, Some(v)) => {
            match parse_vid_pid(v.as_str()) {
                Ok((vid, pid)) => Ok(Address::VidPid(vid, pid)),
                Err(e) => Err(e),
            }
        },
        (Some(p), None) => Ok(Address::Path(p)),
    }
}

/// Law: a well-formed VID/PID string parses to the same two values
/// whatever its delimiter character is — two 9-character strings that
/// agree everywhere but at position 4 are equally well formed and
/// encode the same vendor and product identifiers.
pub proof fn lemma_vid_pid_delimiter_irrelevant(s1: Seq<char>, s2: Seq<char>)
    requires
        s1.len() == 9,
        s2.len() == 9,
        forall|i: int| (0 <= i < 9 && i != 4) ==> s1[i] == #[trigger] s2[i],
    ensures
        vid_pid_well_formed(s1) == vid_pid_well_formed(s2),
        vid_pid_well_formed(s1) ==> vid_of(s1) == vid_of(s2) && pid_of(s1) == pid_of(s2),
{
    assert forall|i: int| (0 <= i < 4 || 5 <= i < 9) implies s1[i] == s2[i] by {
        assert(s1[i] == s2[i]);
    }
    if vid_pid_well_formed(s1) {
        assert forall|i: int| (0 <= i < 4 || 5 <= i < 9) implies is_hex_digit(#[trigger] s2[i]) by {
            assert(is_hex_digit(s1[i]));
        }
    }
    if vid_pid_well_formed(s2) {
        assert forall|i: int| (0 <= i < 4 || 5 <= i < 9) implies is_hex_digit(#[trigger] s1[i]) by {
            assert(is_hex_digit(s2[i]));
        }
    }
}

} // verus!
