use vstd::prelude::*;
use vstd::string::StringExecFns;

use crate::errors::DeviceError;

verus! {

/// Every interrupt-channel command or response is a frame of exactly this
/// many bytes.
pub const COMMAND_FRAME_LEN: usize = 64;

/// Every bulk-channel info frame is exactly this many bytes.
pub const BULK_FRAME_LEN: usize = 512;

/// Telemetry decoded from one 64-byte status response.
#[derive(Clone, Copy, Debug, PartialEq, Eq, Structural)]
pub struct DeviceStatus {
    /// Liquid temperature in whole degrees Celsius.
    pub temp: i32,
    /// Pump speed in revolutions per minute.
    pub pump_rpm: i32,
    /// Pump duty in percent.
    pub pump_duty: i32,
    /// Fan speed in revolutions per minute.
    pub fan_rpm: i32,
    /// Fan duty in percent.
    pub fan_duty: i32,
}

/// The 64-byte command frame carrying `data`: the command bytes at the
/// front, zero padding behind. If `data` is oversized the frame is left
/// all zero (a defensive no-op rather than truncation).
pub open spec fn spec_command_frame(data: Seq<u8>) -> Seq<u8> {
    Seq::new(64, |i: int| if data.len() <= 64 && i < data.len() {
        data[i]
    } else {
        0u8
    })
}

/// Build the fixed 64-byte zero-padded frame for a command. The first byte
/// of `data` is the opcode; every byte past `data` stays zero.
pub fn encode_command(data: &Vec<u8>) -> (frame: Vec<u8>)
    ensures
        frame@ == spec_command_frame(data@),
        frame@.len() == 64,
        forall|i: int| data@.len() <= i < 64 ==> frame@[i] == 0u8,
{
    let mut frame: Vec<u8> = Vec::new();
    while frame.len() < COMMAND_FRAME_LEN
        invariant
            frame@.len() <= 64,
            forall|j: int| 0 <= j < frame@.len() ==> frame@[j] == 0u8,
        decreases 64 - frame@.len(),
    {
        frame.push(0u8);
    }
    if data.len() <= COMMAND_FRAME_LEN {
        let mut i: usize = 0;
        while i < data.len()
            invariant
                i <= data@.len() <= 64,
                frame@.len() == 64,
                forall|j: int| 0 <= j < i ==> frame@[j] == data@[j],
                forall|j: int| i <= j < 64 ==> frame@[j] == 0u8,
            decreases data@.len() - i,
        {
            frame[i] = data[i];
            i = i + 1;
        }
    }
    proof {
        assert(frame@ =~= spec_command_frame(data@));
    }
    frame
}

/// The 512-byte bulk frame carrying `data`: the bytes at the front, zero
/// padding behind. Callers never hand this more than 512 bytes.
pub open spec fn spec_bulk_frame(data: Seq<u8>) -> Seq<u8>
    recommends
        data.len() <= 512,
{
    Seq::new(512, |i: int| if i < data.len() {
        data[i]
    } else {
        0u8
    })
}

/// Build the fixed 512-byte zero-padded bulk frame for `data`.
pub fn encode_bulk_frame(data: &Vec<u8>) -> (frame: Vec<u8>)
    requires
        data@.len() <= 512,
    ensures
        frame@ == spec_bulk_frame(data@),
        frame@.len() == 512,
{
    let mut frame: Vec<u8> = Vec::new();
    while frame.len() < BULK_FRAME_LEN
        invariant
            frame@.len() <= 512,
            forall|j: int| 0 <= j < frame@.len() ==> frame@[j] == 0u8,
        decreases 512 - frame@.len(),
    {
        frame.push(0u8);
    }
    let mut i: usize = 0;
    while i < data.len()
        invariant
            i <= data@.len() <= 512,
            frame@.len() == 512,
            forall|j: int| 0 <= j < i ==> frame@[j] == data@[j],
            forall|j: int| i <= j < 512 ==> frame@[j] == 0u8,
        decreases data@.len() - i,
    {
        frame[i] = data[i];
        i = i + 1;
    }
    proof {
        assert(frame@ =~= spec_bulk_frame(data@));
    }
    frame
}

/// One byte of the bulk-channel info frame: a fixed 12-byte magic
/// preamble, the mode byte at offset 12, two fixed magic bytes at offsets
/// 17 and 18, zero everywhere else. The layout is dictated by the
/// device's protocol and must be reproduced byte for byte.
pub open spec fn spec_bulk_info_byte(mode: u8, i: int) -> u8 {
    if i == 0 {
        0x12u8
    } else if i == 1 {
        0xfau8
    } else if i == 2 {
        0x01u8
    } else if i == 3 {
        0xe8u8
    } else if i == 4 {
        0xabu8
    } else if i == 5 {
        0xcdu8
    } else if i == 6 {
        0xefu8
    } else if i == 7 {
        0x98u8
    } else if i == 8 {
        0x76u8
    } else if i == 9 {
        0x54u8
    } else if i == 10 {
        0x32u8
    } else if i == 11 {
        0x10u8
    } else if i == 12 {
        mode
    } else if i == 17 {
        0x40u8
    } else if i == 18 {
        0x96u8
    } else {
        0u8
    }
}

/// The full 512-byte bulk-channel info frame for the given mode.
pub open spec fn spec_bulk_info_frame(mode: u8) -> Seq<u8> {
    Seq::new(512, |i: int| spec_bulk_info_byte(mode, i))
}

/// Build the 512-byte bulk-channel info frame for the given mode: the
/// fixed magic preamble, the mode byte, the two trailing magic bytes,
/// zero padding everywhere else.
pub fn encode_bulk_info(mode: u8) -> (frame: Vec<u8>)
    ensures
        frame@ == spec_bulk_info_frame(mode),
        frame@.len() == 512,
{
    let mut data: Vec<u8> = Vec::new();
    data.push(0x12u8);
    data.push(0xfau8);
    data.push(0x01u8);
    data.push(0xe8u8);
    data.push(0xabu8);
    data.push(0xcdu8);
    data.push(0xefu8);
    data.push(0x98u8);
    data.push(0x76u8);
    data.push(0x54u8);
    data.push(0x32u8);
    data.push(0x10u8);
    data.push(mode);
    data.push(0x00u8);
    data.push(0x00u8);
    data.push(0x00u8);
    data.push(0x00u8);
    data.push(0x40u8);
    data.push(0x96u8);
    let frame = encode_bulk_frame(&data);
    proof {
        assert(frame@ =~= spec_bulk_info_frame(mode));
    }
    frame
}

/// The 64-byte set-duty frame: opcode 0x72, then the channel address
/// (1 = pump, 2 = fan), and the duty value repeated over bytes 4 to 43.
pub open spec fn spec_duty_frame(duty: u8, address: u8) -> Seq<u8> {
    Seq::new(64, |i: int| if i == 0 {
        0x72u8
    } else if i == 1 {
        address
    } else if 4 <= i < 44 {
        duty
    } else {
        0u8
    })
}

/// Build the 64-byte set-duty frame for the given duty and channel
/// address.
pub fn encode_duty_command(duty: u8, address: u8) -> (frame: Vec<u8>)
    ensures
        frame@ == spec_duty_frame(duty, address),
        frame@.len() == 64,
{
    let mut data: Vec<u8> = Vec::new();
    data.push(0x72u8);
    data.push(address);
    data.push(0u8);
    data.push(0u8);
    let mut i: usize = 4;
    while i < 44
        invariant
            4 <= i <= 44,
            data@.len() == i,
            data@[0] == 0x72u8,
            data@[1] == address,
            data@[2] == 0u8,
            data@[3] == 0u8,
            forall|j: int| 4 <= j < i ==> data@[j] == duty,
        decreases 44 - i,
    {
        data.push(duty);
        i = i + 1;
    }
    let frame = encode_command(&data);
    proof {
        assert(frame@ =~= spec_duty_frame(duty, address));
    }
    frame
}

/// The status fields read off a response frame at their fixed offsets:
/// temperature from bytes 15 and 16 (whole degrees plus only the whole
/// part of the tenths byte divided by ten), pump RPM little-endian from
/// bytes 17 and 18, pump duty from byte 19, fan RPM little-endian from
/// bytes 23 and 24, fan duty from byte 25.
pub open spec fn spec_status(data: Seq<u8>) -> DeviceStatus
    recommends
        data.len() >= 26,
{
    DeviceStatus {
        temp: (data[15] + data[16] / 10) as i32,
        pump_rpm: (data[18] * 256 + data[17]) as i32,
        pump_duty: data[19] as i32,
        fan_rpm: (data[24] * 256 + data[23]) as i32,
        fan_duty: data[25] as i32,
    }
}

/// Decode a status response. A response shorter than 26 bytes cannot hold
/// the fan-duty field and is rejected as a protocol error; any longer
/// response decodes to exactly the fields at the fixed offsets.
pub fn parse_status(data: &Vec<u8>) -> (r: Result<DeviceStatus, DeviceError>)
    ensures
        data@.len() >= 26 ==> (r matches Ok(st) && st == spec_status(data@)),
        data@.len() < 26 ==> (r matches Err(e) && e == DeviceError::Protocol),
{
    if data.len() < 26 {
        return Err(DeviceError::Protocol);
    }
    let temp = data[15] as i32 + (data[16] / 10) as i32;
    let pump_rpm = (data[18] as i32) * 256 + (data[17] as i32);
    let pump_duty = data[19] as i32;
    let fan_rpm = (data[24] as i32) * 256 + (data[23] as i32);
    let fan_duty = data[25] as i32;
    Ok(DeviceStatus { temp, pump_rpm, pump_duty, fan_rpm, fan_duty })
}

/// The character for one decimal digit.
pub open spec fn spec_digit_char(d: int) -> char
    recommends
        0 <= d < 10,
{
    if d == 0 {
        '0'
    } else if d == 1 {
        '1'
    } else if d == 2 {
        '2'
    } else if d == 3 {
        '3'
    } else if d == 4 {
        '4'
    } else if d == 5 {
        '5'
    } else if d == 6 {
        '6'
    } else if d == 7 {
        '7'
    } else if d == 8 {
        '8'
    } else {
        '9'
    }
}

/// The shortest decimal rendering of a byte value.
pub open spec fn spec_decimal(n: int) -> Seq<char>
    recommends
        0 <= n < 256,
{
    if n < 10 {
        seq![spec_digit_char(n)]
    } else if n < 100 {
        seq![spec_digit_char(n / 10), spec_digit_char(n % 10)]
    } else {
        seq![spec_digit_char(n / 100), spec_digit_char((n / 10) % 10), spec_digit_char(n % 10)]
    }
}

/// The firmware version rendered as text: the word "version", a space,
/// and the three dot-separated components in decimal.
pub open spec fn spec_version_chars(major: int, minor: int, patch: int) -> Seq<char> {
    seq!['v', 'e', 'r', 's', 'i', 'o', 'n', ' '] + spec_decimal(major) + seq!['.']
        + spec_decimal(minor) + seq!['.'] + spec_decimal(patch)
}

/// One decimal digit as a string slice.
fn digit_str(d: u8) -> (r: &'static str)
    requires
        d < 10,
    ensures
        r@ =~= seq![spec_digit_char(d as int)],
{
    if d == 0 {
        proof {
            reveal_strlit("0");
        }
        "0"
    } else if d == 1 {
        proof {
            reveal_strlit("1");
        }
        "1"
    } else if d == 2 {
        proof {
            reveal_strlit("2");
        }
        "2"
    } else if d == 3 {
        proof {
            reveal_strlit("3");
        }
        "3"
    } else if d == 4 {
        proof {
            reveal_strlit("4");
        }
        "4"
    } else if d == 5 {
        proof {
            reveal_strlit("5");
        }
        "5"
    } else if d == 6 {
        proof {
            reveal_strlit("6");
        }
        "6"
    } else if d == 7 {
        proof {
            reveal_strlit("7");
        }
        "7"
    } else if d == 8 {
        proof {
            reveal_strlit("8");
        }
        "8"
    } else {
        proof {
            reveal_strlit("9");
        }
        "9"
    }
}

/// Append the shortest decimal rendering of `n` to `s`.
fn append_decimal(s: &mut String, n: u8)
    ensures
        final(s)@ == old(s)@ + spec_decimal(n as int),
{
    if n >= 100 {
        s.append(digit_str(n / 100));
        s.append(digit_str((n / 10) % 10));
        s.append(digit_str(n % 10));
        proof {
            assert(s@ =~= old(s)@ + spec_decimal(n as int));
        }
    } else if n >= 10 {
        s.append(digit_str(n / 10));
        s.append(digit_str(n % 10));
        proof {
            assert(s@ =~= old(s)@ + spec_decimal(n as int));
        }
    } else {
        s.append(digit_str(n));
        proof {
            assert(s@ =~= old(s)@ + spec_decimal(n as int));
        }
    }
}

/// Decode a firmware-info response into its version text. The three
/// version components sit at offsets 0x11 to 0x13; a response shorter
/// than 0x14 bytes cannot hold them and is rejected as a protocol error.
pub fn parse_firmware_info(data: &Vec<u8>) -> (r: Result<String, DeviceError>)
    ensures
        data@.len() >= 20 ==> (r matches Ok(s) && s@ == spec_version_chars(
            data@[17] as int,
            data@[18] as int,
            data@[19] as int,
        )),
        data@.len() < 20 ==> (r matches Err(e) && e == DeviceError::Protocol),
{
    if data.len() < 20 {
        return Err(DeviceError::Protocol);
    }
    let major = data[17];
    let minor = data[18];
    let patch = data[19];
    let mut s = String::from_str("version ");
    proof {
        reveal_strlit("version ");
        assert(s@ =~= seq!['v', 'e', 'r', 's', 'i', 'o', 'n', ' ']);
    }
    append_decimal(&mut s, major);
    proof {
        reveal_strlit(".");
    }
    s.append(".");
    append_decimal(&mut s, minor);
    s.append(".");
    append_decimal(&mut s, patch);
    proof {
        assert(s@ =~= spec_version_chars(major as int, minor as int, patch as int));
    }
    Ok(s)
}

} // verus!
