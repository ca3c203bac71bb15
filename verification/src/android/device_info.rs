//! Describing the device: as text for the app, and as a record for the
//! bridge.

use crate::android::pending_perf::{set_device_info, DeviceInfoRecord, PerfSlots};
use crate::number::{decimal, push_decimal};
use crate::renderer::swapchain::DeviceInfo;
use crate::text::chars_of;
use vstd::prelude::*;
use vstd::string::StringExecFns;

verus! {

/// The hexadecimal digit for a number below sixteen.
pub open spec fn hex_char(d: nat) -> char {
    if d < 10 {
        (d + '0' as nat) as char
    } else {
        (d - 10 + 'a' as nat) as char
    }
}

/// Whether a character may not stand in a JSON string as it is.
pub open spec fn is_control(c: char) -> bool {
    (c as nat) < 0x20
}

/// How a character is written inside a JSON string.
pub open spec fn escaped_char(c: char) -> Seq<char> {
    if c == '"' {
        seq!['\\', '"']
    } else if c == '\\' {
        seq!['\\', '\\']
    } else if c == '\n' {
        seq!['\\', 'n']
    } else if c == '\r' {
        seq!['\\', 'r']
    } else if c == '\t' {
        seq!['\\', 't']
    } else if is_control(c) {
        seq!['\\', 'u', '0', '0', hex_char(c as nat / 16), hex_char(c as nat % 16)]
    } else {
        seq![c]
    }
}

/// How a text is written inside a JSON string.
pub open spec fn escaped(s: Seq<char>) -> Seq<char>
    decreases s.len(),
{
    if s.len() == 0 {
        Seq::empty()
    } else {
        escaped(s.drop_last()) + escaped_char(s.last())
    }
}

/// The value of a hexadecimal digit.
pub open spec fn hex_digit_value(c: char) -> Option<nat> {
    if '0' <= c <= '9' {
        Some((c as nat - '0' as nat) as nat)
    } else if 'a' <= c <= 'f' {
        Some((c as nat - 'a' as nat + 10) as nat)
    } else if 'A' <= c <= 'F' {
        Some((c as nat - 'A' as nat + 10) as nat)
    } else {
        None
    }
}

/// The character that four hexadecimal digits stand for.
pub open spec fn hex_quad(s: Seq<char>) -> Option<char> {
    match (
        hex_digit_value(s[0]),
        hex_digit_value(s[1]),
        hex_digit_value(s[2]),
        hex_digit_value(s[3]),
    ) {
        (Some(a), Some(b), Some(c), Some(d)) => {
            let code = 4096 * a + 256 * b + 16 * c + d;
            if 0xd800 <= code < 0xe000 {
                None
            } else {
                Some(code as char)
            }
        },
        _ => None,
    }
}

/// What the inside of a JSON string starts with, and how long that is, if it
/// is a character.
pub open spec fn json_char(s: Seq<char>) -> Option<(char, int)> {
    if s.len() == 0 || s[0] == '"' || is_control(s[0]) {
        None
    } else if s[0] != '\\' {
        Some((s[0], 1))
    } else if s.len() < 2 {
        None
    } else if s[1] == '"' || s[1] == '\\' || s[1] == '/' {
        Some((s[1], 2))
    } else if s[1] == 'b' {
        Some(('\x08', 2))
    } else if s[1] == 'f' {
        Some(('\x0c', 2))
    } else if s[1] == 'n' {
        Some(('\n', 2))
    } else if s[1] == 'r' {
        Some(('\r', 2))
    } else if s[1] == 't' {
        Some(('\t', 2))
    } else if s[1] == 'u' && s.len() >= 6 {
        match hex_quad(s.subrange(2, 6)) {
            Some(c) => Some((c, 6)),
            None => None,
        }
    } else {
        None
    }
}

/// The text that the inside of a JSON string stands for, if it is one.
pub open spec fn json_text(s: Seq<char>) -> Option<Seq<char>>
    decreases s.len(),
{
    if s.len() == 0 {
        Some(Seq::empty())
    } else {
        match json_char(s) {
            Some((c, n)) => if 0 < n <= s.len() {
                match json_text(s.skip(n)) {
                    Some(rest) => Some(seq![c] + rest),
                    None => None,
                }
            } else {
                None
            },
            None => None,
        }
    }
}

proof fn lemma_escaped_concat(a: Seq<char>, b: Seq<char>)
    ensures
        escaped(a + b) == escaped(a) + escaped(b),
    decreases b.len(),
{
    if b.len() == 0 {
        assert(a + b == a);
        assert(escaped(a) + escaped(b) == escaped(a));
    } else {
        lemma_escaped_concat(a, b.drop_last());
        assert((a + b).drop_last() == a + b.drop_last());
        assert(escaped(a) + escaped(b.drop_last()) + escaped_char(b.last()) == escaped(a) + (escaped(
            b.drop_last(),
        ) + escaped_char(b.last())));
    }
}

proof fn lemma_escaped_char_reads_back(c: char, rest: Seq<char>)
    ensures
        json_char(escaped_char(c) + rest) == Some((c, escaped_char(c).len() as int)),
{
    let s = escaped_char(c) + rest;
    if c != '"' && c != '\\' && c != '\n' && c != '\r' && c != '\t' && is_control(c) {
        let quad = s.subrange(2, 6);
        assert(quad == seq!['0', '0', hex_char(c as nat / 16), hex_char(c as nat % 16)]);
        assert(hex_digit_value('0') == Some(0nat));
        assert(hex_digit_value(hex_char(c as nat / 16)) == Some(c as nat / 16));
        assert(hex_digit_value(hex_char(c as nat % 16)) == Some(c as nat % 16));
    }
}

/// Whatever is written into a JSON string is read back from it as it was.
/// Nothing in it ends the string or the text around it early.
pub proof fn escaped_text_reads_back(s: Seq<char>)
    ensures
        json_text(escaped(s)) == Some(s),
    decreases s.len(),
{
    if s.len() > 0 {
        let rest = s.drop_first();
        escaped_text_reads_back(rest);
        assert(s == seq![s[0]] + rest);
        lemma_escaped_concat(seq![s[0]], rest);
        assert(seq![s[0]].drop_last() == Seq::<char>::empty());
        assert(escaped(seq![s[0]]) == escaped_char(s[0])) by {
            assert(escaped(Seq::<char>::empty()) + escaped_char(s[0]) == escaped_char(s[0]));
        }
        lemma_escaped_char_reads_back(s[0], escaped(rest));
        let n = escaped_char(s[0]).len() as int;
        assert(escaped(s).skip(n) == escaped(rest));
    }
}

/// A hexadecimal digit.
fn hex_char_of(d: u32) -> (c: char)
    requires
        d < 16,
    ensures
        c == hex_char(d as nat),
{
    if d < 10 {
        (48 + d as u8) as char
    } else {
        (87 + d as u8) as char
    }
}

/// The number of a character.
fn code_of(c: char) -> (code: u32)
    ensures
        code == c as nat,
{
    c as u32
}

/// Writes a text for the inside of a JSON string.
pub fn escape_json_string(s: &str) -> (out: String)
    ensures
        out@ == escaped(s@),
{
    let chars = chars_of(s);
    let mut out = String::new();
    let mut i: usize = 0;
    assert(chars@.take(0).len() == 0);
    while i < chars.len()
        invariant
            i <= chars.len(),
            chars@ == s@,
            out@ == escaped(chars@.take(i as int)),
        decreases chars.len() - i,
    {
        let c: char = chars[i];
        let code: u32 = code_of(c);
        assert(chars@.take(i + 1).drop_last() == chars@.take(i as int));
        let ghost before = out@;
        if c == '"' || c == '\\' {
            out.push('\\');
            out.push(c);
        } else if c == '\n' {
            out.push('\\');
            out.push('n');
        } else if c == '\r' {
            out.push('\\');
            out.push('r');
        } else if c == '\t' {
            out.push('\\');
            out.push('t');
        } else if code < 0x20 {
            out.push('\\');
            out.push('u');
            out.push('0');
            out.push('0');
            out.push(hex_char_of(code / 16));
            out.push(hex_char_of(code % 16));
        } else {
            out.push(c);
        }
        assert(out@ == before + escaped_char(c));
        i += 1;
    }
    assert(chars@.take(chars@.len() as int) == s@);
    out
}

/// A description of the device and its driver, as a JSON object.
pub open spec fn described(info: DeviceInfo) -> Seq<char> {
    "{\"gpuName\":\""@ + escaped(info.gpu_name@) + "\",\"driverVersion\":"@ + decimal(
        info.driver_version as nat,
    ) + ",\"vendorId\":"@ + decimal(info.vendor_id as nat) + ",\"deviceId\":"@ + decimal(
        info.device_id as nat,
    ) + ",\"apiVersion\":"@ + decimal(info.api_version as nat) + "}"@
}

/// Describes the device and its driver as a JSON object.
pub fn device_info_json(info: &DeviceInfo) -> (json: String)
    ensures
        json@ == described(*info),
{
    let mut json = "{\"gpuName\":\"".to_string();
    let name = escape_json_string(info.gpu_name.as_str());
    json.append(name.as_str());
    json.append("\",\"driverVersion\":");
    push_decimal(&mut json, info.driver_version as u64);
    json.append(",\"vendorId\":");
    push_decimal(&mut json, info.vendor_id as u64);
    json.append(",\"deviceId\":");
    push_decimal(&mut json, info.device_id as u64);
    json.append(",\"apiVersion\":");
    push_decimal(&mut json, info.api_version as u64);
    json.append("}");
    json
}

/// What the app knows of the device. A text the app could not hand over is
/// missing, and numbers come in signed.
#[derive(Debug)]
pub struct KnownToApp {
    pub gpu_name: Option<String>,
    pub driver_version: i64,
    pub vendor_id: i64,
    pub device_id: i64,
    pub api_version: i64,
    pub android_model: Option<String>,
    pub android_manufacturer: Option<String>,
    pub android_release: Option<String>,
    pub android_sdk_int: i32,
    pub android_fingerprint: Option<String>,
}

/// The lowest 32 bits of a number.
pub open spec fn low_bits(n: int) -> u32 {
    (n % 0x1_0000_0000) as u32
}

/// The record for what the app knows, unless a text is missing.
pub open spec fn record_of(known: KnownToApp) -> Option<DeviceInfoRecord> {
    match (
        known.gpu_name,
        known.android_model,
        known.android_manufacturer,
        known.android_release,
        known.android_fingerprint,
    ) {
        (
            Some(gpu_name),
            Some(android_model),
            Some(android_manufacturer),
            Some(android_release),
            Some(android_fingerprint),
        ) => Some(
            DeviceInfoRecord {
                gpu_name,
                driver_version: low_bits(known.driver_version as int),
                vendor_id: low_bits(known.vendor_id as int),
                device_id: low_bits(known.device_id as int),
                api_version: low_bits(known.api_version as int),
                android_model,
                android_manufacturer,
                android_release,
                android_sdk_int: low_bits(known.android_sdk_int as int),
                android_fingerprint,
            },
        ),
        _ => None,
    }
}

fn low_bits_of(n: i64) -> (bits: u32)
    ensures
        bits == low_bits(n as int),
{
    assert(n as u32 == n % 0x1_0000_0000) by (bit_vector);
    n as u32
}

/// Leaves what the app knows of the device for the bridge, unless a text is
/// missing.
pub fn queue_device_info(slots: &mut PerfSlots, known: KnownToApp)
    ensures
        *final(slots) == (match record_of(known) {
            Some(record) => PerfSlots { device_info: Some(record), ..*old(slots) },
            None => *old(slots),
        }),
{
    match (
        known.gpu_name,
        known.android_model,
        known.android_manufacturer,
        known.android_release,
        known.android_fingerprint,
    ) {
        (
            Some(gpu_name),
            Some(android_model),
            Some(android_manufacturer),
            Some(android_release),
            Some(android_fingerprint),
        ) => {
            set_device_info(
                slots,
                DeviceInfoRecord {
                    gpu_name,
                    driver_version: low_bits_of(known.driver_version),
                    vendor_id: low_bits_of(known.vendor_id),
                    device_id: low_bits_of(known.device_id),
                    api_version: low_bits_of(known.api_version),
                    android_model,
                    android_manufacturer,
                    android_release,
                    android_sdk_int: low_bits_of(known.android_sdk_int as i64),
                    android_fingerprint,
                },
            );
        },
        _ => {},
    }
}

} // verus!
