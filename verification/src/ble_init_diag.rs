//! Lines that mark the vendor stages of the BLE enable request.

use crate::render::{append, append_hex, append_text, hex8};
use vstd::prelude::*;
use vstd::string::*;

verus! {

/// Before a stage without a status.
pub open spec fn stage_begin_line(name: Seq<u8>) -> Seq<u8> {
    "RFDBG_BLE_B1_STAGE_BEGIN name=".spec_bytes() + name + "\r\n".spec_bytes()
}

pub fn stage_begin(name: &[u8]) -> (line: Vec<u8>)
    ensures
        line@ == stage_begin_line(name@),
{
    let mut line: Vec<u8> = Vec::new();
    append_text(&mut line, "RFDBG_BLE_B1_STAGE_BEGIN name=");
    append(&mut line, name);
    append_text(&mut line, "\r\n");
    assert(line@ =~= stage_begin_line(name@));
    line
}

/// After a stage without a status.
pub open spec fn stage_end_line(name: Seq<u8>) -> Seq<u8> {
    "RFDBG_BLE_B1_STAGE_END name=".spec_bytes() + name + "\r\n".spec_bytes()
}

pub fn stage_end(name: &[u8]) -> (line: Vec<u8>)
    ensures
        line@ == stage_end_line(name@),
{
    let mut line: Vec<u8> = Vec::new();
    append_text(&mut line, "RFDBG_BLE_B1_STAGE_END name=");
    append(&mut line, name);
    append_text(&mut line, "\r\n");
    assert(line@ =~= stage_end_line(name@));
    line
}

/// Before a configuration call.
pub open spec fn begin_line(name: Seq<u8>) -> Seq<u8> {
    "RFDBG_BLE_B1_CONFIG_BEGIN name=".spec_bytes() + name + "\r\n".spec_bytes()
}

pub fn trace_begin(name: &[u8]) -> (line: Vec<u8>)
    ensures
        line@ == begin_line(name@),
{
    let mut line: Vec<u8> = Vec::new();
    append_text(&mut line, "RFDBG_BLE_B1_CONFIG_BEGIN name=");
    append(&mut line, name);
    append_text(&mut line, "\r\n");
    assert(line@ =~= begin_line(name@));
    line
}

/// After a configuration call.
pub open spec fn end_line(name: Seq<u8>, status: u32) -> Seq<u8> {
    "RFDBG_BLE_B1_CONFIG_END name=".spec_bytes() + name + " status=0x".spec_bytes()
        + crate::render::hex_of(status) + "\r\n".spec_bytes()
}

pub fn trace_end(name: &[u8], status: u32) -> (line: Vec<u8>)
    ensures
        line@ == end_line(name@, status),
{
    let mut line: Vec<u8> = Vec::new();
    append_text(&mut line, "RFDBG_BLE_B1_CONFIG_END name=");
    append(&mut line, name);
    append_text(&mut line, " status=0x");
    append_hex(&mut line, status);
    append_text(&mut line, "\r\n");
    assert(line@ =~= end_line(name@, status));
    line
}

/// A word in hexadecimal.
pub fn trace_hex32(value: u32) -> (digits: [u8; 8])
    ensures
        digits@ == crate::render::hex_of(value),
{
    hex8(value)
}

/// The first word of a message, the least significant byte first, or zero where
/// there is none.
pub open spec fn word_of(length: u32, payload: Option<Seq<u8>>) -> int {
    match payload {
        Some(bytes) => if length < 4 {
            0
        } else {
            bytes[0] + 0x100 * bytes[1] + 0x1_0000 * bytes[2] + 0x100_0000 * bytes[3]
        },
        None => 0,
    }
}

pub fn payload_word(length: u32, payload: Option<&[u8]>) -> (word: u32)
    requires
        payload matches Some(bytes) ==> bytes@.len() >= length,
    ensures
        word == word_of(
            length,
            match payload {
                Some(bytes) => Some(bytes@),
                None => None,
            },
        ),
{
    match payload {
        Some(bytes) => {
            if length < 4 {
                0
            } else {
                bytes[0] as u32 + 0x100 * bytes[1] as u32 + 0x1_0000 * bytes[2] as u32 + 0x100_0000
                    * bytes[3] as u32
            }
        },
        None => 0,
    }
}

/// A message from the host to the controller.
pub open spec fn h2c_line(destination: u32, message: u32, length: u32, word: u32) -> Seq<u8> {
    "RFDBG_BLE_B1_H2C destination=0x".spec_bytes() + crate::render::hex_of(destination)
        + " message=0x".spec_bytes() + crate::render::hex_of(message) + " length=0x".spec_bytes()
        + crate::render::hex_of(length) + " payload_word=0x".spec_bytes() + crate::render::hex_of(
        word,
    ) + "\r\n".spec_bytes()
}

pub fn trace_h2c(destination: u32, message: u32, length: u32, payload_word: u32) -> (line: Vec<u8>)
    ensures
        line@ == h2c_line(destination, message, length, payload_word),
{
    let mut line: Vec<u8> = Vec::new();
    append_text(&mut line, "RFDBG_BLE_B1_H2C destination=0x");
    append_hex(&mut line, destination);
    append_text(&mut line, " message=0x");
    append_hex(&mut line, message);
    append_text(&mut line, " length=0x");
    append_hex(&mut line, length);
    append_text(&mut line, " payload_word=0x");
    append_hex(&mut line, payload_word);
    append_text(&mut line, "\r\n");
    assert(line@ =~= h2c_line(destination, message, length, payload_word));
    line
}

/// The line after a configuration call tells its status: two lines for one name
/// are the same only where the statuses are.
pub proof fn law_end_line_tells_the_status(name: Seq<u8>, left: u32, right: u32)
    requires
        end_line(name, left) == end_line(name, right),
    ensures
        left == right,
{
    let start = "RFDBG_BLE_B1_CONFIG_END name=".spec_bytes() + name + " status=0x".spec_bytes();
    let tail = "\r\n".spec_bytes();
    let a = crate::render::hex_of(left);
    let b = crate::render::hex_of(right);
    let n = start.len() as int;
    assert(end_line(name, left) =~= start + a + tail);
    assert(end_line(name, right) =~= start + b + tail);
    assert((start + a + tail).subrange(n, n + 8) =~= a);
    assert((start + b + tail).subrange(n, n + 8) =~= b);
    crate::render::law_hex_identifies_the_word(left, right);
}

/// The first word of a message has its least significant byte first, and is zero where
/// there is none of four bytes.
pub proof fn law_first_word_is_read(length: u32, payload: Option<&[u8]>, word: u32)
    requires
        payload matches Some(bytes) ==> bytes@.len() >= length,
        call_ensures(payload_word, (length, payload), word),
    ensures
        payload is None || length < 4 ==> word == 0,
        payload matches Some(bytes) ==> (length >= 4 ==> word == bytes@[0] + 0x100 * bytes@[1]
            + 0x1_0000 * bytes@[2] + 0x100_0000 * bytes@[3]),
{
}

/// A line about a stage or a call ends with a line break, and holds the name as it was
/// given, behind the mark of what it is about.
pub proof fn law_lines_hold_their_names(
    name: &[u8],
    status: u32,
    begun: Vec<u8>,
    ended: Vec<u8>,
    called: Vec<u8>,
    returned: Vec<u8>,
)
    requires
        call_ensures(stage_begin, (name,), begun),
        call_ensures(stage_end, (name,), ended),
        call_ensures(trace_begin, (name,), called),
        call_ensures(trace_end, (name, status), returned),
    ensures
        begun@ == "RFDBG_BLE_B1_STAGE_BEGIN name=".spec_bytes() + name@ + "\r\n".spec_bytes(),
        ended@ == "RFDBG_BLE_B1_STAGE_END name=".spec_bytes() + name@ + "\r\n".spec_bytes(),
        called@ == "RFDBG_BLE_B1_CONFIG_BEGIN name=".spec_bytes() + name@ + "\r\n".spec_bytes(),
        returned@ == "RFDBG_BLE_B1_CONFIG_END name=".spec_bytes() + name@
            + " status=0x".spec_bytes() + crate::render::hex_of(status) + "\r\n".spec_bytes(),
{
}

} // verus!
