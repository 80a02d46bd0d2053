//! Queuing of bytes for the serial transmitter.
//!
//! The transmitter accepts one byte at a time and sends them in the order in
//! which it got them. The functions here decide which bytes go out and in
//! what order, by appending them to a queue; whoever owns the port drains the
//! queue into it, oldest byte first.

use vstd::prelude::*;
use vstd::string::StringSliceAdditionalSpecFns;

verus! {

/// Carriage return.
pub const CR: u8 = 0x0D;

/// Line feed.
pub const LF: u8 = 0x0A;

/// Queues the byte `b` behind what is already waiting.
pub fn serial_write_byte(line: &mut Vec<u8>, b: u8)
    ensures
        final(line)@ == old(line)@.push(b),
{
    line.push(b);
}

/// Queues the bytes of `s`, in their order, behind what is already waiting.
pub fn serial_write_string(line: &mut Vec<u8>, s: &str)
    ensures
        final(line)@ == old(line)@ + s.spec_bytes(),
{
    let bytes = s.as_bytes();
    let mut i: usize = 0;
    while i < bytes.len()
        invariant
            i <= bytes@.len(),
            bytes@ == s.spec_bytes(),
            line@ == old(line)@ + bytes@.take(i as int),
        decreases bytes@.len() - i,
    {
        serial_write_byte(line, bytes[i]);
        assert(bytes@.take(i + 1) =~= bytes@.take(i as int).push(bytes@[i as int]));
        i = i + 1;
    }
    assert(bytes@.take(i as int) =~= bytes@);
}

/// Queues a line break: a carriage return, then a line feed.
pub fn serial_newline(line: &mut Vec<u8>)
    ensures
        final(line)@ == old(line)@ + seq![CR, LF],
{
    serial_write_byte(line, CR);
    serial_write_byte(line, LF);
    assert(line@ =~= old(line)@ + seq![CR, LF]);
}

} // verus!
