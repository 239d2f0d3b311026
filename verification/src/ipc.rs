//! Framing of messages on the local socket: a four-byte big-endian length
//! followed by the JSON payload.
use vstd::prelude::*;

verus! {

/// Path of the Unix socket shared by the shell and the daemon.
pub const SOCKET_PATH: &'static str = "/tmp/ai-os.sock";

/// Big-endian bytes of a 32-bit value.
pub open spec fn be_bytes(n: u32) -> Seq<u8> {
    seq![
        (n / 0x100_0000) as u8,
        ((n / 0x1_0000) % 0x100) as u8,
        ((n / 0x100) % 0x100) as u8,
        (n % 0x100) as u8,
    ]
}

/// The value whose big-endian bytes are `b`.
pub open spec fn be_value(b: Seq<u8>) -> int {
    b[0] * 0x100_0000 + b[1] * 0x1_0000 + b[2] * 0x100 + b[3]
}

/// The length header for a payload of `len` bytes (the length is taken
/// modulo 2^32, as a cast to `u32` does).
pub fn frame_header(len: usize) -> (h: [u8; 4])
    ensures
        h@ == be_bytes(len as u32),
{
    let n = len as u32;
    let h = [
        (n / 0x100_0000) as u8,
        ((n / 0x1_0000) % 0x100) as u8,
        ((n / 0x100) % 0x100) as u8,
        (n % 0x100) as u8,
    ];
    assert(h@ =~= be_bytes(len as u32));
    h
}

/// The payload length announced by a header.
pub fn frame_length(h: [u8; 4]) -> (len: usize)
    ensures
        len == be_value(h@),
{
    let n: u32 = (h[0] as u32) * 0x100_0000 + (h[1] as u32) * 0x1_0000 + (h[2] as u32) * 0x100 + (h[3] as u32);
    n as usize
}

/// A complete frame: the header followed by the payload.
pub fn encode_frame(payload: &[u8]) -> (f: Vec<u8>)
    ensures
        f@ == be_bytes(payload@.len() as u32) + payload@,
{
    let h = frame_header(payload.len());
    let mut f: Vec<u8> = Vec::new();
    f.push(h[0]);
    f.push(h[1]);
    f.push(h[2]);
    f.push(h[3]);
    let mut i: usize = 0;
    while i < payload.len()
        invariant
            i <= payload@.len(),
            h@ == be_bytes(payload@.len() as u32),
            f@ == h@ + payload@.subrange(0, i as int),
        decreases payload@.len() - i,
    {
        f.push(payload[i]);
        i = i + 1;
    }
    assert(payload@.subrange(0, payload@.len() as int) =~= payload@);
    f
}

/// Reading a header gives back the length that was written into it.
pub proof fn lemma_frame_roundtrip(n: u32)
    ensures
        be_value(be_bytes(n)) == n,
{
}

} // verus!
