//! The position-independent-code bootstrap header (crt0): ten little-endian
//! 32-bit words placed immediately after the TBF header, telling the
//! process startup code where to find and relocate its GOT, data and BSS.

use vstd::prelude::*;

use crate::bytes::{push_u32_le, read_u32_le, u32_from_le, u32_le};

verus! {

/// The crt0 header's size in bytes: ten 32-bit words.
pub const CRT0_HEADER_SIZE: usize = 40;

/// The crt0 bootstrap header. Every offset is relative to the start of the
/// app-visible region (`app_start`), the first byte after the TBF header
/// and any protected region.
#[derive(Copy, Clone, PartialEq, Eq, Structural, Debug)]
pub struct Crt0Header {
    /// Offset of the GOT's load image in flash.
    pub got_sym_start: u32,
    /// Offset of the GOT in RAM.
    pub got_start: u32,
    /// Size of the GOT.
    pub got_size: u32,
    /// Offset of the data section's load image in flash.
    pub data_sym_start: u32,
    /// Offset of the data section in RAM.
    pub data_start: u32,
    /// Size of the data section.
    pub data_size: u32,
    /// Offset of the BSS in RAM.
    pub bss_start: u32,
    /// Size of the BSS.
    pub bss_size: u32,
    /// Offset in flash of the relocation table, the first byte after the
    /// program's sections.
    pub reldata_start: u32,
    /// Offset of the text (program code) section in flash.
    pub text_offset: u32,
}

/// The packed little-endian bytes of a crt0 header.
pub open spec fn spec_crt0_bytes(h: Crt0Header) -> Seq<u8> {
    u32_le(h.got_sym_start) + u32_le(h.got_start) + u32_le(h.got_size) + u32_le(h.data_sym_start)
        + u32_le(h.data_start) + u32_le(h.data_size) + u32_le(h.bss_start) + u32_le(h.bss_size)
        + u32_le(h.reldata_start) + u32_le(h.text_offset)
}

impl Crt0Header {
    /// Appends the header's packed little-endian bytes.
    pub fn emit(&self, out: &mut Vec<u8>)
        ensures
            final(out)@ == old(out)@ + spec_crt0_bytes(*self),
    {
        push_u32_le(out, self.got_sym_start);
        push_u32_le(out, self.got_start);
        push_u32_le(out, self.got_size);
        push_u32_le(out, self.data_sym_start);
        push_u32_le(out, self.data_start);
        push_u32_le(out, self.data_size);
        push_u32_le(out, self.bss_start);
        push_u32_le(out, self.bss_size);
        push_u32_le(out, self.reldata_start);
        push_u32_le(out, self.text_offset);
        proof {
            assert(out@ =~= old(out)@ + spec_crt0_bytes(*self));
        }
    }
}

/// The header denoted by forty bytes at `off` in `s`, read little-endian.
pub open spec fn spec_parse_crt0(s: Seq<u8>, off: int) -> Crt0Header
    recommends
        0 <= off,
        off + CRT0_HEADER_SIZE <= s.len(),
{
    Crt0Header {
        got_sym_start: u32_from_le(s[off], s[off + 1], s[off + 2], s[off + 3]),
        got_start: u32_from_le(s[off + 4], s[off + 5], s[off + 6], s[off + 7]),
        got_size: u32_from_le(s[off + 8], s[off + 9], s[off + 10], s[off + 11]),
        data_sym_start: u32_from_le(s[off + 12], s[off + 13], s[off + 14], s[off + 15]),
        data_start: u32_from_le(s[off + 16], s[off + 17], s[off + 18], s[off + 19]),
        data_size: u32_from_le(s[off + 20], s[off + 21], s[off + 22], s[off + 23]),
        bss_start: u32_from_le(s[off + 24], s[off + 25], s[off + 26], s[off + 27]),
        bss_size: u32_from_le(s[off + 28], s[off + 29], s[off + 30], s[off + 31]),
        reldata_start: u32_from_le(s[off + 32], s[off + 33], s[off + 34], s[off + 35]),
        text_offset: u32_from_le(s[off + 36], s[off + 37], s[off + 38], s[off + 39]),
    }
}

/// Reads the crt0 header stored at `off` in `b`.
pub fn parse_crt0(b: &Vec<u8>, off: usize) -> (r: Crt0Header)
    requires
        off + CRT0_HEADER_SIZE <= b@.len(),
    ensures
        r == spec_parse_crt0(b@, off as int),
{
    let n = b.len();
    assert(off + CRT0_HEADER_SIZE <= n);
    Crt0Header {
        got_sym_start: read_u32_le(b, off),
        got_start: read_u32_le(b, off + 4),
        got_size: read_u32_le(b, off + 8),
        data_sym_start: read_u32_le(b, off + 12),
        data_start: read_u32_le(b, off + 16),
        data_size: read_u32_le(b, off + 20),
        bss_start: read_u32_le(b, off + 24),
        bss_size: read_u32_le(b, off + 28),
        reldata_start: read_u32_le(b, off + 32),
        text_offset: read_u32_le(b, off + 36),
    }
}

/// Parsing the emitted bytes of a crt0 header gives the header back.
pub proof fn lemma_crt0_round_trip(h: Crt0Header)
    ensures
        spec_parse_crt0(spec_crt0_bytes(h), 0) == h,
{
    crate::bytes::lemma_u32_le_round_trip(h.got_sym_start);
    crate::bytes::lemma_u32_le_round_trip(h.got_start);
    crate::bytes::lemma_u32_le_round_trip(h.got_size);
    crate::bytes::lemma_u32_le_round_trip(h.data_sym_start);
    crate::bytes::lemma_u32_le_round_trip(h.data_start);
    crate::bytes::lemma_u32_le_round_trip(h.data_size);
    crate::bytes::lemma_u32_le_round_trip(h.bss_start);
    crate::bytes::lemma_u32_le_round_trip(h.bss_size);
    crate::bytes::lemma_u32_le_round_trip(h.reldata_start);
    crate::bytes::lemma_u32_le_round_trip(h.text_offset);
}

} // verus!
