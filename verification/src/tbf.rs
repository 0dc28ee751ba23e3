//! The TBF (Tock Binary Format) header: the packed little-endian structure
//! at the front of every application image in flash, built by the offline
//! image builder and read back by the boot-time loader.
//!
//! A header is a 16-byte base — version, header size, total image size,
//! flags and a checksum — followed by a tail of typed TLV records up to the
//! header size. Emitting and parsing are exact inverses, which
//! [`lemma_tbf_round_trip`] states and proves.

use vstd::prelude::*;

use crate::bytes::{
    pad4, push_u16_le, push_u32_le, push_zeros, read_u16_le, read_u32_le, u16_from_le, u16_le,
    u32_from_le, u32_le, zeros,
};

verus! {

/// The TBF header version this format describes.
pub const TBF_VERSION: u16 = 2;

/// TLV record holding the main fields: init-function offset, protected
/// size, and minimum RAM.
pub const TLV_MAIN: u16 = 1;

/// TLV record naming a writeable flash region: offset and size.
pub const TLV_WRITEABLE_FLASH: u16 = 2;

/// TLV record carrying the package name (UTF-8, no NUL).
pub const TLV_PACKAGE_NAME: u16 = 3;

/// TLV record locating the app-state region: offset and size.
pub const TLV_APP_STATE: u16 = 4;

/// TLV record fixing load addresses: RAM and flash.
pub const TLV_FIXED_ADDRESS: u16 = 5;

/// The checksum of a header base: the XOR of the three 32-bit words that
/// precede the checksum field.
pub open spec fn spec_checksum(version: u16, header_size: u16, total_size: u32, flags: u32) -> u32 {
    ((version as u32) | ((header_size as u32) << 16)) ^ total_size ^ flags
}

/// What a TLV tail says: the typed records found in it, first occurrence
/// winning, unknown types skipped.
pub struct TlvSummary {
    pub main: Option<(u32, u32, u32)>,
    pub writeable_flash: Option<(u32, u32)>,
    pub package_name: Option<Seq<u8>>,
    pub app_state: Option<(u32, u32)>,
    pub fixed_address: Option<(u32, u32)>,
}

impl TlvSummary {
    /// A tail with no records.
    pub open spec fn empty() -> TlvSummary {
        TlvSummary {
            main: None,
            writeable_flash: None,
            package_name: None,
            app_state: None,
            fixed_address: None,
        }
    }
}

/// Scans the TLV records of `s` from `i` up to `end`. Each record is a
/// 16-bit type, a 16-bit value length, the value, and padding up to a
/// four-byte boundary. Scanning stops where no whole record fits.
pub open spec fn spec_scan_tlvs(s: Seq<u8>, i: int, end: int) -> TlvSummary
    decreases end - i,
{
    if i < 0 || i + 4 > end || end > s.len() {
        TlvSummary::empty()
    } else {
        let t = u16_from_le(s[i], s[i + 1]);
        let l = u16_from_le(s[i + 2], s[i + 3]) as int;
        if i + 4 + l > end {
            TlvSummary::empty()
        } else {
            let next = i + 4 + l + pad4(l);
            let rest = if next <= end {
                spec_scan_tlvs(s, next, end)
            } else {
                TlvSummary::empty()
            };
            if t == TLV_MAIN && l == 12 {
                TlvSummary {
                    main: Some(
                        (
                            u32_from_le(s[i + 4], s[i + 5], s[i + 6], s[i + 7]),
                            u32_from_le(s[i + 8], s[i + 9], s[i + 10], s[i + 11]),
                            u32_from_le(s[i + 12], s[i + 13], s[i + 14], s[i + 15]),
                        ),
                    ),
                    ..rest
                }
            } else if t == TLV_WRITEABLE_FLASH && l == 8 {
                TlvSummary {
                    writeable_flash: Some(
                        (
                            u32_from_le(s[i + 4], s[i + 5], s[i + 6], s[i + 7]),
                            u32_from_le(s[i + 8], s[i + 9], s[i + 10], s[i + 11]),
                        ),
                    ),
                    ..rest
                }
            } else if t == TLV_PACKAGE_NAME {
                TlvSummary { package_name: Some(s.subrange(i + 4, i + 4 + l)), ..rest }
            } else if t == TLV_APP_STATE && l == 8 {
                TlvSummary {
                    app_state: Some(
                        (
                            u32_from_le(s[i + 4], s[i + 5], s[i + 6], s[i + 7]),
                            u32_from_le(s[i + 8], s[i + 9], s[i + 10], s[i + 11]),
                        ),
                    ),
                    ..rest
                }
            } else if t == TLV_FIXED_ADDRESS && l == 8 {
                TlvSummary {
                    fixed_address: Some(
                        (
                            u32_from_le(s[i + 4], s[i + 5], s[i + 6], s[i + 7]),
                            u32_from_le(s[i + 8], s[i + 9], s[i + 10], s[i + 11]),
                        ),
                    ),
                    ..rest
                }
            } else {
                rest
            }
        }
    }
}

/// The fields a well-formed header denotes.
pub struct TbfFields {
    pub version: u16,
    pub header_size: u16,
    pub total_size: u32,
    pub flags: u32,
    pub init_fn_offset: u32,
    pub protected_size: u32,
    pub minimum_ram_size: u32,
    pub package_name: Option<Seq<u8>>,
    pub app_state: Option<(u32, u32)>,
}

/// Parses the header found at `off` in `s`: reads and checks the base —
/// version, checksum — then scans the TLV tail up to the header size. The
/// main record is required; a header without one denotes no loadable
/// application.
pub open spec fn spec_parse_tbf(s: Seq<u8>, off: int) -> Option<TbfFields> {
    if off < 0 || off + 16 > s.len() {
        None
    } else {
        let version = u16_from_le(s[off], s[off + 1]);
        let header_size = u16_from_le(s[off + 2], s[off + 3]);
        let total_size = u32_from_le(s[off + 4], s[off + 5], s[off + 6], s[off + 7]);
        let flags = u32_from_le(s[off + 8], s[off + 9], s[off + 10], s[off + 11]);
        let checksum = u32_from_le(s[off + 12], s[off + 13], s[off + 14], s[off + 15]);
        if version != TBF_VERSION {
            None
        } else if checksum != spec_checksum(version, header_size, total_size, flags) {
            None
        } else if header_size < 16 || off + header_size > s.len() {
            None
        } else {
            let tail = spec_scan_tlvs(s, off + 16, off + header_size);
            match tail.main {
                Some((init_fn_offset, protected_size, minimum_ram_size)) => Some(
                    TbfFields {
                        version,
                        header_size,
                        total_size,
                        flags,
                        init_fn_offset,
                        protected_size,
                        minimum_ram_size,
                        package_name: tail.package_name,
                        app_state: tail.app_state,
                    },
                ),
                None => None,
            }
        }
    }
}

/// Whether a header's flags mark the application enabled (bit zero).
pub open spec fn spec_enabled(flags: u32) -> bool {
    flags & 1 == 1
}

/// An in-flash TBF header under construction: the builder fills the sizes
/// and offsets in as it lays the image out, then emits the packed bytes.
pub struct TbfHeader {
    /// Header format version; always two.
    pub version: u16,
    /// Total length of the emitted header in bytes.
    pub header_size: u16,
    /// Total size of the image, header and padding included.
    pub total_size: u32,
    /// Flag word; bit zero marks the application enabled.
    pub flags: u32,
    /// Offset of the process entry point, relative to the end of the
    /// protected region.
    pub init_fn_offset: u32,
    /// Bytes after the header that the kernel protects from the process.
    pub protected_size: u32,
    /// The least RAM the application asks the kernel for.
    pub minimum_ram_size: u32,
    /// Whether the image carries a writeable app-state region.
    pub has_app_state: bool,
    /// Offset of the app-state region within the image.
    pub appstate_offset: u32,
    /// Size of the app-state region.
    pub appstate_size: u32,
    /// The package name, UTF-8 with no NUL; empty for none.
    pub package_name: Vec<u8>,
}

/// The length of the header `h` emits: the 16-byte base, the 16-byte main
/// record, an app-state record when one is carried, and a padded
/// package-name record when the name is not empty.
pub open spec fn spec_header_len(h: TbfHeader) -> int {
    32 + (if h.has_app_state {
        12int
    } else {
        0int
    }) + (if h.package_name@.len() > 0 {
        4 + h.package_name@.len() + pad4(h.package_name@.len() as int)
    } else {
        0int
    })
}

/// The packed little-endian bytes the header emits.
pub open spec fn spec_header_bytes(h: TbfHeader) -> Seq<u8> {
    u16_le(h.version) + u16_le(h.header_size) + u32_le(h.total_size) + u32_le(h.flags) + u32_le(
        spec_checksum(h.version, h.header_size, h.total_size, h.flags),
    ) + u16_le(TLV_MAIN) + u16_le(12) + u32_le(h.init_fn_offset) + u32_le(h.protected_size)
        + u32_le(h.minimum_ram_size) + (if h.has_app_state {
        u16_le(TLV_APP_STATE) + u16_le(8) + u32_le(h.appstate_offset) + u32_le(h.appstate_size)
    } else {
        Seq::<u8>::empty()
    }) + (if h.package_name@.len() > 0 {
        u16_le(TLV_PACKAGE_NAME) + u16_le(h.package_name@.len() as u16) + h.package_name@
            + zeros(pad4(h.package_name@.len() as int) as nat)
    } else {
        Seq::<u8>::empty()
    })
}

impl TbfHeader {
    /// A header fit to emit: correct version, a name short enough for its
    /// record, and the header size that its own layout gives.
    pub open spec fn wf(self) -> bool {
        &&& self.version == TBF_VERSION
        &&& self.package_name@.len() <= 0xffff
        &&& self.header_size == spec_header_len(self)
    }

    /// An empty header: nothing set, nothing carried.
    pub fn new() -> (r: TbfHeader)
        ensures
            r.version == TBF_VERSION,
            r.total_size == 0,
            r.package_name@.len() == 0,
            !r.has_app_state,
    {
        TbfHeader {
            version: TBF_VERSION,
            header_size: 0,
            total_size: 0,
            flags: 0,
            init_fn_offset: 0,
            protected_size: 0,
            minimum_ram_size: 0,
            has_app_state: false,
            appstate_offset: 0,
            appstate_size: 0,
            package_name: Vec::new(),
        }
    }

    /// Fills the first-pass fields — minimum RAM, whether an app-state
    /// record is carried, and the package name — marks the application
    /// enabled, and fixes the header size. Returns that size: the offsets
    /// of everything after the header are measured from it.
    pub fn create(&mut self, minimum_ram_size: u32, has_app_state: bool, package_name: Vec<u8>) -> (r: usize)
        requires
            old(self).version == TBF_VERSION,
            package_name@.len() <= 0xff00,
        ensures
            final(self).wf(),
            r == final(self).header_size,
            r == spec_header_len(*final(self)),
            final(self).version == TBF_VERSION,
            final(self).flags == 1,
            final(self).minimum_ram_size == minimum_ram_size,
            final(self).has_app_state == has_app_state,
            final(self).package_name == package_name,
            final(self).total_size == old(self).total_size,
            final(self).init_fn_offset == old(self).init_fn_offset,
            final(self).appstate_offset == old(self).appstate_offset,
            final(self).appstate_size == old(self).appstate_size,
            final(self).protected_size == old(self).protected_size,
    {
        self.minimum_ram_size = minimum_ram_size;
        self.has_app_state = has_app_state;
        let name_len = package_name.len();
        self.package_name = package_name;
        self.flags = 1;
        let mut size: usize = 32;
        if has_app_state {
            size = size + 12;
        }
        if name_len > 0 {
            size = size + 4 + name_len + crate::bytes::pad4_for(name_len);
        }
        assert(size <= 0xffff);
        self.header_size = size as u16;
        size
    }

    /// Records the image's total size.
    pub fn set_total_size(&mut self, total_size: u32)
        ensures
            (*final(self) == TbfHeader { total_size, ..*old(self) }),
    {
        self.total_size = total_size;
    }

    /// Records the entry-point offset.
    pub fn set_init_fn_offset(&mut self, init_fn_offset: u32)
        ensures
            (*final(self) == TbfHeader { init_fn_offset, ..*old(self) }),
    {
        self.init_fn_offset = init_fn_offset;
    }

    /// Records where the app-state region came to rest and how large it is.
    pub fn set_appstate_values(&mut self, offset: u32, size: u32)
        ensures
            (*final(self) == TbfHeader {
                appstate_offset: offset,
                appstate_size: size,
                ..*old(self)
            }),
    {
        self.appstate_offset = offset;
        self.appstate_size = size;
    }

    /// Emits the packed little-endian header bytes.
    pub fn generate(&self) -> (r: Vec<u8>)
        requires
            self.package_name@.len() <= 0xffff,
        ensures
            r@ == spec_header_bytes(*self),
            r@.len() == spec_header_len(*self),
    {
        let mut out: Vec<u8> = Vec::new();
        push_u16_le(&mut out, self.version);
        push_u16_le(&mut out, self.header_size);
        push_u32_le(&mut out, self.total_size);
        push_u32_le(&mut out, self.flags);
        let checksum = ((self.version as u32) | ((self.header_size as u32) << 16))
            ^ self.total_size ^ self.flags;
        push_u32_le(&mut out, checksum);
        push_u16_le(&mut out, TLV_MAIN);
        push_u16_le(&mut out, 12);
        push_u32_le(&mut out, self.init_fn_offset);
        push_u32_le(&mut out, self.protected_size);
        push_u32_le(&mut out, self.minimum_ram_size);
        if self.has_app_state {
            push_u16_le(&mut out, TLV_APP_STATE);
            push_u16_le(&mut out, 8);
            push_u32_le(&mut out, self.appstate_offset);
            push_u32_le(&mut out, self.appstate_size);
        }
        if self.package_name.len() > 0 {
            push_u16_le(&mut out, TLV_PACKAGE_NAME);
            push_u16_le(&mut out, self.package_name.len() as u16);
            let mut k: usize = 0;
            let name_len = self.package_name.len();
            let ghost before = out@;
            while k < name_len
                invariant
                    k <= name_len,
                    name_len == self.package_name@.len(),
                    out@ == before + self.package_name@.subrange(0, k as int),
                decreases name_len - k,
            {
                out.push(self.package_name[k]);
                proof {
                    assert(out@ =~= before + self.package_name@.subrange(0, k + 1));
                }
                k = k + 1;
            }
            proof {
                assert(self.package_name@.subrange(0, name_len as int) =~= self.package_name@);
            }
            let pad = crate::bytes::pad4_for(name_len);
            push_zeros(&mut out, pad);
        }
        proof {
            assert(out@ =~= spec_header_bytes(*self));
        }
        out
    }
}

/// The records found in a TLV tail, with the package name held as bytes.
pub struct TlvRecords {
    pub main: Option<(u32, u32, u32)>,
    pub writeable_flash: Option<(u32, u32)>,
    pub package_name: Option<Vec<u8>>,
    pub app_state: Option<(u32, u32)>,
    pub fixed_address: Option<(u32, u32)>,
}

impl View for TlvRecords {
    type V = TlvSummary;

    open spec fn view(&self) -> TlvSummary {
        TlvSummary {
            main: self.main,
            writeable_flash: self.writeable_flash,
            package_name: match self.package_name {
                Some(n) => Some(n@),
                None => None,
            },
            app_state: self.app_state,
            fixed_address: self.fixed_address,
        }
    }
}

/// Scans the TLV records of `b` from `i` up to `end`, as
/// [`spec_scan_tlvs`] reads them.
pub fn scan_tlvs(b: &Vec<u8>, i: usize, end: usize) -> (r: TlvRecords)
    requires
        i <= end,
        end <= b@.len(),
        end <= 0x7fff_ffff,
    ensures
        r@ == spec_scan_tlvs(b@, i as int, end as int),
    decreases end - i,
{
    let empty = TlvRecords {
        main: None,
        writeable_flash: None,
        package_name: None,
        app_state: None,
        fixed_address: None,
    };
    if end - i < 4 {
        return empty;
    }
    let t = read_u16_le(b, i);
    let l = read_u16_le(b, i + 2) as usize;
    if l > end - (i + 4) {
        return empty;
    }
    let next = i + 4 + l + crate::bytes::pad4_for(l);
    let rest = if next <= end {
        scan_tlvs(b, next, end)
    } else {
        empty
    };
    if t == TLV_MAIN && l == 12 {
        TlvRecords {
            main: Some(
                (read_u32_le(b, i + 4), read_u32_le(b, i + 8), read_u32_le(b, i + 12)),
            ),
            ..rest
        }
    } else if t == TLV_WRITEABLE_FLASH && l == 8 {
        TlvRecords {
            writeable_flash: Some((read_u32_le(b, i + 4), read_u32_le(b, i + 8))),
            ..rest
        }
    } else if t == TLV_PACKAGE_NAME {
        TlvRecords { package_name: Some(crate::bytes::copy_range(b, i + 4, l)), ..rest }
    } else if t == TLV_APP_STATE && l == 8 {
        TlvRecords { app_state: Some((read_u32_le(b, i + 4), read_u32_le(b, i + 8))), ..rest }
    } else if t == TLV_FIXED_ADDRESS && l == 8 {
        TlvRecords {
            fixed_address: Some((read_u32_le(b, i + 4), read_u32_le(b, i + 8))),
            ..rest
        }
    } else {
        rest
    }
}

/// A parsed TBF header: the base fields and the records of its TLV tail.
pub struct ParsedTbf {
    pub version: u16,
    pub header_size: u16,
    pub total_size: u32,
    pub flags: u32,
    pub init_fn_offset: u32,
    pub protected_size: u32,
    pub minimum_ram_size: u32,
    pub package_name: Option<Vec<u8>>,
    pub app_state: Option<(u32, u32)>,
}

impl View for ParsedTbf {
    type V = TbfFields;

    open spec fn view(&self) -> TbfFields {
        TbfFields {
            version: self.version,
            header_size: self.header_size,
            total_size: self.total_size,
            flags: self.flags,
            init_fn_offset: self.init_fn_offset,
            protected_size: self.protected_size,
            minimum_ram_size: self.minimum_ram_size,
            package_name: match self.package_name {
                Some(n) => Some(n@),
                None => None,
            },
            app_state: self.app_state,
        }
    }
}

/// Parses the TBF header found at `off` in `b`, exactly as
/// [`spec_parse_tbf`] reads it: the version and checksum are checked, the
/// TLV tail is scanned, and a header without a main record yields nothing.
pub fn parse_tbf(b: &Vec<u8>, off: usize) -> (r: Option<ParsedTbf>)
    requires
        b@.len() <= 0x7fff_ffff,
    ensures
        (match r {
            Some(p) => spec_parse_tbf(b@, off as int) == Some(p@),
            None => spec_parse_tbf(b@, off as int) is None,
        }),
{
    let n = b.len();
    if off > n || n - off < 16 {
        return None;
    }
    let version = read_u16_le(b, off);
    let header_size = read_u16_le(b, off + 2);
    let total_size = read_u32_le(b, off + 4);
    let flags = read_u32_le(b, off + 8);
    let checksum = read_u32_le(b, off + 12);
    if version != TBF_VERSION {
        return None;
    }
    if checksum != (((version as u32) | ((header_size as u32) << 16)) ^ total_size ^ flags) {
        return None;
    }
    if header_size < 16 || (header_size as usize) > n - off {
        return None;
    }
    let tail = scan_tlvs(b, off + 16, off + header_size as usize);
    match tail.main {
        Some((init_fn_offset, protected_size, minimum_ram_size)) => Some(
            ParsedTbf {
                version,
                header_size,
                total_size,
                flags,
                init_fn_offset,
                protected_size,
                minimum_ram_size,
                package_name: tail.package_name,
                app_state: tail.app_state,
            },
        ),
        None => None,
    }
}

/// Whether a flag word marks the application enabled (bit zero).
pub fn tbf_flags_enabled(flags: u32) -> (r: bool)
    ensures
        r == spec_enabled(flags),
{
    flags & 1 == 1
}

/// Emitting a well-formed header and parsing the bytes back gives exactly
/// the fields that were set: parsing is the inverse of emission.
#[verifier::rlimit(100)]
pub proof fn lemma_tbf_round_trip(h: TbfHeader)
    requires
        h.wf(),
    ensures
        (spec_parse_tbf(spec_header_bytes(h), 0) == Some(
            TbfFields {
                version: h.version,
                header_size: h.header_size,
                total_size: h.total_size,
                flags: h.flags,
                init_fn_offset: h.init_fn_offset,
                protected_size: h.protected_size,
                minimum_ram_size: h.minimum_ram_size,
                package_name: if h.package_name@.len() > 0 {
                    Some(h.package_name@)
                } else {
                    None::<Seq<u8>>
                },
                app_state: if h.has_app_state {
                    Some((h.appstate_offset, h.appstate_size))
                } else {
                    None::<(u32, u32)>
                },
            },
        )),
{
    let s = spec_header_bytes(h);
    crate::bytes::lemma_u16_le_round_trip(h.version);
    crate::bytes::lemma_u16_le_round_trip(h.header_size);
    crate::bytes::lemma_u32_le_round_trip(h.total_size);
    crate::bytes::lemma_u32_le_round_trip(h.flags);
    crate::bytes::lemma_u32_le_round_trip(
        spec_checksum(h.version, h.header_size, h.total_size, h.flags),
    );
    crate::bytes::lemma_u16_le_round_trip(TLV_MAIN);
    crate::bytes::lemma_u16_le_round_trip(12);
    crate::bytes::lemma_u32_le_round_trip(h.init_fn_offset);
    crate::bytes::lemma_u32_le_round_trip(h.protected_size);
    crate::bytes::lemma_u32_le_round_trip(h.minimum_ram_size);
    crate::bytes::lemma_u16_le_round_trip(TLV_APP_STATE);
    crate::bytes::lemma_u16_le_round_trip(8);
    crate::bytes::lemma_u32_le_round_trip(h.appstate_offset);
    crate::bytes::lemma_u32_le_round_trip(h.appstate_size);
    crate::bytes::lemma_u16_le_round_trip(TLV_PACKAGE_NAME);
    crate::bytes::lemma_u16_le_round_trip(h.package_name@.len() as u16);
    assert(s.len() == spec_header_len(h));
    let name_len = h.package_name@.len() as int;
    let end = h.header_size as int;
    let empty = TlvSummary::empty();
    assert(spec_scan_tlvs(s, end, end) == empty);
    if h.has_app_state {
        if name_len > 0 {
            assert(s.subrange(48, 48 + name_len) =~= h.package_name@);
            assert(spec_scan_tlvs(s, 44, end) == (TlvSummary {
                package_name: Some(h.package_name@),
                ..empty
            }));
            assert(spec_scan_tlvs(s, 32, end) == (TlvSummary {
                package_name: Some(h.package_name@),
                app_state: Some((h.appstate_offset, h.appstate_size)),
                ..empty
            }));
            assert(spec_scan_tlvs(s, 16, end) == (TlvSummary {
                main: Some((h.init_fn_offset, h.protected_size, h.minimum_ram_size)),
                package_name: Some(h.package_name@),
                app_state: Some((h.appstate_offset, h.appstate_size)),
                ..empty
            }));
        } else {
            assert(spec_scan_tlvs(s, 32, end) == (TlvSummary {
                app_state: Some((h.appstate_offset, h.appstate_size)),
                ..empty
            }));
            assert(spec_scan_tlvs(s, 16, end) == (TlvSummary {
                main: Some((h.init_fn_offset, h.protected_size, h.minimum_ram_size)),
                app_state: Some((h.appstate_offset, h.appstate_size)),
                ..empty
            }));
        }
    } else {
        if name_len > 0 {
            assert(s.subrange(36, 36 + name_len) =~= h.package_name@);
            assert(spec_scan_tlvs(s, 32, end) == (TlvSummary {
                package_name: Some(h.package_name@),
                ..empty
            }));
            assert(spec_scan_tlvs(s, 16, end) == (TlvSummary {
                main: Some((h.init_fn_offset, h.protected_size, h.minimum_ram_size)),
                package_name: Some(h.package_name@),
                ..empty
            }));
        } else {
            assert(spec_scan_tlvs(s, 16, end) == (TlvSummary {
                main: Some((h.init_fn_offset, h.protected_size, h.minimum_ram_size)),
                ..empty
            }));
        }
    }
}

} // verus!
