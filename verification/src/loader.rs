//! The boot-time application loader: walks the flash region image by
//! image, each header's total size giving the start of the next, and
//! carves each enabled application's RAM out of the top of a fixed
//! app-memory arena (processes grow down). The walk ends at the first
//! invalid header, a zero total size, or an image that does not fit in the
//! remaining flash or RAM; images beyond the slot capacity are ignored.

use vstd::prelude::*;

use crate::bytes::{
    copy_range, push_bytes, push_zeros, read_u32_le, u32_from_le, zeros,
};
use crate::crt0::Crt0Header;
use crate::tbf::{parse_tbf, spec_enabled, spec_parse_tbf, tbf_flags_enabled};

verus! {

/// The alignment each process's RAM carve is rounded up to.
pub const PROCESS_RAM_ALIGN: usize = 8;

/// `n` rounded up to the process-RAM alignment.
pub open spec fn spec_round_up_align(n: int) -> int {
    n + ((8 - n % 8) % 8)
}

/// Rounds a RAM requirement up to the process-RAM alignment.
pub fn round_up_align(n: usize) -> (r: usize)
    requires
        n <= 0xffff_fff0,
    ensures
        r == spec_round_up_align(n as int),
        r % 8 == 0,
        n <= r < n + 8,
{
    n + ((PROCESS_RAM_ALIGN - n % PROCESS_RAM_ALIGN) % PROCESS_RAM_ALIGN)
}

/// One loaded application: where its image lies in flash, the header
/// fields the kernel needs, and the RAM carved for it out of the arena.
#[derive(Copy, Clone, PartialEq, Eq, Structural)]
pub struct LoadedProcess {
    /// Offset of the image's first byte in the flash region.
    pub flash_offset: usize,
    /// The image's total size, header and padding included.
    pub total_size: usize,
    /// Length of the image's TBF header.
    pub header_size: u16,
    /// Offset of the process entry point past the protected region.
    pub init_fn_offset: u32,
    /// Bytes after the header protected from the process.
    pub protected_size: u32,
    /// The RAM the image asked for, before alignment.
    pub minimum_ram_size: u32,
    /// Offset of the process's RAM in the app-memory arena.
    pub ram_start: usize,
    /// Size of the process's RAM carve, aligned.
    pub ram_size: usize,
}

/// The processes loaded by walking `s` from `off` with `ram_left` bytes of
/// arena and `slots_left` process slots still free. A valid but disabled
/// image is stepped over; a valid enabled one is loaded and the next image
/// begins `total_size` later.
pub open spec fn spec_load(s: Seq<u8>, off: int, ram_left: int, slots_left: int) -> Seq<
    LoadedProcess,
>
    decreases s.len() - off,
{
    if off < 0 || off > s.len() {
        Seq::empty()
    } else {
        match spec_parse_tbf(s, off) {
            None => Seq::empty(),
            Some(f) => {
                if f.total_size == 0 || off + f.total_size > s.len() || slots_left <= 0 {
                    Seq::empty()
                } else if !spec_enabled(f.flags) {
                    spec_load(s, off + f.total_size, ram_left, slots_left)
                } else {
                    let required = spec_round_up_align(f.minimum_ram_size as int);
                    if required > ram_left {
                        Seq::empty()
                    } else {
                        let p = LoadedProcess {
                            flash_offset: off as usize,
                            total_size: f.total_size as usize,
                            header_size: f.header_size,
                            init_fn_offset: f.init_fn_offset,
                            protected_size: f.protected_size,
                            minimum_ram_size: f.minimum_ram_size,
                            ram_start: (ram_left - required) as usize,
                            ram_size: required as usize,
                        };
                        Seq::empty().push(p) + spec_load(
                            s,
                            off + f.total_size,
                            ram_left - required,
                            slots_left - 1,
                        )
                    }
                }
            },
        }
    }
}

/// Walks the flash from `off`, loading at most `slots_left` applications
/// into RAM carved from the top `ram_left` bytes of the arena.
fn load_from(flash: &Vec<u8>, off: usize, ram_left: usize, slots_left: usize) -> (r: Vec<
    LoadedProcess,
>)
    requires
        flash@.len() <= 0x7fff_ffff,
        off <= flash@.len(),
        ram_left <= 0x7fff_ffff,
    ensures
        r@ == spec_load(flash@, off as int, ram_left as int, slots_left as int),
        r@.len() <= slots_left,
    decreases flash@.len() - off,
{
    let parsed = parse_tbf(flash, off);
    match parsed {
        None => Vec::new(),
        Some(f) => {
            let total = f.total_size as usize;
            if total == 0 || total > flash.len() - off || slots_left == 0 {
                Vec::new()
            } else if !tbf_flags_enabled(f.flags) {
                load_from(flash, off + total, ram_left, slots_left)
            } else if f.minimum_ram_size as usize > ram_left {
                proof {
                    assert(spec_round_up_align(f.minimum_ram_size as int)
                        >= f.minimum_ram_size as int);
                }
                Vec::new()
            } else {
                let required = round_up_align(f.minimum_ram_size as usize);
                if required > ram_left {
                    Vec::new()
                } else {
                    let p = LoadedProcess {
                        flash_offset: off,
                        total_size: total,
                        header_size: f.header_size,
                        init_fn_offset: f.init_fn_offset,
                        protected_size: f.protected_size,
                        minimum_ram_size: f.minimum_ram_size,
                        ram_start: ram_left - required,
                        ram_size: required,
                    };
                    let rest = load_from(flash, off + total, ram_left - required, slots_left - 1);
                    let mut out: Vec<LoadedProcess> = Vec::new();
                    out.push(p);
                    let mut i: usize = 0;
                    let n = rest.len();
                    while i < n
                        invariant
                            i <= n,
                            n == rest@.len(),
                            out@ == Seq::empty().push(p) + rest@.subrange(0, i as int),
                        decreases n - i,
                    {
                        out.push(rest[i]);
                        proof {
                            assert(out@ =~= Seq::empty().push(p) + rest@.subrange(0, i + 1));
                        }
                        i = i + 1;
                    }
                    proof {
                        assert(rest@.subrange(0, n as int) =~= rest@);
                    }
                    out
                }
            }
        },
    }
}

/// Loads the applications found in `flash` into at most `num_slots`
/// process slots, carving each one's RAM from the top of an arena of
/// `app_memory_size` bytes. Two valid images back to back both load; the
/// walk stops at the first invalid header, and slots past the last loaded
/// image stay empty.
pub fn load_processes(flash: &Vec<u8>, app_memory_size: usize, num_slots: usize) -> (r: Vec<
    LoadedProcess,
>)
    requires
        flash@.len() <= 0x7fff_ffff,
        app_memory_size <= 0x7fff_ffff,
    ensures
        r@ == spec_load(flash@, 0, app_memory_size as int, num_slots as int),
        r@.len() <= num_slots,
{
    load_from(flash, 0, app_memory_size, num_slots)
}

/// One position-independent-code fixup record, as the relocation table
/// stores it: the flash offset (relative to `app_start`) of a 32-bit word
/// to rebase, and the kind choosing the base — zero for the flash base,
/// anything else for the RAM base.
#[derive(Copy, Clone, PartialEq, Eq, Structural, Debug)]
pub struct RelEntry {
    /// Flash offset of the word to patch, relative to `app_start`.
    pub offset: u32,
    /// Which base the word is rebased against.
    pub kind: u32,
}

/// The fixup records stored in `s` between `i` and `end`: pairs of
/// little-endian 32-bit words, read until fewer than eight bytes remain.
pub open spec fn spec_rel_entries(s: Seq<u8>, i: int, end: int) -> Seq<RelEntry>
    decreases end - i,
{
    if i < 0 || i + 8 > end || end > s.len() {
        Seq::empty()
    } else {
        Seq::empty().push(
            RelEntry {
                offset: u32_from_le(s[i], s[i + 1], s[i + 2], s[i + 3]),
                kind: u32_from_le(s[i + 4], s[i + 5], s[i + 6], s[i + 7]),
            },
        ) + spec_rel_entries(s, i + 8, end)
    }
}

/// Reads the fixup records stored in `b` between `i` and `end`.
pub fn parse_rel_entries(b: &Vec<u8>, i: usize, end: usize) -> (r: Vec<RelEntry>)
    requires
        i <= end,
        end <= b@.len(),
        end <= 0x7fff_ffff,
    ensures
        r@ == spec_rel_entries(b@, i as int, end as int),
    decreases end - i,
{
    if end - i < 8 {
        return Vec::new();
    }
    let e = RelEntry { offset: read_u32_le(b, i), kind: read_u32_le(b, i + 4) };
    let rest = parse_rel_entries(b, i + 8, end);
    let mut out: Vec<RelEntry> = Vec::new();
    out.push(e);
    let mut k: usize = 0;
    let n = rest.len();
    while k < n
        invariant
            k <= n,
            n == rest@.len(),
            out@ == Seq::empty().push(e) + rest@.subrange(0, k as int),
        decreases n - k,
    {
        out.push(rest[k]);
        proof {
            assert(out@ =~= Seq::empty().push(e) + rest@.subrange(0, k + 1));
        }
        k = k + 1;
    }
    proof {
        assert(rest@.subrange(0, n as int) =~= rest@);
    }
    out
}

/// A 32-bit pointer rebased: the flash base for kind zero, the RAM base
/// otherwise, added with the wrap-around of 32-bit address arithmetic.
pub open spec fn spec_rebase(value: u32, kind: u32, flash_base: u32, ram_base: u32) -> u32 {
    let base = if kind == 0 {
        flash_base
    } else {
        ram_base
    };
    if base + value > u32::MAX {
        (base + value - 0x1_0000_0000) as u32
    } else {
        (base + value) as u32
    }
}

/// Rebases one 32-bit pointer.
pub fn rebase_word(value: u32, kind: u32, flash_base: u32, ram_base: u32) -> (r: u32)
    ensures
        r == spec_rebase(value, kind, flash_base, ram_base),
{
    let base = if kind == 0 {
        flash_base
    } else {
        ram_base
    };
    base.wrapping_add(value)
}

/// Crt0 section sizes small enough for the RAM image arithmetic.
pub open spec fn spec_crt0_bounded(c: Crt0Header) -> bool {
    &&& c.got_size <= 0x0100_0000
    &&& c.data_size <= 0x0100_0000
    &&& c.bss_size <= 0x0100_0000
}

/// Where a fixup's flash offset lands in the process's initial RAM image:
/// the GOT's load image maps to RAM offset zero, the data section's to
/// just after the GOT. A word outside both load images is left alone.
pub open spec fn spec_ram_target(c: Crt0Header, off: u32) -> Option<int> {
    if c.got_sym_start <= off && off + 4 <= c.got_sym_start + c.got_size {
        Some(off - c.got_sym_start)
    } else if c.data_sym_start <= off && off + 4 <= c.data_sym_start + c.data_size {
        Some(c.got_size + (off - c.data_sym_start))
    } else {
        None
    }
}

/// `s` with the little-endian image of `v` stored at `i`.
pub open spec fn spec_store_le(s: Seq<u8>, i: int, v: u32) -> Seq<u8> {
    s.update(i, (v & 0xff) as u8).update(i + 1, ((v >> 8) & 0xff) as u8).update(
        i + 2,
        ((v >> 16) & 0xff) as u8,
    ).update(i + 3, ((v >> 24) & 0xff) as u8)
}

/// Stores the little-endian image of `v` at `i`.
pub fn write_u32_le_at(b: &mut Vec<u8>, i: usize, v: u32)
    requires
        i + 4 <= old(b)@.len(),
    ensures
        final(b)@ == spec_store_le(old(b)@, i as int, v),
{
    let n = b.len();
    assert(i + 4 <= n);
    b.set(i, (v & 0xff) as u8);
    b.set(i + 1, ((v >> 8) & 0xff) as u8);
    b.set(i + 2, ((v >> 16) & 0xff) as u8);
    b.set(i + 3, ((v >> 24) & 0xff) as u8);
}

/// One fixup applied to the RAM image: the word its offset maps to is read,
/// rebased, and stored back. A fixup aiming outside the image is ignored.
pub open spec fn spec_apply_fixup(ram: Seq<u8>, c: Crt0Header, e: RelEntry, flash_base: u32, ram_base: u32) -> Seq<u8> {
    match spec_ram_target(c, e.offset) {
        Some(p) => if p + 4 <= ram.len() {
            let v = u32_from_le(ram[p], ram[p + 1], ram[p + 2], ram[p + 3]);
            spec_store_le(ram, p, spec_rebase(v, e.kind, flash_base, ram_base))
        } else {
            ram
        },
        None => ram,
    }
}

/// The fixups of a relocation table applied in order.
pub open spec fn spec_apply_fixups(ram: Seq<u8>, c: Crt0Header, es: Seq<RelEntry>, flash_base: u32, ram_base: u32) -> Seq<u8>
    decreases es.len(),
{
    if es.len() == 0 {
        ram
    } else {
        spec_apply_fixups(
            spec_apply_fixup(ram, c, es[0], flash_base, ram_base),
            c,
            es.skip(1),
            flash_base,
            ram_base,
        )
    }
}

/// Walks the relocation table over the RAM image, rebasing each recorded
/// word in order.
pub fn apply_pic_fixups(
    ram: &mut Vec<u8>,
    c: &Crt0Header,
    entries: &Vec<RelEntry>,
    flash_base: u32,
    ram_base: u32,
)
    requires
        spec_crt0_bounded(*c),
    ensures
        final(ram)@ == spec_apply_fixups(old(ram)@, *c, entries@, flash_base, ram_base),
{
    let n = entries.len();
    proof {
        assert(entries@.skip(0) =~= entries@);
    }
    let mut i: usize = 0;
    while i < n
        invariant
            i <= n,
            n == entries@.len(),
            spec_crt0_bounded(*c),
            spec_apply_fixups(ram@, *c, entries@.skip(i as int), flash_base, ram_base)
                == spec_apply_fixups(old(ram)@, *c, entries@, flash_base, ram_base),
        decreases n - i,
    {
        let e = entries[i];
        proof {
            assert(entries@.skip(i as int)[0] == e);
            assert(entries@.skip(i as int).skip(1) =~= entries@.skip(i + 1));
        }
        let gs = c.got_sym_start;
        let ds = c.data_sym_start;
        let target: Option<usize> = if gs <= e.offset && e.offset - gs <= 0x0100_0000
            && e.offset - gs + 4 <= c.got_size {
            Some((e.offset - gs) as usize)
        } else if ds <= e.offset && e.offset - ds <= 0x0100_0000
            && e.offset - ds + 4 <= c.data_size {
            Some(c.got_size as usize + (e.offset - ds) as usize)
        } else {
            None
        };
        match target {
            Some(p) => {
                if p + 4 <= ram.len() {
                    let v = read_u32_le(ram, p);
                    let patched = rebase_word(v, e.kind, flash_base, ram_base);
                    write_u32_le_at(ram, p, patched);
                }
            },
            None => (),
        }
        i = i + 1;
    }
    proof {
        assert(entries@.skip(n as int) =~= Seq::<RelEntry>::empty());
    }
}

/// Whether the crt0 header's regions all lie inside the image: the GOT and
/// data load images, the relocation table's length word, and the table
/// itself, each within bounds and of bounded size.
pub open spec fn spec_reloc_regions_ok(s: Seq<u8>, app_start: int, c: Crt0Header) -> bool {
    &&& spec_crt0_bounded(c)
    &&& 0 <= app_start <= s.len()
    &&& app_start + c.got_sym_start + c.got_size <= s.len()
    &&& app_start + c.data_sym_start + c.data_size <= s.len()
    &&& app_start + c.reldata_start + 4 <= s.len()
    &&& ({
        let rs = app_start + c.reldata_start;
        let rel_len = u32_from_le(s[rs], s[rs + 1], s[rs + 2], s[rs + 3]);
        &&& rel_len <= 0x0100_0000
        &&& rs + 4 + rel_len <= s.len()
    })
}

/// A process's RAM image before fixups: the GOT's load image, then the
/// data section's, then the zeroed BSS.
pub open spec fn spec_initial_ram(s: Seq<u8>, app_start: int, c: Crt0Header) -> Seq<u8> {
    let gs = app_start + c.got_sym_start;
    let ds = app_start + c.data_sym_start;
    s.subrange(gs, gs + c.got_size) + s.subrange(ds, ds + c.data_size) + zeros(c.bss_size as nat)
}

/// The fixup records of the image's relocation table: the table starts
/// with its byte length, the records follow.
pub open spec fn spec_image_rel_entries(s: Seq<u8>, app_start: int, c: Crt0Header) -> Seq<RelEntry> {
    let rs = app_start + c.reldata_start;
    let rel_len = u32_from_le(s[rs], s[rs + 1], s[rs + 2], s[rs + 3]);
    spec_rel_entries(s, rs + 4, rs + 4 + rel_len)
}

/// Builds a process's initial RAM image from its flash image: copies the
/// GOT and data load images at the places the crt0 header names, zeroes
/// the BSS, and patches every word the relocation table records, rebased
/// against the process's own flash and RAM addresses. Yields nothing
/// exactly when a region the header names falls outside the image.
pub fn relocate_ram_image(
    image: &Vec<u8>,
    app_start: usize,
    c: &Crt0Header,
    flash_base: u32,
    ram_base: u32,
) -> (r: Option<Vec<u8>>)
    requires
        image@.len() <= 0x7fff_ffff,
    ensures
        (r is Some <==> spec_reloc_regions_ok(image@, app_start as int, *c)),
        (match r {
            Some(ram) => ram@ == spec_apply_fixups(
                spec_initial_ram(image@, app_start as int, *c),
                *c,
                spec_image_rel_entries(image@, app_start as int, *c),
                flash_base,
                ram_base,
            ),
            None => true,
        }),
{
    let len = image.len();
    if app_start > len {
        return None;
    }
    if c.got_size > 0x0100_0000 || c.data_size > 0x0100_0000 || c.bss_size > 0x0100_0000 {
        return None;
    }
    let avail = len - app_start;
    let gs_off = c.got_sym_start as usize;
    if gs_off > avail || c.got_size as usize > avail - gs_off {
        return None;
    }
    let ds_off = c.data_sym_start as usize;
    if ds_off > avail || c.data_size as usize > avail - ds_off {
        return None;
    }
    let rs_off = c.reldata_start as usize;
    if rs_off > avail || avail - rs_off < 4 {
        return None;
    }
    let rs = app_start + rs_off;
    let rel_len = read_u32_le(image, rs);
    if rel_len > 0x0100_0000 {
        return None;
    }
    if rel_len as usize > avail - rs_off - 4 {
        return None;
    }

    let mut ram = copy_range(image, app_start + gs_off, c.got_size as usize);
    let data_part = copy_range(image, app_start + ds_off, c.data_size as usize);
    push_bytes(&mut ram, &data_part);
    push_zeros(&mut ram, c.bss_size as usize);
    proof {
        assert(ram@ =~= spec_initial_ram(image@, app_start as int, *c));
    }
    let entries = parse_rel_entries(image, rs + 4, rs + 4 + rel_len as usize);
    apply_pic_fixups(&mut ram, c, &entries, flash_base, ram_base);
    Some(ram)
}

} // verus!
