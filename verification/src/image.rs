//! The offline image builder: lays the sections of a relocatable object
//! file out as one contiguous TBF image — header, optional crt0 bootstrap
//! header, app-state, text, GOT, data, relocation table — every section
//! padded to a four-byte boundary and the whole image padded to a power of
//! two of at least 512 bytes.

use vstd::prelude::*;

use crate::bytes::{
    is_power_of_two, pad4, pad4_for, pow2_at_least, push_bytes, push_u32_le, push_zeros, u32_le,
    zeros,
};
use crate::crt0::{spec_crt0_bytes, Crt0Header, CRT0_HEADER_SIZE};
use crate::tbf::{spec_header_bytes, spec_header_len, TbfHeader, TBF_VERSION};

verus! {

/// What the builder reads out of a relocatable object file: section
/// contents, the BSS size, and the entry point. The front-end extracts
/// these from the object file and hands them over as plain bytes.
pub struct ObjectSections {
    /// The `.text` section: the program code.
    pub text: Vec<u8>,
    /// The `.got` section's load image.
    pub got: Vec<u8>,
    /// The `.data` section's load image.
    pub data: Vec<u8>,
    /// The size of `.bss`, which occupies no file bytes.
    pub bss_size: u32,
    /// The `.rel.data` relocation table.
    pub rel_data: Vec<u8>,
    /// The `.app_state` writeable persistent region; empty for none.
    pub app_state: Vec<u8>,
    /// The object's entry-point virtual address.
    pub entry: u32,
    /// The `.text` section's virtual address.
    pub text_addr: u32,
}

impl ObjectSections {
    /// Machine bounds under which the layout arithmetic stays in range:
    /// each section within sixteen megabytes and the entry point inside
    /// the text section's reach.
    pub open spec fn bounded(self) -> bool {
        &&& self.text@.len() <= 0x0100_0000
        &&& self.got@.len() <= 0x0100_0000
        &&& self.data@.len() <= 0x0100_0000
        &&& self.bss_size <= 0x0100_0000
        &&& self.rel_data@.len() <= 0x0100_0000
        &&& self.app_state@.len() <= 0x0100_0000
        &&& self.text_addr <= self.entry
        &&& self.entry - self.text_addr <= 0x0100_0000
    }
}

/// What the user asks of the builder: the package name, whether to place a
/// crt0 bootstrap header, and the three memory budgets.
pub struct BuildOptions {
    /// The package name, UTF-8 with no NUL; empty for none.
    pub package_name: Vec<u8>,
    /// Whether to place a crt0 header at the start of the app-visible
    /// region for position-independent-code fixups.
    pub include_crt0_header: bool,
    /// Stack size in bytes.
    pub stack_len: u32,
    /// Application heap size in bytes.
    pub app_heap_len: u32,
    /// Kernel (grant) heap size in bytes.
    pub kernel_heap_len: u32,
}

impl BuildOptions {
    /// Machine bounds under which the RAM arithmetic stays in range.
    pub open spec fn bounded(self) -> bool {
        &&& self.package_name@.len() <= 0xff00
        &&& self.stack_len <= 0x1000_0000
        &&& self.app_heap_len <= 0x1000_0000
        &&& self.kernel_heap_len <= 0x1000_0000
    }
}

/// One built image: the bytes, the header and crt0 header as emitted, and
/// where each section came to rest.
pub struct TbfImage {
    /// The whole image, exactly `total_size` bytes.
    pub bytes: Vec<u8>,
    /// The TBF header as emitted at offset zero.
    pub header: TbfHeader,
    /// The crt0 header, when one was asked for.
    pub crt0: Option<Crt0Header>,
    /// Offset of the app-visible region: the header's length.
    pub app_start: usize,
    /// Offset of the app-state section.
    pub appstate_offset: usize,
    /// Offset of the text section.
    pub text_start: usize,
    /// Offset of the GOT's load image.
    pub got_start: usize,
    /// Offset of the data section's load image.
    pub data_start: usize,
    /// Offset of the relocation table's length word.
    pub reldata_start: usize,
    /// Offset of the first trailing padding byte.
    pub content_end: usize,
    /// Total image size: a power of two, at least 512.
    pub total_size: usize,
}

/// How a built image is laid out: each offset follows from the one before
/// it by that section's padded length, the header records the layout, and
/// the bytes are exactly the sections in order with their padding.
pub open spec fn spec_image_layout(obj: ObjectSections, opts: BuildOptions, r: TbfImage) -> bool {
    &&& r.header.version == TBF_VERSION
    &&& r.header.flags == 1
    &&& r.header.wf()
    &&& r.header.package_name@ == opts.package_name@
    &&& r.header.has_app_state == (obj.app_state@.len() > 0)
    &&& r.header.minimum_ram_size == opts.stack_len + opts.app_heap_len + opts.kernel_heap_len
        + obj.got@.len() + obj.data@.len() + obj.bss_size
    &&& r.app_start == spec_header_len(r.header)
    &&& r.appstate_offset == r.app_start + (if opts.include_crt0_header {
        CRT0_HEADER_SIZE as int
    } else {
        0int
    })
    &&& r.header.appstate_offset == r.appstate_offset
    &&& r.header.appstate_size == obj.app_state@.len()
    &&& r.text_start == r.appstate_offset + obj.app_state@.len() + pad4(obj.app_state@.len() as int)
    &&& r.got_start == r.text_start + obj.text@.len() + pad4(obj.text@.len() as int)
    &&& r.data_start == r.got_start + obj.got@.len() + pad4(obj.got@.len() as int)
    &&& r.reldata_start == r.data_start + obj.data@.len() + pad4(obj.data@.len() as int)
    &&& r.content_end == r.reldata_start + 4 + obj.rel_data@.len() + pad4(
        obj.rel_data@.len() as int,
    )
    &&& r.header.init_fn_offset == obj.entry - obj.text_addr + r.text_start - r.app_start
    &&& r.header.total_size == r.total_size
    &&& r.crt0 == (if opts.include_crt0_header {
        Some(
            Crt0Header {
                got_sym_start: (r.got_start - r.app_start) as u32,
                got_start: 0,
                got_size: obj.got@.len() as u32,
                data_sym_start: (r.data_start - r.app_start) as u32,
                data_start: obj.got@.len() as u32,
                data_size: obj.data@.len() as u32,
                bss_start: (obj.got@.len() + obj.data@.len()) as u32,
                bss_size: obj.bss_size,
                reldata_start: (r.reldata_start - r.app_start) as u32,
                text_offset: (r.text_start - r.app_start) as u32,
            },
        )
    } else {
        None
    })
    &&& r.bytes@ == spec_header_bytes(r.header) + (match r.crt0 {
        Some(c) => spec_crt0_bytes(c),
        None => Seq::<u8>::empty(),
    }) + obj.app_state@ + zeros(pad4(obj.app_state@.len() as int) as nat) + obj.text@ + zeros(
        pad4(obj.text@.len() as int) as nat,
    ) + obj.got@ + zeros(pad4(obj.got@.len() as int) as nat) + obj.data@ + zeros(
        pad4(obj.data@.len() as int) as nat,
    ) + u32_le(obj.rel_data@.len() as u32) + obj.rel_data@ + zeros(
        pad4(obj.rel_data@.len() as int) as nat,
    ) + zeros((r.total_size - r.content_end) as nat)
}

/// Stepping past a section and its padding keeps four-byte alignment.
proof fn lemma_aligned_step(prev: int, len: int, next: int)
    requires
        prev % 4 == 0,
        len >= 0,
        next == prev + len + pad4(len),
    ensures
        next % 4 == 0,
{
    crate::bytes::lemma_pad4_aligns(len);
}

/// Every section of a laid-out image rests on a four-byte boundary: the
/// header ends aligned, and each section's padding carries the alignment
/// to the next.
#[verifier::rlimit(100)]
pub proof fn lemma_layout_alignment(obj: ObjectSections, opts: BuildOptions, r: TbfImage)
    requires
        spec_image_layout(obj, opts, r),
    ensures
        r.app_start % 4 == 0,
        r.appstate_offset % 4 == 0,
        r.text_start % 4 == 0,
        r.got_start % 4 == 0,
        r.data_start % 4 == 0,
        r.reldata_start % 4 == 0,
        r.content_end % 4 == 0,
{
    crate::bytes::lemma_pad4_aligns(opts.package_name@.len() as int);
    assert(r.app_start % 4 == 0);
    assert(r.appstate_offset % 4 == 0);
    lemma_aligned_step(r.appstate_offset as int, obj.app_state@.len() as int, r.text_start as int);
    lemma_aligned_step(r.text_start as int, obj.text@.len() as int, r.got_start as int);
    lemma_aligned_step(r.got_start as int, obj.got@.len() as int, r.data_start as int);
    lemma_aligned_step(r.data_start as int, obj.data@.len() as int, r.reldata_start as int);
    lemma_aligned_step(
        r.reldata_start + 4,
        obj.rel_data@.len() as int,
        r.content_end as int,
    );
}

/// Writes the image's bytes in order: the header, the crt0 header if one
/// was asked for, then each section followed by its padding, the
/// relocation table with its leading length word, and the trailing pad.
#[verifier::rlimit(100)]
fn emit_image(
    header: &TbfHeader,
    crt0: Option<Crt0Header>,
    obj: &ObjectSections,
    pad_app: usize,
    pad_text: usize,
    pad_got: usize,
    pad_data: usize,
    pad_rel: usize,
    tail_pad: usize,
) -> (r: Vec<u8>)
    requires
        header.package_name@.len() <= 0xffff,
        obj.bounded(),
        tail_pad <= 0x8000_0000,
        pad_app == pad4(obj.app_state@.len() as int),
        pad_text == pad4(obj.text@.len() as int),
        pad_got == pad4(obj.got@.len() as int),
        pad_data == pad4(obj.data@.len() as int),
        pad_rel == pad4(obj.rel_data@.len() as int),
    ensures
        (r@ == spec_header_bytes(*header) + (match crt0 {
            Some(c) => spec_crt0_bytes(c),
            None => Seq::<u8>::empty(),
        }) + obj.app_state@ + zeros(pad4(obj.app_state@.len() as int) as nat) + obj.text@ + zeros(
            pad4(obj.text@.len() as int) as nat,
        ) + obj.got@ + zeros(pad4(obj.got@.len() as int) as nat) + obj.data@ + zeros(
            pad4(obj.data@.len() as int) as nat,
        ) + u32_le(obj.rel_data@.len() as u32) + obj.rel_data@ + zeros(
            pad4(obj.rel_data@.len() as int) as nat,
        ) + zeros(tail_pad as nat)),
{
    let ghost cpart = match crt0 {
        Some(c) => spec_crt0_bytes(c),
        None => Seq::<u8>::empty(),
    };
    let ghost t1 = spec_header_bytes(*header) + cpart;
    let ghost t2 = t1 + obj.app_state@;
    let ghost t3 = t2 + zeros(pad4(obj.app_state@.len() as int) as nat);
    let ghost t4 = t3 + obj.text@;
    let ghost t5 = t4 + zeros(pad4(obj.text@.len() as int) as nat);
    let ghost t6 = t5 + obj.got@;
    let ghost t7 = t6 + zeros(pad4(obj.got@.len() as int) as nat);
    let ghost t8 = t7 + obj.data@;
    let ghost t9 = t8 + zeros(pad4(obj.data@.len() as int) as nat);
    let ghost t10 = t9 + u32_le(obj.rel_data@.len() as u32);
    let ghost t11 = t10 + obj.rel_data@;
    let ghost t12 = t11 + zeros(pad4(obj.rel_data@.len() as int) as nat);

    let mut bytes = header.generate();
    match &crt0 {
        Some(c) => c.emit(&mut bytes),
        None => (),
    }
    proof {
        if crt0 is None {
            assert(spec_header_bytes(*header) + Seq::<u8>::empty() =~= spec_header_bytes(*header));
        }
        assert(bytes@ == t1);
    }
    push_bytes(&mut bytes, &obj.app_state);
    assert(bytes@ == t2);
    push_zeros(&mut bytes, pad_app);
    assert(bytes@ == t3);
    push_bytes(&mut bytes, &obj.text);
    assert(bytes@ == t4);
    push_zeros(&mut bytes, pad_text);
    assert(bytes@ == t5);
    push_bytes(&mut bytes, &obj.got);
    assert(bytes@ == t6);
    push_zeros(&mut bytes, pad_got);
    assert(bytes@ == t7);
    push_bytes(&mut bytes, &obj.data);
    assert(bytes@ == t8);
    push_zeros(&mut bytes, pad_data);
    assert(bytes@ == t9);
    push_u32_le(&mut bytes, obj.rel_data.len() as u32);
    assert(bytes@ == t10);
    push_bytes(&mut bytes, &obj.rel_data);
    assert(bytes@ == t11);
    push_zeros(&mut bytes, pad_rel);
    assert(bytes@ == t12);
    push_zeros(&mut bytes, tail_pad);
    assert(bytes@ == t12 + zeros(tail_pad as nat));
    bytes
}

/// Builds one TBF image from the object's sections. The total size is the
/// smallest power of two that holds the content and is at least 512 bytes;
/// every section lands on a four-byte boundary.
#[verifier::rlimit(100)]
pub fn build_image(obj: &ObjectSections, opts: BuildOptions) -> (r: TbfImage)
    requires
        obj.bounded(),
        opts.bounded(),
    ensures
        spec_image_layout(*obj, opts, r),
        r.bytes@.len() == r.total_size,
        is_power_of_two(r.total_size as int),
        r.total_size >= 512,
        r.total_size % 4 == 0,
        r.total_size >= r.content_end,
        (r.total_size == 512 || r.total_size < 2 * r.content_end),
        (match r.crt0 {
            Some(c) => r.header.init_fn_offset == obj.entry - obj.text_addr + c.text_offset,
            None => true,
        }),
{
    let got_size = obj.got.len() as u32;
    let data_size = obj.data.len() as u32;
    let minimum_ram_size = opts.stack_len + opts.app_heap_len + opts.kernel_heap_len + got_size
        + data_size + obj.bss_size;

    let appstate_size = obj.app_state.len();
    let mut header = TbfHeader::new();
    let header_length = header.create(minimum_ram_size, appstate_size > 0, opts.package_name);

    let app_start = header_length;
    let mut binary_index = header_length;
    if opts.include_crt0_header {
        binary_index = binary_index + CRT0_HEADER_SIZE;
    }

    let appstate_offset = binary_index;
    let post_appstate_pad = pad4_for(appstate_size);
    binary_index = binary_index + appstate_size + post_appstate_pad;

    let text_start = binary_index;
    let post_text_pad = pad4_for(obj.text.len());
    binary_index = binary_index + obj.text.len() + post_text_pad;

    let got_start = binary_index;
    let post_got_pad = pad4_for(obj.got.len());
    binary_index = binary_index + obj.got.len() + post_got_pad;

    let data_start = binary_index;
    let post_data_pad = pad4_for(obj.data.len());
    binary_index = binary_index + obj.data.len() + post_data_pad;

    let reldata_start = binary_index;
    let post_reldata_pad = pad4_for(obj.rel_data.len());
    binary_index = binary_index + 4 + obj.rel_data.len() + post_reldata_pad;

    let content_end = binary_index;
    let total_size = pow2_at_least(content_end);
    let post_content_pad = total_size - content_end;

    let init_fn_offset = (obj.entry - obj.text_addr) + ((text_start - app_start) as u32);

    header.set_total_size(total_size as u32);
    header.set_init_fn_offset(init_fn_offset);
    header.set_appstate_values(appstate_offset as u32, appstate_size as u32);

    let crt0 = if opts.include_crt0_header {
        Some(
            Crt0Header {
                got_sym_start: (got_start - app_start) as u32,
                got_start: 0,
                got_size,
                data_sym_start: (data_start - app_start) as u32,
                data_start: got_size,
                data_size,
                bss_start: got_size + data_size,
                bss_size: obj.bss_size,
                reldata_start: (reldata_start - app_start) as u32,
                text_offset: (text_start - app_start) as u32,
            },
        )
    } else {
        None
    };


    let bytes = emit_image(
        &header,
        crt0,
        obj,
        post_appstate_pad,
        post_text_pad,
        post_got_pad,
        post_data_pad,
        post_reldata_pad,
        post_content_pad,
    );

    TbfImage {
        bytes,
        header,
        crt0,
        app_start,
        appstate_offset,
        text_start,
        got_start,
        data_start,
        reldata_start,
        content_end,
        total_size,
    }
}

} // verus!
