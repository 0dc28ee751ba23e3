use tock_core::bytes::{pad4_for, pow2_at_least, push_u16_le, push_u32_le, read_u16_le, read_u32_le};
use tock_core::crt0::{parse_crt0, Crt0Header};
use tock_core::image::{build_image, BuildOptions, ObjectSections};
use tock_core::loader::{load_processes, rebase_word, relocate_ram_image};
use tock_core::tbf::{parse_tbf, TbfHeader};

fn object_small() -> ObjectSections {
    ObjectSections {
        text: vec![0xAA; 200],
        got: vec![0xBB; 32],
        data: vec![0xCC; 16],
        bss_size: 64,
        rel_data: vec![0xDD; 8],
        app_state: Vec::new(),
        entry: 0x8000_0080,
        text_addr: 0x8000_0000,
    }
}

fn options_small() -> BuildOptions {
    BuildOptions {
        package_name: vec![b'x'; 40],
        include_crt0_header: false,
        stack_len: 2048,
        app_heap_len: 1024,
        kernel_heap_len: 512,
    }
}

#[test]
fn le_codec_round_trip() {
    let mut out: Vec<u8> = Vec::new();
    push_u16_le(&mut out, 0xBEEF);
    push_u32_le(&mut out, 0x1234_5678);
    assert_eq!(out, vec![0xEF, 0xBE, 0x78, 0x56, 0x34, 0x12]);
    assert_eq!(read_u16_le(&out, 0), 0xBEEF);
    assert_eq!(read_u32_le(&out, 2), 0x1234_5678);
}

#[test]
fn padding_and_power_of_two() {
    assert_eq!(pad4_for(0), 0);
    assert_eq!(pad4_for(1), 3);
    assert_eq!(pad4_for(2), 2);
    assert_eq!(pad4_for(3), 1);
    assert_eq!(pad4_for(4), 0);
    assert_eq!(pow2_at_least(0), 512);
    assert_eq!(pow2_at_least(512), 512);
    assert_eq!(pow2_at_least(513), 1024);
    assert_eq!(pow2_at_least(600), 1024);
    assert_eq!(pow2_at_least(4096), 4096);
}

#[test]
fn header_emit_parse_round_trip() {
    let mut h = TbfHeader::new();
    let len = h.create(3696, false, vec![b'n'; 12]);
    assert_eq!(len, 32 + 4 + 12);
    h.set_total_size(1024);
    h.set_init_fn_offset(0x41);
    let bytes = h.generate();
    assert_eq!(bytes.len(), len);
    let p = parse_tbf(&bytes, 0).expect("emitted header must parse");
    assert_eq!(p.version, 2);
    assert_eq!(p.header_size, len as u16);
    assert_eq!(p.total_size, 1024);
    assert_eq!(p.flags, 1);
    assert_eq!(p.init_fn_offset, 0x41);
    assert_eq!(p.protected_size, 0);
    assert_eq!(p.minimum_ram_size, 3696);
    assert_eq!(p.package_name, Some(vec![b'n'; 12]));
    assert_eq!(p.app_state, None);
}

#[test]
fn header_rejects_corruption() {
    let mut h = TbfHeader::new();
    h.create(100, false, Vec::new());
    h.set_total_size(512);
    let good = h.generate();
    assert!(parse_tbf(&good, 0).is_some());

    // Wrong version.
    let mut bad = good.clone();
    bad[0] = 9;
    assert!(parse_tbf(&bad, 0).is_none());

    // Checksum no longer matches the flag word.
    let mut bad = good.clone();
    bad[8] ^= 0x10;
    assert!(parse_tbf(&bad, 0).is_none());

    // Truncated below the base header.
    let short = good[..12].to_vec();
    assert!(parse_tbf(&short, 0).is_none());
}

#[test]
fn image_layout_small_object() {
    let img = build_image(&object_small(), options_small());
    // Header: 16-byte base, 16-byte main record, 4 + 40 name record.
    assert_eq!(img.app_start, 76);
    assert_eq!(img.appstate_offset, 76);
    assert_eq!(img.text_start, 76);
    assert_eq!(img.got_start, 276);
    assert_eq!(img.data_start, 308);
    assert_eq!(img.reldata_start, 324);
    assert_eq!(img.content_end, 336);
    assert_eq!(img.total_size, 512);
    assert_eq!(img.bytes.len(), 512);
    assert_eq!(img.header.minimum_ram_size, 2048 + 1024 + 512 + 32 + 16 + 64);
    assert_eq!(img.header.init_fn_offset, 0x80);
    assert!(img.crt0.is_none());
    // Power of two, at least 512, and four-byte aligned throughout.
    assert!(img.total_size.is_power_of_two());
    assert!(img.total_size >= 512);
    assert_eq!(img.total_size % 4, 0);
    for off in [
        img.app_start,
        img.appstate_offset,
        img.text_start,
        img.got_start,
        img.data_start,
        img.reldata_start,
        img.content_end,
    ] {
        assert_eq!(off % 4, 0);
    }
    // The sections land where the offsets say.
    assert_eq!(&img.bytes[76..276], &vec![0xAA; 200][..]);
    assert_eq!(&img.bytes[276..308], &vec![0xBB; 32][..]);
    assert_eq!(&img.bytes[308..324], &vec![0xCC; 16][..]);
    // Relocation table: length word then the bytes.
    assert_eq!(read_u32_le(&img.bytes, 324), 8);
    assert_eq!(&img.bytes[328..336], &vec![0xDD; 8][..]);
    // Trailing padding is zero.
    assert!(img.bytes[336..].iter().all(|&b| b == 0));
}

#[test]
fn image_round_trips_through_parser() {
    let img = build_image(&object_small(), options_small());
    let p = parse_tbf(&img.bytes, 0).expect("built image must parse");
    assert_eq!(p.version, 2);
    assert_eq!(p.header_size, 76);
    assert_eq!(p.total_size, 512);
    assert_eq!(p.flags, 1);
    assert_eq!(p.init_fn_offset, img.header.init_fn_offset);
    assert_eq!(p.minimum_ram_size, img.header.minimum_ram_size);
    assert_eq!(p.package_name, Some(vec![b'x'; 40]));
    assert_eq!(p.app_state, None);
}

fn object_with_crt0() -> (ObjectSections, BuildOptions) {
    let obj = ObjectSections {
        text: vec![1; 100],
        got: vec![2; 8],
        data: vec![3; 4],
        bss_size: 16,
        rel_data: vec![4; 16],
        app_state: vec![5; 10],
        entry: 0x20,
        text_addr: 0x0,
    };
    let opts = BuildOptions {
        package_name: Vec::new(),
        include_crt0_header: true,
        stack_len: 1024,
        app_heap_len: 512,
        kernel_heap_len: 256,
    };
    (obj, opts)
}

#[test]
fn image_with_crt0_and_app_state() {
    let (obj, opts) = object_with_crt0();
    let img = build_image(&obj, opts);
    assert_eq!(img.app_start, 44);
    assert_eq!(img.appstate_offset, 84);
    assert_eq!(img.text_start, 96);
    assert_eq!(img.got_start, 196);
    assert_eq!(img.data_start, 204);
    assert_eq!(img.reldata_start, 208);
    assert_eq!(img.content_end, 228);
    assert_eq!(img.total_size, 512);
    let c = img.crt0.expect("crt0 header was asked for");
    assert_eq!(c.got_sym_start, 152);
    assert_eq!(c.got_start, 0);
    assert_eq!(c.got_size, 8);
    assert_eq!(c.data_sym_start, 160);
    assert_eq!(c.data_start, 8);
    assert_eq!(c.data_size, 4);
    assert_eq!(c.bss_start, 12);
    assert_eq!(c.bss_size, 16);
    assert_eq!(c.reldata_start, 164);
    assert_eq!(c.text_offset, 52);
    // The entry offset is the ELF entry's distance into text plus the text
    // section's offset from app_start.
    assert_eq!(img.header.init_fn_offset, 0x20 + 52);
    assert_eq!(c.text_offset + (obj.entry - obj.text_addr), img.header.init_fn_offset);
    // The emitted crt0 header sits right after the TBF header.
    let parsed = parse_crt0(&img.bytes, 44);
    assert_eq!(parsed, c);
    // The app-state bytes follow it.
    assert_eq!(&img.bytes[84..94], &vec![5; 10][..]);
    // The header records the app-state region.
    let p = parse_tbf(&img.bytes, 0).unwrap();
    assert_eq!(p.app_state, Some((84, 10)));
}

#[test]
fn loader_two_images_then_invalid() {
    let img1 = build_image(&object_small(), options_small());
    let (obj2, opts2) = object_with_crt0();
    let img2 = build_image(&obj2, opts2);

    let mut flash = img1.bytes.clone();
    flash.extend_from_slice(&img2.bytes);
    flash.extend_from_slice(&[0xFF; 16]);

    let procs = load_processes(&flash, 32768, 4);
    assert_eq!(procs.len(), 2);
    assert_eq!(procs[0].flash_offset, 0);
    assert_eq!(procs[0].total_size, 512);
    assert_eq!(procs[0].minimum_ram_size, 3696);
    assert_eq!(procs[0].ram_size, 3696);
    assert_eq!(procs[0].ram_start, 32768 - 3696);
    assert_eq!(procs[1].flash_offset, 512);
    assert_eq!(procs[1].total_size, 512);
    assert_eq!(procs[1].header_size, 44);
    assert_eq!(procs[1].init_fn_offset, 84);
    assert_eq!(procs[1].minimum_ram_size, 1820);
    assert_eq!(procs[1].ram_size, 1824);
    assert_eq!(procs[1].ram_start, 32768 - 3696 - 1824);
}

#[test]
fn loader_skips_disabled_image() {
    let mut h = TbfHeader::new();
    h.create(100, false, Vec::new());
    h.flags = 0;
    h.set_total_size(512);
    let mut disabled = h.generate();
    disabled.resize(512, 0);

    let img = build_image(&object_small(), options_small());
    let mut flash = disabled;
    flash.extend_from_slice(&img.bytes);

    let procs = load_processes(&flash, 32768, 4);
    assert_eq!(procs.len(), 1);
    assert_eq!(procs[0].flash_offset, 512);
}

#[test]
fn loader_stops_on_zero_total_size() {
    let mut h = TbfHeader::new();
    h.create(100, false, Vec::new());
    h.set_total_size(0);
    let mut flash = h.generate();
    flash.resize(512, 0);
    let procs = load_processes(&flash, 32768, 4);
    assert_eq!(procs.len(), 0);
}

#[test]
fn loader_respects_slot_capacity() {
    let img = build_image(&object_small(), options_small());
    let mut flash = Vec::new();
    for _ in 0..3 {
        flash.extend_from_slice(&img.bytes);
    }
    let procs = load_processes(&flash, 32768, 2);
    assert_eq!(procs.len(), 2);
}

#[test]
fn loader_stops_when_ram_runs_out() {
    let img = build_image(&object_small(), options_small());
    let mut flash = img.bytes.clone();
    flash.extend_from_slice(&img.bytes);
    // Arena holds one 3696-byte carve but not two.
    let procs = load_processes(&flash, 4000, 4);
    assert_eq!(procs.len(), 1);
    assert_eq!(procs[0].ram_start, 4000 - 3696);
}

#[test]
fn relocation_rebases_got_and_data_words() {
    // A small app-visible region: an 8-byte GOT, 4 bytes of data, then the
    // relocation table (length word plus three records).
    let mut img = Vec::new();
    push_u32_le(&mut img, 0x100); // GOT word 0
    push_u32_le(&mut img, 0x200); // GOT word 1
    push_u32_le(&mut img, 0x300); // data word
    push_u32_le(&mut img, 24); // relocation table length in bytes
    push_u32_le(&mut img, 0); // patch GOT word 0 ...
    push_u32_le(&mut img, 0); // ... against the flash base
    push_u32_le(&mut img, 8); // patch the data word ...
    push_u32_le(&mut img, 1); // ... against the RAM base
    push_u32_le(&mut img, 100); // aims outside both load images:
    push_u32_le(&mut img, 0); // ignored

    let c = Crt0Header {
        got_sym_start: 0,
        got_start: 0,
        got_size: 8,
        data_sym_start: 8,
        data_start: 8,
        data_size: 4,
        bss_start: 12,
        bss_size: 4,
        reldata_start: 12,
        text_offset: 0,
    };
    let ram = relocate_ram_image(&img, 0, &c, 0x8000_0000, 0x2000_0000)
        .expect("regions lie inside the image");
    assert_eq!(ram.len(), 16);
    assert_eq!(read_u32_le(&ram, 0), 0x8000_0100);
    assert_eq!(read_u32_le(&ram, 4), 0x200);
    assert_eq!(read_u32_le(&ram, 8), 0x2000_0300);
    assert_eq!(read_u32_le(&ram, 12), 0);

    // Address arithmetic wraps as 32-bit pointers do.
    assert_eq!(rebase_word(0xFFFF_FF00, 0, 0x200, 0), 0x100);

    // A GOT region past the end of the image is refused.
    let bad = Crt0Header { got_sym_start: 1000, ..c };
    assert!(relocate_ram_image(&img, 0, &bad, 0, 0).is_none());
}
