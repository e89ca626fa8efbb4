//! Exercises the memory-access layer against the in-process mock host.

use procmem::Address;
use procmem::MockHost;
use procmem::Process;

fn le64(v: u64) -> Vec<u8> {
    v.to_le_bytes().to_vec()
}

fn le32(v: u32) -> Vec<u8> {
    v.to_le_bytes().to_vec()
}

fn attached(host: &mut MockHost) -> Process {
    host.add_process("game", 7);
    Process::attach(host, "game").expect("process should be attachable")
}

#[test]
fn address_add_u64_wraps() {
    assert_eq!(Address::from_u64(u64::MAX).add_u64(1), Address(0));
    assert_eq!(Address::from_u64(u64::MAX).add_u64(10), Address(9));
    assert_eq!(Address::from_u64(0x400000).add_u64(0x10), Address(0x400010));
}

#[test]
fn address_add_u32_wraps() {
    assert_eq!(Address::from_u64(u64::MAX).add_u32(1), Address(0));
    assert_eq!(Address::from_u64(0x1000).add_u32(0x20), Address(0x1020));
    assert_eq!(Address::from_u32(0xFFFF_FFFF), Address(0xFFFF_FFFF));
}

#[test]
fn address_from_matches_value() {
    assert_eq!(Address::from(0xABu32), Address(0xAB));
    assert_eq!(Address::from(0x1_0000_0000u64), Address(0x1_0000_0000));
}

#[test]
fn attach_fails_for_unknown_name() {
    let mut host = MockHost::new();
    host.add_process("game", 7);
    assert!(Process::attach(&mut host, "other").is_none());
    assert!(Process::attach(&mut host, "game").is_some());
}

#[test]
fn empty_path_fails_without_any_read() {
    let mut host = MockHost::new();
    host.write_bytes(0x400000, &le64(0x500000));
    let process = attached(&mut host);
    let empty64: Vec<u64> = Vec::new();
    let r64: Result<u32, procmem::Error> =
        process.read_pointer_path64(&mut host, 0x400000, &empty64);
    assert!(r64.is_err());
    let empty32: Vec<u32> = Vec::new();
    let r32: Result<u32, procmem::Error> = process.read_pointer_path32(&mut host, 0x4000, &empty32);
    assert!(r32.is_err());
    assert_eq!(host.read_count(), 0);
}

#[test]
fn single_offset_reads_terminal_value_with_one_call() {
    let mut host = MockHost::new();
    host.write_bytes(0x400010, &le32(0xDEAD_BEEF));
    let process = attached(&mut host);
    let r: Result<u32, procmem::Error> = process.read_pointer_path64(&mut host, 0x400000, &[0x10]);
    assert_eq!(r.unwrap(), 0xDEAD_BEEF);
    assert_eq!(host.read_count(), 1);
}

#[test]
fn three_offsets_resolve_in_order() {
    let mut host = MockHost::new();
    let base: u64 = 0x400000;
    let p1: u64 = 0x500000;
    let p2: u64 = 0x600000;
    host.write_bytes(base + 0x10, &le64(p1));
    host.write_bytes(p1 + 0x20, &le64(p2));
    host.write_bytes(p2 + 0x30, &le32(91));
    let process = attached(&mut host);
    let r: Result<u32, procmem::Error> =
        process.read_pointer_path64(&mut host, base, &[0x10, 0x20, 0x30]);
    assert_eq!(r.unwrap(), 91);
    assert_eq!(host.read_count(), 3);
}

#[test]
fn failure_on_second_step_stops_the_walk() {
    let mut host = MockHost::new();
    let base: u64 = 0x400000;
    let p1: u64 = 0x500000;
    // base+0x10 -> p1 is mapped, but p1+0x20 is not: the second read fails
    // and the third is never issued.
    host.write_bytes(base + 0x10, &le64(p1));
    let process = attached(&mut host);
    let r: Result<u32, procmem::Error> =
        process.read_pointer_path64(&mut host, base, &[0x10, 0x20, 0x30]);
    assert!(r.is_err());
    assert_eq!(host.read_count(), 2);
}

#[test]
fn pointer_path32_walks_in_32_bit_space() {
    let mut host = MockHost::new();
    let base: u32 = 0x40_0000;
    let p1: u32 = 0x50_0000;
    host.write_bytes(base as u64 + 0x10, &p1.to_le_bytes().to_vec());
    host.write_bytes(p1 as u64 + 0x20, &le32(4660));
    let process = attached(&mut host);
    let r: Result<u32, procmem::Error> =
        process.read_pointer_path32(&mut host, base, &[0x10, 0x20]);
    assert_eq!(r.unwrap(), 4660);
    assert_eq!(host.read_count(), 2);
}

#[test]
fn read_decodes_little_endian() {
    let mut host = MockHost::new();
    host.write_bytes(0x1000, &vec![0x78, 0x56, 0x34, 0x12]);
    host.write_bytes(0x2000, &vec![0xEF, 0xCD, 0xAB, 0x89, 0x67, 0x45, 0x23, 0x01]);
    host.write_byte(0x3000, 0x5A);
    host.write_bytes(0x4000, &vec![0x34, 0x12]);
    let process = attached(&mut host);
    let r32: u32 = process.read(&mut host, Address(0x1000)).unwrap();
    assert_eq!(r32, 0x12345678);
    let r64: u64 = process.read(&mut host, Address(0x2000)).unwrap();
    assert_eq!(r64, 0x0123456789ABCDEF);
    let r8: u8 = process.read(&mut host, Address(0x3000)).unwrap();
    assert_eq!(r8, 0x5A);
    let r16: u16 = process.read(&mut host, Address(0x4000)).unwrap();
    assert_eq!(r16, 0x1234);
}

#[test]
fn read_decodes_signed_values() {
    let mut host = MockHost::new();
    host.write_bytes(0x1000, &(-1i32).to_le_bytes().to_vec());
    host.write_bytes(0x2000, &(-123456789012345i64).to_le_bytes().to_vec());
    host.write_byte(0x3000, 0x80);
    host.write_bytes(0x4000, &(-2i16).to_le_bytes().to_vec());
    let process = attached(&mut host);
    let r32: i32 = process.read(&mut host, Address(0x1000)).unwrap();
    assert_eq!(r32, -1);
    let r64: i64 = process.read(&mut host, Address(0x2000)).unwrap();
    assert_eq!(r64, -123456789012345);
    let r8: i8 = process.read(&mut host, Address(0x3000)).unwrap();
    assert_eq!(r8, -128);
    let r16: i16 = process.read(&mut host, Address(0x4000)).unwrap();
    assert_eq!(r16, -2);
}

#[test]
fn read_fails_atomically_on_partially_mapped_range() {
    let mut host = MockHost::new();
    // Only two of the four bytes of the requested u32 are mapped.
    host.write_byte(0x1000, 0xAA);
    host.write_byte(0x1001, 0xBB);
    let process = attached(&mut host);
    let r: Result<u32, procmem::Error> = process.read(&mut host, Address(0x1000));
    assert!(r.is_err());
}

#[test]
fn read_into_buf_leaves_buffer_untouched_on_failure() {
    let mut host = MockHost::new();
    let process = attached(&mut host);
    let mut buf = vec![0x11u8, 0x22, 0x33, 0x44];
    let r = process.read_into_buf(&mut host, Address(0x9000), &mut buf);
    assert!(r.is_err());
    assert_eq!(buf, vec![0x11, 0x22, 0x33, 0x44]);
}

#[test]
fn read_into_buf_copies_the_mapped_bytes() {
    let mut host = MockHost::new();
    host.write_bytes(0x9000, &vec![1, 2, 3, 4, 5]);
    let process = attached(&mut host);
    let mut buf = vec![0u8; 5];
    process
        .read_into_buf(&mut host, Address(0x9000), &mut buf)
        .expect("the whole range is mapped");
    assert_eq!(buf, vec![1, 2, 3, 4, 5]);
}

#[test]
fn read_into_slice_fills_every_element_or_none() {
    let mut host = MockHost::new();
    host.write_bytes(
        0x1000,
        &vec![0x01, 0x00, 0x00, 0x00, 0x02, 0x00, 0x00, 0x00, 0x03, 0x00, 0x00, 0x00],
    );
    let process = attached(&mut host);
    let mut values: Vec<u32> = vec![0; 3];
    process
        .read_into_slice(&mut host, Address(0x1000), &mut values)
        .expect("three u32 values are mapped");
    assert_eq!(values, vec![1, 2, 3]);

    // The last element of a four-element read is unmapped: nothing changes.
    let mut untouched: Vec<u32> = vec![7, 7, 7, 7];
    let r = process.read_into_slice(&mut host, Address(0x1000), &mut untouched);
    assert!(r.is_err());
    assert_eq!(untouched, vec![7, 7, 7, 7]);
}

#[test]
fn reads_fail_once_the_process_dies() {
    let mut host = MockHost::new();
    host.write_bytes(0x1000, &le32(5));
    let process = attached(&mut host);
    let alive: Result<u32, procmem::Error> = process.read(&mut host, Address(0x1000));
    assert_eq!(alive.unwrap(), 5);
    host.set_live(false);
    let dead: Result<u32, procmem::Error> = process.read(&mut host, Address(0x1000));
    assert!(dead.is_err());
}

#[test]
fn is_open_tracks_the_current_flag_without_caching() {
    let mut host = MockHost::new();
    let process = attached(&mut host);
    assert!(process.is_open(&mut host));
    host.set_live(false);
    assert!(!process.is_open(&mut host));
    host.set_live(true);
    assert!(process.is_open(&mut host));
}

#[test]
fn detach_is_recorded_exactly_once() {
    let mut host = MockHost::new();
    host.write_bytes(0x1000, &le32(5));
    let process = attached(&mut host);
    let _ok: Result<u32, procmem::Error> = process.read(&mut host, Address(0x1000));
    let _bad: Result<u32, procmem::Error> = process.read(&mut host, Address(0x9000));
    let _worse: Result<u64, procmem::Error> = process.read(&mut host, Address(0x9000));
    assert_eq!(host.detach_count(), 0);
    process.detach(&mut host);
    assert_eq!(host.detach_count(), 1);
}

#[test]
fn get_module_and_scan_signature_resolve_or_fail() {
    let mut host = MockHost::new();
    host.add_module("game.exe", 0x400000);
    host.add_signature("48 8B ?? ??", 0x401234);
    let process = attached(&mut host);
    assert_eq!(process.get_module(&mut host, "game.exe").unwrap(), Address(0x400000));
    assert!(process.get_module(&mut host, "engine.dll").is_err());
    assert_eq!(process.scan_signature(&mut host, "48 8B ?? ??").unwrap(), Address(0x401234));
    assert!(process.scan_signature(&mut host, "FF FF").is_err());
}

#[test]
fn end_to_end_attach_walk_and_detach() {
    let mut host = MockHost::new();
    host.add_process("game", 42);
    host.add_module("game.exe", 0x400000);
    let p1: u64 = 0x500000;
    let p2: u64 = 0x600000;
    host.write_bytes(0x400000 + 0x10, &le64(p1));
    host.write_bytes(p1 + 0x20, &le64(p2));
    host.write_bytes(p2 - 0x4, &le32(1234567));

    let process = Process::attach(&mut host, "game").expect("the process is known");
    let module = process.get_module(&mut host, "game.exe").unwrap();
    assert_eq!(module, Address(0x400000));
    let r: Result<u32, procmem::Error> =
        process.read_pointer_path64(&mut host, module.0, &[0x10, 0x20, (-0x4i64) as u64]);
    assert_eq!(r.unwrap(), 1234567);
    assert_eq!(host.read_count(), 3);
    process.detach(&mut host);
    assert_eq!(host.detach_count(), 1);
}
