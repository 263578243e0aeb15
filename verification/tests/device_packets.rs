use bcd_dump::device::{Device, DevicePacket, PacketHeader};
use bcd_dump::guid::Guid;

fn le32(v: u32) -> [u8; 4] {
    v.to_le_bytes()
}

fn header(packet_type: u32, flags: u32, declared: u32, unknown: u32) -> Vec<u8> {
    let mut h = Vec::new();
    h.extend_from_slice(&le32(packet_type));
    h.extend_from_slice(&le32(flags));
    h.extend_from_slice(&le32(declared));
    h.extend_from_slice(&le32(unknown));
    h
}

fn gpt_body() -> Vec<u8> {
    let mut body = vec![0u8; 56];
    for i in 0..16 {
        body[i] = 0x10 + i as u8; // disk GUID
        body[0x18 + i] = 0x40 + i as u8; // partition GUID
    }
    body[0x14..0x18].copy_from_slice(&le32(0));
    body
}

fn swapped(base: u8) -> [u8; 16] {
    let b: Vec<u8> = (0..16).map(|i| base + i as u8).collect();
    [
        b[3], b[2], b[1], b[0], b[5], b[4], b[7], b[6], b[8], b[9], b[10], b[11], b[12], b[13],
        b[14], b[15],
    ]
}

#[test]
fn header_fields_are_little_endian() {
    let raw = header(6, 1, 0x48, 0);
    let h = Device::get_packet_header(&raw);
    assert_eq!(h.packet_type, 6);
    assert_eq!(h.flags, 1);
    assert_eq!(h.length, 0x48);
    assert_eq!(h.unknown, 0);
}

#[test]
fn header_length_grows_by_four_with_unknown_field() {
    let raw = header(2, 0, 32, 5);
    let h = Device::get_packet_header(&raw);
    assert_eq!(h.length, 36);
    assert_eq!(h.unknown, 5);
}

#[test]
fn header_reads_only_first_sixteen_bytes() {
    let mut raw = header(3, 7, 100, 1);
    let a = Device::get_packet_header(&raw);
    raw.extend_from_slice(&[0xff; 9]);
    let b = Device::get_packet_header(&raw);
    assert_eq!((a.packet_type, a.flags, a.length, a.unknown), (b.packet_type, b.flags, b.length, b.unknown));
}

#[test]
fn header_fits_needs_sixteen_bytes() {
    assert!(!PacketHeader::fits(&[0u8; 15]));
    assert!(PacketHeader::fits(&[0u8; 16]));
}

#[test]
fn gpt_partition_guids_are_byte_swapped() {
    let mut raw = header(6, 1, 72, 0);
    raw.extend_from_slice(&gpt_body());
    match Device::get_packet(&raw) {
        DevicePacket::PartitionGPT(partition, disk) => {
            assert_eq!(partition, Guid { bytes: swapped(0x40) });
            assert_eq!(disk, Guid { bytes: swapped(0x10) });
        }
        other => panic!("unexpected {:?}", other),
    }
}

#[test]
fn mbr_partition_signature_and_offset() {
    let mut body = vec![0u8; 56];
    body[0..8].copy_from_slice(&0x0000_0001_0020_0000u64.to_le_bytes());
    body[0x14..0x18].copy_from_slice(&le32(1));
    body[0x18..0x1C].copy_from_slice(&le32(0xDEAD_BEEF));
    let mut raw = header(6, 1, 72, 0);
    raw.extend_from_slice(&body);
    match Device::get_packet(&raw) {
        DevicePacket::PartitionMBR(signature, offset) => {
            assert_eq!(signature, 0xDEAD_BEEF);
            assert_eq!(offset, 0x0000_0001_0020_0000);
        }
        other => panic!("unexpected {:?}", other),
    }
}

#[test]
fn invalid_partition_kind_is_refused() {
    let mut body = vec![0u8; 56];
    body[0x14..0x18].copy_from_slice(&le32(2));
    let mut raw = header(6, 1, 72, 0);
    raw.extend_from_slice(&body);
    assert!(Device::try_packet(&raw).is_none());
}

#[test]
fn short_partition_body_is_refused() {
    let mut raw = header(6, 1, 70, 0);
    raw.extend_from_slice(&[0u8; 54]);
    assert!(Device::try_packet(&raw).is_none());
}

#[test]
fn boot_packet_is_fifty_six_zero_bytes() {
    let mut raw = header(5, 1, 72, 0);
    raw.extend_from_slice(&[0u8; 56]);
    assert!(matches!(Device::get_packet(&raw), DevicePacket::Boot));
    let mut bad = header(5, 1, 72, 0);
    let mut body = vec![0u8; 56];
    body[30] = 1;
    bad.extend_from_slice(&body);
    assert!(Device::try_packet(&bad).is_none());
}

#[test]
fn unknown_packet_type_is_kept() {
    let mut raw = header(9, 0, 20, 0);
    raw.extend_from_slice(&[1, 2, 3, 4]);
    assert!(matches!(Device::get_packet(&raw), DevicePacket::Unknown(9)));
}

#[test]
fn size_must_match_declared_length() {
    let mut raw = header(9, 0, 20, 0);
    raw.extend_from_slice(&[1, 2, 3, 4]);
    assert!(Device::try_packet(&raw).is_some());
    let mut longer = raw.clone();
    longer.push(0);
    assert!(Device::try_packet(&longer).is_none());
    let mut shorter = raw.clone();
    shorter.pop();
    assert!(Device::try_packet(&shorter).is_none());
}

#[test]
fn unknown_field_adds_eight_bytes_to_the_buffer() {
    // declared 20, unknown != 0: header length 24, buffer 28
    let mut raw = header(9, 0, 20, 1);
    raw.extend_from_slice(&[0u8; 12]);
    assert_eq!(raw.len(), 28);
    assert!(matches!(Device::try_packet(&raw), Some(DevicePacket::Unknown(9))));
}

#[test]
fn too_short_buffer_is_refused() {
    assert!(Device::try_packet(&[0u8; 10]).is_none());
}

fn path_packet(path_units: &[u16]) -> Vec<u8> {
    let path_bytes: Vec<u8> = path_units.iter().flat_map(|u| u.to_le_bytes()).collect();
    let nested = header(9, 0, 16, 0);
    let content_len = nested.len() + path_bytes.len();
    // header length = declared + 4 = 16 + content_len
    let declared = (16 + content_len - 4) as u32;
    let mut raw = header(2, 0, declared, 5);
    raw.extend_from_slice(&nested);
    raw.extend_from_slice(&path_bytes);
    raw.extend_from_slice(&[0u8; 4]);
    raw
}

#[test]
fn path_packet_holds_nested_device_and_utf16_path() {
    let raw = path_packet(&[0x5C, 0x61, 0x62]);
    match Device::get_packet(&raw) {
        DevicePacket::Path(t, nested, path) => {
            assert_eq!(t, 2);
            assert!(matches!(*nested, DevicePacket::Unknown(9)));
            assert_eq!(path, "\\ab");
        }
        other => panic!("unexpected {:?}", other),
    }
}

#[test]
fn path_packet_decodes_surrogate_pairs() {
    let raw = path_packet(&[0xD83D, 0xDE00]);
    match Device::get_packet(&raw) {
        DevicePacket::Path(_, _, path) => assert_eq!(path, "\u{1F600}"),
        other => panic!("unexpected {:?}", other),
    }
}

#[test]
fn path_packet_with_lone_surrogate_is_refused() {
    let raw = path_packet(&[0x41, 0xD800]);
    assert!(Device::try_packet(&raw).is_none());
}

#[test]
fn wrapper_packet_reads_nested_and_gives_empty() {
    let nested = header(9, 0, 16, 0);
    let mut raw = header(0, 0, 32, 0);
    raw.extend_from_slice(&nested);
    assert!(matches!(Device::get_packet(&raw), DevicePacket::Empty));
}

#[test]
fn wrapper_packet_with_broken_nested_is_refused() {
    // nested packet is a boot packet without its 56-byte body
    let nested = header(5, 0, 16, 0);
    let mut raw = header(0, 0, 32, 0);
    raw.extend_from_slice(&nested);
    assert!(Device::try_packet(&raw).is_none());
}

#[test]
fn wrapper_packet_with_offset_nested() {
    // flags != 0 while unknown == 0: the nested packet starts at 20
    let nested = header(9, 0, 16, 0);
    let mut raw = header(0, 1, 16 + 20 + 16, 0);
    raw.extend_from_slice(&[0u8; 20]);
    raw.extend_from_slice(&nested);
    assert!(matches!(Device::get_packet(&raw), DevicePacket::Empty));
}

#[test]
fn get_packet_content_reads_a_body() {
    let h = Device::get_packet_header(&header(6, 1, 72, 0));
    let body = gpt_body();
    assert!(matches!(Device::get_packet_content(&body, &h), DevicePacket::PartitionGPT(_, _)));
    assert!(Device::try_packet_content(&body[..50], &h).is_none());
}

#[test]
fn device_parent_guid_and_packet() {
    let mut raw: Vec<u8> = (0..16).map(|i| 0x20 + i as u8).collect();
    raw.extend_from_slice(&header(6, 1, 72, 0));
    raw.extend_from_slice(&gpt_body());
    let d = Device::new(&raw);
    assert_eq!(d.parent, Guid { bytes: swapped(0x20) });
    assert!(matches!(d.packet, DevicePacket::PartitionGPT(_, _)));
    assert!(Device::try_new(&raw[..15].to_vec()).is_none());
}
