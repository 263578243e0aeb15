//! Device elements: a parent GUID followed by a device packet, a binary blob
//! that says where data lives (a partition, a file on a partition, the boot
//! device, ...).
//!
//! A packet starts with a 16-byte header of four little-endian `u32`
//! fields: the packet type, flags, the length of the packet and a field
//! that, when not zero, adds four bytes to the length.

use vstd::prelude::*;

use crate::bytes::{read_u32_le, read_u64_le, spec_u32_le, spec_u64_le};
use crate::guid::{guid_from_le_bytes, spec_guid_from_le, Guid};
use crate::text::{spec_utf16_decode, spec_utf16_units, utf16_string};

verus! {

/// The header in front of each device packet.
#[derive(Clone, Copy, Debug)]
pub struct PacketHeader {
    pub packet_type: u32,
    pub flags: u32,
    /// The length of the whole packet, header included.
    pub length: usize,
    pub unknown: u32,
}

/// A device element: the GUID of its parent object and its packet.
#[derive(Debug)]
pub struct Device {
    pub parent: Guid,
    pub packet: DevicePacket,
}

/// What a device packet describes.
#[derive(Debug)]
pub enum DevicePacket {
    /// A packet that wraps another one, which is read and then left out.
    Empty,
    /// The boot device.
    Boot,
    /// A GPT partition: the partition GUID, then the disk GUID.
    PartitionGPT(Guid, Guid),
    /// An MBR partition: the disk signature, then the partition offset.
    PartitionMBR(u32, u64),
    /// A file: the packet type, the device that holds it, its path.
    Path(u32, Box<DevicePacket>, String),
    /// A packet of a type that is not decoded.
    Unknown(u32),
}

/// The model of a device packet.
pub ghost enum SpecDevicePacket {
    Empty,
    Boot,
    PartitionGPT(Seq<u8>, Seq<u8>),
    PartitionMBR(u32, u64),
    Path(u32, Box<SpecDevicePacket>, Seq<char>),
    Unknown(u32),
}

/// The model of a device element.
pub ghost struct SpecDevice {
    pub parent: Seq<u8>,
    pub packet: SpecDevicePacket,
}

pub open spec fn packet_view(p: DevicePacket) -> SpecDevicePacket
    decreases p,
{
    match p {
        DevicePacket::Empty => SpecDevicePacket::Empty,
        DevicePacket::Boot => SpecDevicePacket::Boot,
        DevicePacket::PartitionGPT(a, b) => SpecDevicePacket::PartitionGPT(a.bytes@, b.bytes@),
        DevicePacket::PartitionMBR(s, o) => SpecDevicePacket::PartitionMBR(s, o),
        DevicePacket::Path(t, inner, path) => SpecDevicePacket::Path(
            t,
            Box::new(packet_view(*inner)),
            path@,
        ),
        DevicePacket::Unknown(t) => SpecDevicePacket::Unknown(t),
    }
}

impl View for DevicePacket {
    type V = SpecDevicePacket;

    open spec fn view(&self) -> SpecDevicePacket {
        packet_view(*self)
    }
}

impl View for Device {
    type V = SpecDevice;

    open spec fn view(&self) -> SpecDevice {
        SpecDevice { parent: self.parent.bytes@, packet: self.packet@ }
    }
}

/// The model of an optional packet.
pub open spec fn opt_packet_view(p: Option<DevicePacket>) -> Option<SpecDevicePacket> {
    match p {
        Some(p) => Some(p@),
        None => None,
    }
}

// ----------------------------------------------------------------------
// The format
// ----------------------------------------------------------------------

/// The four bytes that a non-zero `unknown` field adds to a length.
pub open spec fn length_extra(unknown: u32) -> int {
    if unknown != 0 {
        4
    } else {
        0
    }
}

/// Whether a header can be read from `raw`: it has 16 bytes, and the length
/// it declares fits in a `usize`.
pub open spec fn header_fits(raw: Seq<u8>) -> bool {
    &&& raw.len() >= 16
    &&& spec_u32_le(raw, 8) + length_extra(spec_u32_le(raw, 12)) <= usize::MAX
}

/// The header held in the first 16 bytes of `raw`.
pub open spec fn spec_header(raw: Seq<u8>) -> PacketHeader {
    PacketHeader {
        packet_type: spec_u32_le(raw, 0),
        flags: spec_u32_le(raw, 4),
        length: (spec_u32_le(raw, 8) + length_extra(spec_u32_le(raw, 12))) as usize,
        unknown: spec_u32_le(raw, 12),
    }
}

/// The partition that a type-6 packet body describes: at `0x14` the
/// partition kind, then for GPT the partition GUID at `0x18` and the disk
/// GUID at `0`, for MBR the disk signature at `0x18` and the offset at `0`.
/// The body must hold `0x38` bytes.
pub open spec fn spec_partition(raw: Seq<u8>) -> Option<SpecDevicePacket> {
    if raw.len() < 0x38 {
        None
    } else if spec_u32_le(raw, 0x14) == 0 {
        Some(
            SpecDevicePacket::PartitionGPT(
                spec_guid_from_le(raw.subrange(0x18, 0x28)),
                spec_guid_from_le(raw.subrange(0, 0x10)),
            ),
        )
    } else if spec_u32_le(raw, 0x14) == 1 {
        Some(SpecDevicePacket::PartitionMBR(spec_u32_le(raw, 0x18), spec_u64_le(raw, 0)))
    } else {
        None
    }
}

/// Whether the body of a type-5 packet is valid: 56 zero bytes.
pub open spec fn is_boot_body(raw: Seq<u8>) -> bool {
    raw.len() == 56 && forall|i: int| 0 <= i < 56 ==> raw[i] == 0
}

/// Where a type-0 packet holds the packet it wraps.
pub open spec fn nested_start(h: PacketHeader) -> int {
    if (h.flags == 0) == (h.unknown == 0) {
        0
    } else {
        20
    }
}

/// The packet that the body `raw` under header `h` describes, or `None`
/// where the body does not hold what the header says.
pub open spec fn spec_packet_content(raw: Seq<u8>, h: PacketHeader) -> Option<SpecDevicePacket>
    decreases raw.len(),
{
    if h.unknown == 5 {
        // A file: a nested packet, then the path in UTF-16 up to `length - 16`.
        if h.length < 16 || h.length - 16 > raw.len() {
            None
        } else {
            let end = h.length - 16;
            let outer = raw.subrange(0, end);
            if !header_fits(outer) {
                None
            } else {
                let nh = spec_header(outer);
                if nh.length > end || nh.length < 16 {
                    None
                } else {
                    match spec_utf16_decode(spec_utf16_units(raw.subrange(nh.length as int, end))) {
                        None => None,
                        Some(path) => match spec_packet_content(
                            raw.subrange(16, nh.length as int),
                            nh,
                        ) {
                            None => None,
                            Some(inner) => Some(
                                SpecDevicePacket::Path(h.packet_type, Box::new(inner), path),
                            ),
                        },
                    }
                }
            }
        }
    } else if h.packet_type == 0 {
        let start = nested_start(h);
        if start != 0 && raw.len() < 20 {
            None
        } else if h.length < 16 || h.length - 16 > raw.len() || start > h.length - 16 {
            None
        } else {
            let seg = raw.subrange(start, h.length - 16);
            if !header_fits(seg) {
                None
            } else {
                let nh = spec_header(seg);
                let end = start + nh.length;
                if end > usize::MAX || start + 16 > end || end > raw.len() {
                    None
                } else {
                    match spec_packet_content(raw.subrange(start + 16, end), nh) {
                        None => None,
                        Some(_) => Some(SpecDevicePacket::Empty),
                    }
                }
            }
        }
    } else if h.packet_type == 5 {
        if is_boot_body(raw) {
            Some(SpecDevicePacket::Boot)
        } else {
            None
        }
    } else if h.packet_type == 6 {
        spec_partition(raw)
    } else {
        Some(SpecDevicePacket::Unknown(h.packet_type))
    }
}

/// The packet that `raw` holds: its size must be the declared length, plus
/// four more bytes when the `unknown` field is not zero.
pub open spec fn spec_packet(raw: Seq<u8>) -> Option<SpecDevicePacket> {
    if !header_fits(raw) {
        None
    } else {
        let h = spec_header(raw);
        if raw.len() != h.length + length_extra(h.unknown) || h.length < 16 {
            None
        } else {
            spec_packet_content(raw.subrange(16, h.length as int), h)
        }
    }
}

/// The device element that `raw` holds: the parent GUID in its first 16
/// bytes, then a packet.
pub open spec fn spec_device(raw: Seq<u8>) -> Option<SpecDevice> {
    if raw.len() < 16 {
        None
    } else {
        match spec_packet(raw.subrange(16, raw.len() as int)) {
            Some(p) => Some(SpecDevice { parent: spec_guid_from_le(raw.subrange(0, 16)), packet: p }),
            None => None,
        }
    }
}

// ----------------------------------------------------------------------
// Laws
// ----------------------------------------------------------------------

/// A header is read from the first 16 bytes alone: two buffers that agree
/// on them give the same header.
pub proof fn lemma_header_reads_first_16_bytes(raw1: Seq<u8>, raw2: Seq<u8>)
    requires
        header_fits(raw1),
        raw2.len() >= 16,
        raw1.take(16) == raw2.take(16),
    ensures
        header_fits(raw2),
        spec_header(raw1) == spec_header(raw2),
{
    assert forall|i: int| 0 <= i < 16 implies raw1[i] == raw2[i] by {
        assert(raw1.take(16)[i] == raw1[i]);
        assert(raw2.take(16)[i] == raw2[i]);
    }
}

/// The length in a header is the declared length, plus four when the
/// `unknown` field is not zero.
pub proof fn lemma_header_length(raw: Seq<u8>)
    requires
        header_fits(raw),
    ensures
        spec_header(raw).length == spec_u32_le(raw, 8) + length_extra(spec_header(raw).unknown),
        spec_header(raw).length >= spec_u32_le(raw, 8),
{
}

/// A packet is read only from a buffer of exactly the size its header
/// declares: the header's length, plus four more bytes when the `unknown`
/// field is not zero; a buffer one byte longer or shorter is refused.
pub proof fn lemma_packet_size_matches_header(raw: Seq<u8>)
    requires
        spec_packet(raw) is Some,
    ensures
        header_fits(raw),
        raw.len() == spec_header(raw).length + if spec_header(raw).unknown != 0 {
            4int
        } else {
            0int
        },
        spec_packet(raw.push(0)) is None,
        spec_packet(raw.drop_last()) is None,
{
    let longer = raw.push(0);
    let shorter = raw.drop_last();
    assert(longer.take(16) =~= raw.take(16));
    lemma_header_reads_first_16_bytes(raw, longer);
    if shorter.len() >= 16 {
        assert(shorter.take(16) =~= raw.take(16));
        lemma_header_reads_first_16_bytes(raw, shorter);
    }
}

/// A packet of a type other than 0, 5 and 6, without the path marker in
/// its `unknown` field, is kept as an unknown packet whatever its body.
pub proof fn lemma_unknown_type_kept(raw: Seq<u8>, h: PacketHeader)
    requires
        h.unknown != 5,
        h.packet_type != 0,
        h.packet_type != 5,
        h.packet_type != 6,
    ensures
        spec_packet_content(raw, h) == Some(SpecDevicePacket::Unknown(h.packet_type)),
{
}

/// The four header fields are little-endian `u32`s at offsets 0, 4, 8 and
/// 12; the length is the declared one, plus four when `unknown` is not zero.
pub proof fn lemma_header_fields_little_endian(raw: Seq<u8>)
    requires
        header_fits(raw),
    ensures
        spec_header(raw).packet_type as int == raw[0] + 256 * raw[1] + 65536 * raw[2] + 16777216
            * raw[3],
        spec_header(raw).flags as int == raw[4] + 256 * raw[5] + 65536 * raw[6] + 16777216 * raw[7],
        spec_header(raw).unknown as int == raw[12] + 256 * raw[13] + 65536 * raw[14] + 16777216
            * raw[15],
        spec_header(raw).length as int == raw[8] + 256 * raw[9] + 65536 * raw[10] + 16777216
            * raw[11] + if spec_header(raw).unknown != 0 {
            4int
        } else {
            0int
        },
{
}

/// A path packet (`unknown` field 5) holds the file's device as a nested
/// packet: its header sits at the start of the body, and the device in the
/// result is exactly what reading the nested body `raw[16..nested length]`
/// under that header gives. The path is the UTF-16 text after the nested
/// packet, up to `length - 16`.
pub proof fn lemma_path_holds_nested_device(raw: Seq<u8>, h: PacketHeader)
    requires
        h.unknown == 5,
        spec_packet_content(raw, h) is Some,
    ensures
        ({
            let end = h.length - 16;
            let nh = spec_header(raw.subrange(0, end));
            &&& 16 <= h.length
            &&& 16 <= nh.length <= end <= raw.len()
            &&& spec_packet_content(raw.subrange(16, nh.length as int), nh) is Some
            &&& spec_utf16_decode(spec_utf16_units(raw.subrange(nh.length as int, end))) is Some
            &&& spec_packet_content(raw, h) == Some(
                SpecDevicePacket::Path(
                    h.packet_type,
                    Box::new(spec_packet_content(raw.subrange(16, nh.length as int), nh).unwrap()),
                    spec_utf16_decode(spec_utf16_units(raw.subrange(nh.length as int, end))).unwrap(),
                ),
            )
        }),
{
}

/// A type-0 packet (without the path marker) wraps another packet: it is
/// read as `Empty` exactly when the wrapped packet, found at offset 0 (or 20
/// when the `flags` and `unknown` fields disagree on being zero), is read.
pub proof fn lemma_wrapper_reads_nested(raw: Seq<u8>, h: PacketHeader)
    requires
        h.unknown != 5,
        h.packet_type == 0,
        spec_packet_content(raw, h) is Some,
    ensures
        ({
            let start: int = if (h.flags == 0) == (h.unknown == 0) {
                0
            } else {
                20
            };
            let nh = spec_header(raw.subrange(start, h.length - 16));
            &&& start + 16 <= start + nh.length <= raw.len()
            &&& spec_packet_content(raw.subrange(start + 16, start + nh.length), nh) is Some
            &&& spec_packet_content(raw, h) == Some(SpecDevicePacket::Empty)
        }),
{
}

/// A boot packet (type 5) is read exactly when its body is 56 zero bytes.
pub proof fn lemma_boot_body(raw: Seq<u8>, h: PacketHeader)
    requires
        h.unknown != 5,
        h.packet_type == 5,
    ensures
        spec_packet_content(raw, h) is Some <==> (raw.len() == 56 && forall|i: int|
            0 <= i < 56 ==> raw[i] == 0),
        spec_packet_content(raw, h) is Some ==> spec_packet_content(raw, h) == Some(
            SpecDevicePacket::Boot,
        ),
{
}

/// A partition packet (type 6) has a 56-byte body; the partition kind is
/// the `u32` at `0x14`: kind 0 is GPT, with the partition GUID at `0x18`
/// and the disk GUID at 0, each stored with its first three fields
/// little-endian; kind 1 is MBR, with the disk signature at `0x18` and the
/// partition offset at 0. Other kinds are refused.
pub proof fn lemma_partition_fields(raw: Seq<u8>, h: PacketHeader)
    requires
        h.unknown != 5,
        h.packet_type == 6,
        spec_packet_content(raw, h) is Some,
    ensures
        raw.len() >= 0x38,
        ({
            let kind = raw[0x14] + 256 * raw[0x15] + 65536 * raw[0x16] + 16777216 * raw[0x17];
            &&& kind == 0 || kind == 1
            &&& kind == 0 ==> spec_packet_content(raw, h) == Some(
                SpecDevicePacket::PartitionGPT(
                    seq![raw[0x1B], raw[0x1A], raw[0x19], raw[0x18], raw[0x1D], raw[0x1C], raw[0x1F], raw[0x1E]]
                        + raw.subrange(0x20, 0x28),
                    seq![raw[3], raw[2], raw[1], raw[0], raw[5], raw[4], raw[7], raw[6]]
                        + raw.subrange(8, 0x10),
                ),
            )
            &&& kind == 1 ==> (spec_packet_content(raw, h) matches Some(
                SpecDevicePacket::PartitionMBR(signature, offset),
            ) && signature == raw[0x18] + 256 * raw[0x19] + 65536 * raw[0x1A] + 16777216 * raw[0x1B]
                && offset == raw[0] + 256 * raw[1] + 65536 * raw[2] + 16777216 * raw[3] + 4294967296
                * (raw[4] + 256 * raw[5] + 65536 * raw[6] + 16777216 * raw[7]))
        }),
{
    let kind = raw[0x14] + 256 * raw[0x15] + 65536 * raw[0x16] + 16777216 * raw[0x17];
    if kind == 0 {
        assert(spec_guid_from_le(raw.subrange(0x18, 0x28)) =~= seq![raw[0x1B], raw[0x1A], raw[0x19], raw[0x18], raw[0x1D], raw[0x1C], raw[0x1F], raw[0x1E]]
            + raw.subrange(0x20, 0x28));
        assert(spec_guid_from_le(raw.subrange(0, 0x10)) =~= seq![raw[3], raw[2], raw[1], raw[0], raw[5], raw[4], raw[7], raw[6]]
            + raw.subrange(8, 0x10));
    }
}

/// A device element is its parent GUID, read from the first 16 bytes, and
/// the packet that the rest of the buffer holds.
pub proof fn lemma_device_parent_and_packet(raw: Seq<u8>)
    requires
        spec_device(raw) is Some,
    ensures
        raw.len() >= 16,
        spec_packet(raw.subrange(16, raw.len() as int)) is Some,
        spec_device(raw).unwrap().packet == spec_packet(raw.subrange(16, raw.len() as int)).unwrap(),
        spec_device(raw).unwrap().parent == seq![raw[3], raw[2], raw[1], raw[0], raw[5], raw[4], raw[7], raw[6]]
            + raw.subrange(8, 16),
{
    assert(spec_guid_from_le(raw.subrange(0, 16)) =~= seq![raw[3], raw[2], raw[1], raw[0], raw[5], raw[4], raw[7], raw[6]]
        + raw.subrange(8, 16));
}

/// A whole packet is its body read under its own header.
pub proof fn lemma_packet_is_body_under_header(raw: Seq<u8>)
    requires
        spec_packet(raw) is Some,
    ensures
        spec_header(raw).length >= 16,
        spec_packet(raw) == spec_packet_content(
            raw.subrange(16, spec_header(raw).length as int),
            spec_header(raw),
        ),
{
}

// ----------------------------------------------------------------------
// Reading
// ----------------------------------------------------------------------

fn is_zero_body(raw: &[u8]) -> (r: bool)
    ensures
        r == is_boot_body(raw@),
{
    if raw.len() != 56 {
        return false;
    }
    let mut i: usize = 0;
    while i < 56
        invariant
            i <= 56,
            raw@.len() == 56,
            forall|j: int| 0 <= j < i ==> raw@[j] == 0,
        decreases 56 - i,
    {
        if raw[i] != 0 {
            return false;
        }
        i = i + 1;
    }
    true
}

fn read_partition(raw: &[u8]) -> (r: Option<DevicePacket>)
    ensures
        opt_packet_view(r) == spec_partition(raw@),
{
    if raw.len() < 0x38 {
        return None;
    }
    let partition_type = read_u32_le(raw, 0x14);
    if partition_type == 0 {
        let partition = guid_from_le_bytes(raw, 0x18);
        let disk = guid_from_le_bytes(raw, 0);
        Some(DevicePacket::PartitionGPT(partition, disk))
    } else if partition_type == 1 {
        Some(DevicePacket::PartitionMBR(read_u32_le(raw, 0x18), read_u64_le(raw, 0)))
    } else {
        None
    }
}

impl PacketHeader {
    /// Whether a header can be read from `raw` (see `header_fits`).
    pub fn fits(raw: &[u8]) -> (r: bool)
        ensures
            r == header_fits(raw@),
    {
        if raw.len() < 16 {
            return false;
        }
        let declared = read_u32_le(raw, 8) as u64;
        let extra: u64 = if read_u32_le(raw, 12) != 0 {
            4
        } else {
            0
        };
        declared + extra <= usize::MAX as u64
    }
}

impl Device {
    /// Reads a device element: the parent GUID, then the packet.
    pub fn try_new(raw: &Vec<u8>) -> (r: Option<Device>)
        ensures
            match r {
                Some(d) => spec_device(raw@) == Some(d@),
                None => spec_device(raw@) is None,
            },
    {
        if raw.len() < 16 {
            return None;
        }
        let parent = guid_from_le_bytes(raw.as_slice(), 0);
        let rest = &raw.as_slice()[16..raw.len()];
        match Self::try_packet(rest) {
            Some(packet) => Some(Device { parent, packet }),
            None => None,
        }
    }

    /// Reads a device element; `raw` must hold one (see `try_new`).
    pub fn new(raw: &Vec<u8>) -> (r: Self)
        requires
            spec_device(raw@) is Some,
        ensures
            spec_device(raw@) == Some(r@),
    {
        Self::try_new(raw).unwrap()
    }

    /// Reads a packet, header included, whose size must match its header.
    pub fn try_packet(raw: &[u8]) -> (r: Option<DevicePacket>)
        ensures
            opt_packet_view(r) == spec_packet(raw@),
    {
        if !PacketHeader::fits(raw) {
            return None;
        }
        let header = Self::get_packet_header(raw);
        let extra: usize = if header.unknown != 0 {
            4
        } else {
            0
        };
        let len = raw.len();
        if header.length > usize::MAX - extra || len != header.length + extra
            || header.length < 16 {
            return None;
        }
        Self::try_packet_content(&raw[16..header.length], &header)
    }

    /// Reads a packet; `raw` must hold one (see `try_packet`).
    pub fn get_packet(raw: &[u8]) -> (r: DevicePacket)
        requires
            spec_packet(raw@) is Some,
        ensures
            spec_packet(raw@) == Some(r@),
    {
        Self::try_packet(raw).unwrap()
    }

    /// Reads the header in the first 16 bytes of `raw`.
    pub fn get_packet_header(raw: &[u8]) -> (r: PacketHeader)
        requires
            header_fits(raw@),
        ensures
            r == spec_header(raw@),
    {
        let declared = read_u32_le(raw, 8) as usize;
        let unknown = read_u32_le(raw, 12);
        let extra: usize = if unknown != 0 {
            4
        } else {
            0
        };
        PacketHeader {
            packet_type: read_u32_le(raw, 0),
            flags: read_u32_le(raw, 4),
            length: declared + extra,
            unknown,
        }
    }

    /// Reads the body `raw` of a packet with header `header`.
    pub fn try_packet_content(raw: &[u8], header: &PacketHeader) -> (r: Option<DevicePacket>)
        ensures
            opt_packet_view(r) == spec_packet_content(raw@, *header),
        decreases raw@.len(),
    {
        let len = raw.len();
        if header.unknown == 5 {
            if header.length < 16 || header.length - 16 > len {
                return None;
            }
            let end = header.length - 16;
            let outer = &raw[0..end];
            if !PacketHeader::fits(outer) {
                return None;
            }
            let nested_header = Self::get_packet_header(outer);
            if nested_header.length > end || nested_header.length < 16 {
                return None;
            }
            let path = match utf16_string(&raw[nested_header.length..end]) {
                Some(path) => path,
                None => {
                    return None;
                },
            };
            let nested = match Self::try_packet_content(
                &raw[16..nested_header.length],
                &nested_header,
            ) {
                Some(nested) => nested,
                None => {
                    return None;
                },
            };
            return Some(DevicePacket::Path(header.packet_type, Box::new(nested), path));
        }
        if header.packet_type == 0 {
            let start: usize = if (header.flags == 0) == (header.unknown == 0) {
                0
            } else {
                20
            };
            if start != 0 && len < 20 {
                return None;
            }
            if header.length < 16 || header.length - 16 > len || start > header.length - 16 {
                return None;
            }
            let seg = &raw[start..header.length - 16];
            if !PacketHeader::fits(seg) {
                return None;
            }
            let nested_header = Self::get_packet_header(seg);
            if nested_header.length > usize::MAX - start {
                return None;
            }
            let end = start + nested_header.length;
            if start + 16 > end || end > len {
                return None;
            }
            match Self::try_packet_content(&raw[start + 16..end], &nested_header) {
                Some(_) => Some(DevicePacket::Empty),
                None => None,
            }
        } else if header.packet_type == 5 {
            if is_zero_body(raw) {
                Some(DevicePacket::Boot)
            } else {
                None
            }
        } else if header.packet_type == 6 {
            read_partition(raw)
        } else {
            Some(DevicePacket::Unknown(header.packet_type))
        }
    }

    /// Reads the body of a packet; it must hold what `header` says (see
    /// `try_packet_content`).
    pub fn get_packet_content(raw: &[u8], header: &PacketHeader) -> (r: DevicePacket)
        requires
            spec_packet_content(raw@, *header) is Some,
        ensures
            spec_packet_content(raw@, *header) == Some(r@),
    {
        Self::try_packet_content(raw, header).unwrap()
    }
}

} // verus!
