use aperture::buffer::{Buffer, BUFFER_USAGE_TRANSFER_DST, BUFFER_USAGE_VERTEX_BUFFER};
use aperture::memory::{find_memorytype_index, MemoryProperties, MemoryRequirements};

const DEVICE_LOCAL: u32 = 0x1;
const HOST_VISIBLE: u32 = 0x2;
const HOST_COHERENT: u32 = 0x4;

#[test]
fn memory_selection_returns_index_three() {
    // The requirement mask allows types 1 and 3; only type 3 carries the
    // desired flags.
    let req = MemoryRequirements { size: 64, memory_type_bits: 0b1010 };
    let props = MemoryProperties {
        memory_types: vec![DEVICE_LOCAL, HOST_VISIBLE, DEVICE_LOCAL, DEVICE_LOCAL],
    };
    assert_eq!(find_memorytype_index(&req, &props, DEVICE_LOCAL), Some(3));
}

#[test]
fn memory_selection_fails_when_nothing_matches() {
    let req = MemoryRequirements { size: 64, memory_type_bits: 0b0001 };
    let props = MemoryProperties { memory_types: vec![HOST_VISIBLE, DEVICE_LOCAL] };
    assert_eq!(find_memorytype_index(&req, &props, DEVICE_LOCAL), None);
}

#[test]
fn memory_selection_takes_the_first_match() {
    let req = MemoryRequirements { size: 64, memory_type_bits: 0b1111 };
    let props = MemoryProperties {
        memory_types: vec![
            HOST_VISIBLE,
            HOST_VISIBLE | HOST_COHERENT,
            HOST_VISIBLE | HOST_COHERENT,
        ],
    };
    assert_eq!(
        find_memorytype_index(&req, &props, HOST_VISIBLE | HOST_COHERENT),
        Some(1)
    );
}

#[test]
fn memory_selection_respects_the_requirement_mask() {
    let req = MemoryRequirements { size: 64, memory_type_bits: 0b0100 };
    let props = MemoryProperties {
        memory_types: vec![DEVICE_LOCAL, DEVICE_LOCAL, DEVICE_LOCAL],
    };
    assert_eq!(find_memorytype_index(&req, &props, DEVICE_LOCAL), Some(2));
}

#[test]
fn buffer_new_reserves_zeroed_bytes() {
    let buffer = Buffer::new(8, BUFFER_USAGE_VERTEX_BUFFER);
    assert_eq!(buffer.reserved_size, 8);
    assert_eq!(buffer.used_size, 0);
    assert_eq!(buffer.usage, BUFFER_USAGE_VERTEX_BUFFER | BUFFER_USAGE_TRANSFER_DST);
    assert_eq!(buffer.read_region(0, 8), vec![0u8; 8]);
}

#[test]
fn buffer_upload_round_trips_bytes() {
    // Three interleaved vertices worth of payload, read back byte for byte.
    let payload: Vec<u8> = (1u8..=96).collect();
    let mut buffer = Buffer::new(128, BUFFER_USAGE_VERTEX_BUFFER);
    buffer.upload(&payload, 0);
    assert_eq!(buffer.used_size, 96);
    assert_eq!(buffer.read_region(0, 96), payload);
    // Bytes beyond the upload stay zero.
    assert_eq!(buffer.read_region(96, 32), vec![0u8; 32]);
}

#[test]
fn buffer_upload_at_offset_leaves_other_bytes() {
    let mut buffer = Buffer::new(8, 0);
    buffer.upload(&[0xAA, 0xBB], 3);
    assert_eq!(buffer.read_region(0, 8), vec![0, 0, 0, 0xAA, 0xBB, 0, 0, 0]);
}
