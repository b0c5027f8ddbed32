use aperture::shader::{ShaderModule, ShaderStage, Shaders};

// The SPIR-V magic number 0x07230203 in little-endian byte order.
const MAGIC_LE: [u8; 4] = [0x03, 0x02, 0x23, 0x07];
// The same word in big-endian byte order.
const MAGIC_BE: [u8; 4] = [0x07, 0x23, 0x02, 0x03];

fn le_blob(words: &[u32]) -> Vec<u8> {
    let mut bytes = MAGIC_LE.to_vec();
    for w in words {
        bytes.extend_from_slice(&w.to_le_bytes());
    }
    bytes
}

fn be_blob(words: &[u32]) -> Vec<u8> {
    let mut bytes = MAGIC_BE.to_vec();
    for w in words {
        bytes.extend_from_slice(&w.to_be_bytes());
    }
    bytes
}

#[test]
fn decodes_little_endian_blobs() {
    let blob = le_blob(&[0x0001_0000, 42]);
    let module = ShaderModule::new(&blob, ShaderStage::Vertex).unwrap();
    assert_eq!(module.stage, ShaderStage::Vertex);
    assert_eq!(module.code, vec![0x0723_0203, 0x0001_0000, 42]);
}

#[test]
fn byte_swaps_big_endian_blobs() {
    // The decoded words must equal the little-endian decode of the same
    // module: the loader normalises byte order, it does not copy bytes.
    let blob = be_blob(&[0x0001_0000, 42]);
    let module = ShaderModule::new(&blob, ShaderStage::Fragment).unwrap();
    assert_eq!(module.code, vec![0x0723_0203, 0x0001_0000, 42]);
}

#[test]
fn rejects_a_ragged_blob() {
    let mut blob = le_blob(&[1]);
    blob.push(0);
    assert!(ShaderModule::new(&blob, ShaderStage::Vertex).is_none());
}

#[test]
fn rejects_an_empty_blob() {
    assert!(ShaderModule::new(&[], ShaderStage::Vertex).is_none());
}

#[test]
fn rejects_a_blob_without_the_magic_number() {
    let blob = [1u8, 2, 3, 4, 5, 6, 7, 8];
    assert!(ShaderModule::new(&blob, ShaderStage::Vertex).is_none());
}

#[test]
fn shaders_load_all_seven_entry_points() {
    let blob = le_blob(&[7]);
    let shaders = Shaders::new(&blob, &blob, &blob, &blob, &blob, &blob, &blob).unwrap();
    assert_eq!(shaders.cubemap_vert.stage, ShaderStage::Vertex);
    assert_eq!(shaders.cubemap_frag.stage, ShaderStage::Fragment);
    assert_eq!(shaders.offscreen_cube_vert.stage, ShaderStage::Vertex);
    assert_eq!(shaders.offscreen_cube_frag.stage, ShaderStage::Fragment);
    assert_eq!(shaders.vertex.stage, ShaderStage::Vertex);
    assert_eq!(shaders.fragment.stage, ShaderStage::Fragment);
    assert_eq!(shaders.depth.stage, ShaderStage::Fragment);
    assert_eq!(shaders.vertex.code, vec![0x0723_0203, 7]);
}

#[test]
fn shaders_fail_when_one_blob_is_bad() {
    let good = le_blob(&[7]);
    let bad = vec![0u8; 5];
    assert!(Shaders::new(&good, &good, &good, &good, &good, &bad, &good).is_none());
}
