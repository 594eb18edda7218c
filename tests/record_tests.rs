use wgpu_poc::record::{PlacementRecord, RECORD_LEN};
use wgpu_poc::uniforms::{UniformBinding, UniformStore};

fn rec(x: f32, y: f32, a: f32, b: f32) -> PlacementRecord {
    PlacementRecord { x: x.to_bits(), y: y.to_bits(), a: a.to_bits(), b: b.to_bits() }
}

fn packed(v: [f32; 4]) -> Vec<u8> {
    let mut out = Vec::new();
    for f in v {
        out.extend_from_slice(&f.to_le_bytes());
    }
    out
}

#[test]
fn encode_matches_plain_float_pack() {
    let r = rec(200.0, 200.0, 1.0, 1.0);
    let bytes = r.encode();
    assert_eq!(bytes.len(), RECORD_LEN);
    assert_eq!(bytes, packed([200.0, 200.0, 1.0, 1.0]));
}

#[test]
fn encode_of_origin_record() {
    let bytes = rec(0.0, 0.0, 0.0, 1.0).encode();
    assert_eq!(bytes, vec![0, 0, 0, 0, 0, 0, 0, 0, 0, 0, 0, 0, 0, 0, 0x80, 0x3f]);
}

#[test]
fn round_trip_is_bit_exact() {
    let samples = [
        rec(0.0, -0.0, 1.5, -3.25),
        rec(f32::MAX, f32::MIN_POSITIVE, f32::INFINITY, f32::NEG_INFINITY),
        PlacementRecord { x: 0x7fc0_0001, y: 0xffff_ffff, a: 1, b: 0x8000_0000 },
    ];
    for r in samples {
        let back = PlacementRecord::decode(&r.encode());
        assert_eq!(back, Some(r));
    }
}

#[test]
fn decode_rejects_wrong_lengths() {
    assert_eq!(PlacementRecord::decode(&[]), None);
    assert_eq!(PlacementRecord::decode(&[0u8; 15]), None);
    assert_eq!(PlacementRecord::decode(&[0u8; 17]), None);
}

#[test]
fn decode_reads_little_endian_fields() {
    let mut bytes = Vec::new();
    for v in [1u32, 0x0403_0201, 0xdead_beef, 7] {
        bytes.extend_from_slice(&v.to_le_bytes());
    }
    let r = PlacementRecord::decode(&bytes).unwrap();
    assert_eq!(r, PlacementRecord { x: 1, y: 0x0403_0201, a: 0xdead_beef, b: 7 });
}

#[test]
fn uniform_store_is_index_aligned() {
    let objects = [rec(0.0, 0.0, 0.0, 1.0), rec(200.0, 200.0, 1.0, 1.0)];
    let store = UniformStore::build_object_bindings(&objects);
    assert_eq!(store.buffers.len(), 2);
    assert_eq!(store.bindings.len(), 2);
    for i in 0..2 {
        assert_eq!(store.bindings[i], UniformBinding { buffer: i, size: 16 });
        assert_eq!(store.buffers[i], objects[i].encode());
    }
}

#[test]
fn uniform_store_follows_reordering() {
    let objects = [rec(200.0, 200.0, 1.0, 1.0), rec(0.0, 0.0, 0.0, 1.0), rec(5.0, 6.0, 7.0, 8.0)];
    let store = UniformStore::build_object_bindings(&objects);
    assert_eq!(store.bindings.len(), 3);
    assert_eq!(store.buffers[0], packed([200.0, 200.0, 1.0, 1.0]));
    assert_eq!(store.buffers[1], packed([0.0, 0.0, 0.0, 1.0]));
    assert_eq!(store.buffers[2], packed([5.0, 6.0, 7.0, 8.0]));
    assert_eq!(store.bindings[2].buffer, 2);
}

#[test]
fn uniform_store_of_no_objects_is_empty() {
    let store = UniformStore::build_object_bindings(&[]);
    assert!(store.buffers.is_empty());
    assert!(store.bindings.is_empty());
}

#[test]
fn rewrite_keeps_binding_sets() {
    let objects = [rec(0.0, 0.0, 0.0, 1.0), rec(200.0, 200.0, 1.0, 1.0)];
    let mut store = UniformStore::build_object_bindings(&objects);
    let before = store.bindings.clone();
    store.rewrite(1, rec(10.0, 20.0, 0.5, 2.0));
    assert_eq!(store.bindings, before);
    assert_eq!(store.buffers[0], packed([0.0, 0.0, 0.0, 1.0]));
    assert_eq!(store.buffers[1], packed([10.0, 20.0, 0.5, 2.0]));
}
