use satisfactory_sav_parser::{
    ADAString, ActorSaveHeader, Error, MD5Hash, ObjectSaveHeader, PerStreamingLevelSaveData,
    PersistentAndRuntimeSaveData, SaveString, TextHistoryType, Transform, UnresolvedWorldSaveData,
    WPGridValidationData, WorldPartitionValidationData,
};

fn s(text: &str) -> Vec<u8> {
    let mut out = (text.len() as i32).to_le_bytes().to_vec();
    out.extend_from_slice(text.as_bytes());
    out.push(0);
    out
}

#[test]
fn md5_hash_present_and_absent() {
    let mut data = 1u32.to_le_bytes().to_vec();
    data.extend_from_slice(&[9u8; 16]);
    let (h, p) = MD5Hash::read(&data, 0).unwrap();
    assert_eq!(p, 20);
    assert!(h.is_valid);
    assert_eq!(h.bytes, vec![9u8; 16]);

    let data2 = 0u32.to_le_bytes().to_vec();
    let (h2, p2) = MD5Hash::read(&data2, 0).unwrap();
    assert_eq!(p2, 4);
    assert!(!h2.is_valid);
    assert_eq!(h2.bytes, vec![0u8; 16]);
}

#[test]
fn transform_reads_ten_components() {
    let mut data: Vec<u8> = Vec::new();
    for i in 0..10u32 {
        data.extend_from_slice(&(i as f32).to_le_bytes());
    }
    let (t, p) = Transform::read(&data, 0).unwrap();
    assert_eq!(p, 40);
    assert_eq!(t.rotation.len(), 4);
    assert_eq!(t.translation.len(), 3);
    assert_eq!(t.scale.len(), 3);
    assert_eq!(f32::from_bits(t.rotation[0]), 0.0);
    assert_eq!(f32::from_bits(t.scale[2]), 9.0);
}

#[test]
fn text_history_variants() {
    // -1: no history, with a culture-invariant string
    let mut data = vec![0xFFu8];
    data.extend_from_slice(&1u32.to_le_bytes());
    data.extend_from_slice(&s("hello"));
    let (t, p) = TextHistoryType::read(&data, 0).unwrap();
    assert_eq!(p, data.len());
    match t {
        TextHistoryType::NoHistory { has_culture_invariant_string, text_data } => {
            assert!(has_culture_invariant_string);
            assert_eq!(text_data, SaveString::UTF8(b"hello".to_vec()));
        },
        _ => panic!("expected NoHistory"),
    }

    // 0: a base record
    let mut data2 = vec![0u8];
    data2.extend_from_slice(&s("ns"));
    data2.extend_from_slice(&s("key"));
    data2.extend_from_slice(&s("src"));
    let (t2, _) = TextHistoryType::read(&data2, 0).unwrap();
    assert!(matches!(t2, TextHistoryType::Base { .. }));

    // any other discriminant is a hard failure
    let data3 = vec![5u8, 0, 0, 0, 0];
    let e = TextHistoryType::read(&data3, 0).unwrap_err();
    assert!(matches!(e, Error::SizeAssertionFailed { .. }));
}

#[test]
fn object_save_header_chain() {
    let mut data = s("/Class/Name");
    data.extend_from_slice(&s("Level"));
    data.extend_from_slice(&s("Path.Name"));
    data.extend_from_slice(&s("Outer"));
    let (h, p) = ObjectSaveHeader::read(&data, 0).unwrap();
    assert_eq!(p, data.len());
    assert_eq!(h.base_header.class_name, SaveString::UTF8(b"/Class/Name".to_vec()));
    assert_eq!(h.base_header.reference.path_name, SaveString::UTF8(b"Path.Name".to_vec()));
    assert_eq!(h.outer_path_name, SaveString::UTF8(b"Outer".to_vec()));
}

#[test]
fn actor_save_header_reads_flags_and_transform() {
    let mut data = s("/Class");
    data.extend_from_slice(&s("Level"));
    data.extend_from_slice(&s("Path"));
    data.extend_from_slice(&1u32.to_le_bytes()); // need_transform
    for _ in 0..10 {
        data.extend_from_slice(&1.0f32.to_le_bytes());
    }
    data.extend_from_slice(&0u32.to_le_bytes()); // was_placed_in_level
    let (h, p) = ActorSaveHeader::read(&data, 0).unwrap();
    assert_eq!(p, data.len());
    assert!(h.need_transform);
    assert!(!h.was_placed_in_level);
    assert_eq!(f32::from_bits(h.transform.rotation[0]), 1.0);
}

#[test]
fn wp_grid_keeps_duplicate_cell_names() {
    let mut data = 32i32.to_le_bytes().to_vec(); // cell size
    data.extend_from_slice(&0xDEADu32.to_le_bytes()); // grid hash
    data.extend_from_slice(&2i32.to_le_bytes()); // cell count
    data.extend_from_slice(&s("cell_a"));
    data.extend_from_slice(&11u32.to_le_bytes());
    data.extend_from_slice(&s("cell_a"));
    data.extend_from_slice(&22u32.to_le_bytes());
    let (g, p) = WPGridValidationData::read(&data, 0).unwrap();
    assert_eq!(p, data.len());
    assert_eq!(g.cell_size, 32);
    assert_eq!(g.cell_hashes.0.len(), 2);
    assert_eq!(g.cell_hashes.0[0].1, 11);
    assert_eq!(g.cell_hashes.0[1].1, 22);
}

#[test]
fn world_partition_validation_decode() {
    let mut grid = 16i32.to_le_bytes().to_vec();
    grid.extend_from_slice(&7u32.to_le_bytes());
    grid.extend_from_slice(&0i32.to_le_bytes());
    let mut data = 1i32.to_le_bytes().to_vec();
    data.extend_from_slice(&s("MainGrid"));
    data.extend_from_slice(&grid);
    let (w, p) = WorldPartitionValidationData::read(&data, 0).unwrap();
    assert_eq!(p, data.len());
    assert_eq!(w.grids.0.len(), 1);
    assert_eq!(w.grids.0[0].0, SaveString::UTF8(b"MainGrid".to_vec()));
    assert_eq!(w.grids.0[0].1.grid_hash, 7);
}

#[test]
fn persistent_and_runtime_save_data_decode() {
    let mut data: Vec<u8> = Vec::new();
    data.extend_from_slice(&3i64.to_le_bytes());
    data.extend_from_slice(&[1, 2, 3]); // toc blob
    data.extend_from_slice(&2i64.to_le_bytes());
    data.extend_from_slice(&[4, 5]); // data blob
    data.extend_from_slice(&1i32.to_le_bytes()); // one map entry
    data.extend_from_slice(&s("LevelA"));
    data.extend_from_slice(&1i32.to_le_bytes()); // one destroyed actor
    data.extend_from_slice(&s("LevelA"));
    data.extend_from_slice(&s("Actor.Path"));
    let (d, p) = PersistentAndRuntimeSaveData::read(&data, 0).unwrap();
    assert_eq!(p, data.len());
    assert_eq!(d.toc_blob.0, vec![1, 2, 3]);
    assert_eq!(d.data_blob.0, vec![4, 5]);
    assert_eq!(d.level_to_destroyed_actors.0.len(), 1);
    assert_eq!(d.level_to_destroyed_actors.0[0].1.0.len(), 1);
}

#[test]
fn per_streaming_level_save_data_decode() {
    let mut data: Vec<u8> = Vec::new();
    data.extend_from_slice(&0i64.to_le_bytes());
    data.extend_from_slice(&0i64.to_le_bytes());
    data.extend_from_slice(&0i32.to_le_bytes());
    let (_d, p) = PerStreamingLevelSaveData::read(&data, 0).unwrap();
    assert_eq!(p, data.len());
}

#[test]
fn unresolved_world_save_data_decode() {
    let mut data = 1i32.to_le_bytes().to_vec();
    data.extend_from_slice(&s("L"));
    data.extend_from_slice(&s("P"));
    let (d, p) = UnresolvedWorldSaveData::read(&data, 0).unwrap();
    assert_eq!(p, data.len());
    assert_eq!(d.destroyed_actors.0.len(), 1);
}

#[test]
fn ada_string_decode_and_text() {
    let mut data = (2i32).to_le_bytes().to_vec();
    data.extend_from_slice(b"ok");
    data.push(0);
    let (a, p) = ADAString::read(&data, 0).unwrap();
    assert_eq!(p, 7);
    assert!(matches!(a, ADAString::UTF8(_)));
    assert_eq!(a.to_text(), "ok");
}
