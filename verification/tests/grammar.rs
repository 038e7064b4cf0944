use satisfactory_sav_parser::{
    BytePropertyValue, Error, Level, Object, ObjectType, Property, PropertyList, Parser,
    SaveString, SizedMap, TypedData, MAX_CHUNK_SIZE,
};

fn s(text: &str) -> Vec<u8> {
    let mut out = (text.len() as i32).to_le_bytes().to_vec();
    out.extend_from_slice(text.as_bytes());
    out.push(0);
    out
}

fn int_property_payload(value: i32) -> Vec<u8> {
    let mut out: Vec<u8> = Vec::new();
    out.extend_from_slice(&4i32.to_le_bytes()); // size
    out.extend_from_slice(&0i32.to_le_bytes()); // index
    out.push(0); // pad
    out.extend_from_slice(&value.to_le_bytes());
    out
}

fn list_entry(name: &str, tag: &str, payload: &[u8]) -> Vec<u8> {
    let mut out = s(name);
    out.extend_from_slice(&s(tag));
    out.extend_from_slice(payload);
    out
}

#[test]
fn int_property_decode() {
    let data = int_property_payload(-42);
    let tag = SaveString::UTF8(b"IntProperty".to_vec());
    let (p, consumed) = Property::read(&data, 0, &tag).unwrap();
    assert_eq!(consumed, 13);
    match p {
        Property::Int(ip) => {
            assert_eq!(ip.size, 4);
            assert_eq!(ip.index, 0);
            assert_eq!(ip.value, -42);
        },
        _ => panic!("expected Int"),
    }
}

#[test]
fn unknown_tag_fails() {
    let data = int_property_payload(1);
    let tag = SaveString::UTF8(b"MysteryProperty".to_vec());
    let e = Property::read(&data, 0, &tag).unwrap_err();
    assert!(matches!(e, Error::UnknownTag { .. }));
}

#[test]
fn array_unknown_element_tag_fails_before_elements() {
    // An array that declares three elements of an unrecognized type fails
    // with UnknownTag at once, not after walking the declared count.
    let mut data: Vec<u8> = Vec::new();
    data.extend_from_slice(&0i32.to_le_bytes()); // size
    data.extend_from_slice(&0i32.to_le_bytes()); // index
    data.extend_from_slice(&s("BogusProperty")); // element type
    data.push(0); // pad
    data.extend_from_slice(&3i32.to_le_bytes()); // declared count, no elements follow
    let tag = SaveString::UTF8(b"ArrayProperty".to_vec());
    let e = Property::read(&data, 0, &tag).unwrap_err();
    assert!(matches!(e, Error::UnknownTag { .. }));
}

#[test]
fn array_uniform_elements() {
    let mut data: Vec<u8> = Vec::new();
    data.extend_from_slice(&0i32.to_le_bytes());
    data.extend_from_slice(&0i32.to_le_bytes());
    data.extend_from_slice(&s("IntProperty"));
    data.push(0);
    data.extend_from_slice(&2i32.to_le_bytes());
    data.extend_from_slice(&int_property_payload(5));
    data.extend_from_slice(&int_property_payload(6));
    let tag = SaveString::UTF8(b"ArrayProperty".to_vec());
    let (p, _) = Property::read(&data, 0, &tag).unwrap();
    match p {
        Property::Array(a) => {
            assert_eq!(a.elements.0.len(), 2);
            assert!(matches!(a.elements.0[0], Property::Int(_)));
            assert!(matches!(a.elements.0[1], Property::Int(_)));
        },
        _ => panic!("expected Array"),
    }
}

#[test]
fn property_list_stops_at_first_none() {
    let mut data = list_entry("speed", "IntProperty", &int_property_payload(9));
    data.extend_from_slice(&s("None"));
    data.extend_from_slice(&s("leftover"));
    let (list, consumed) = PropertyList::read(&data, 0).unwrap();
    assert_eq!(list.0.len(), 1);
    assert_eq!(list.0[0].0, SaveString::UTF8(b"speed".to_vec()));
    // the sentinel is consumed, the bytes after it are not
    assert_eq!(consumed, data.len() - s("leftover").len());
}

#[test]
fn nested_none_terminates_only_the_inner_list() {
    // A struct property with an unmatched struct type holds a nested
    // property list; its sentinel ends the inner list only, and the outer
    // list goes on to its own sentinel.
    let mut inner = list_entry("inner", "IntProperty", &int_property_payload(1));
    inner.extend_from_slice(&s("None"));
    let mut struct_payload: Vec<u8> = Vec::new();
    struct_payload.extend_from_slice(&0i32.to_le_bytes()); // size
    struct_payload.extend_from_slice(&0i32.to_le_bytes()); // index
    struct_payload.extend_from_slice(&s("SomethingCustom"));
    struct_payload.extend_from_slice(&[0u8; 17]);
    struct_payload.extend_from_slice(&inner);

    let mut data = list_entry("outer_struct", "StructProperty", &struct_payload);
    data.extend_from_slice(&list_entry("after", "IntProperty", &int_property_payload(2)));
    data.extend_from_slice(&s("None"));

    let (list, consumed) = PropertyList::read(&data, 0).unwrap();
    assert_eq!(consumed, data.len());
    assert_eq!(list.0.len(), 2);
    match &list.0[0].1 {
        Property::Struct(sp) => match &sp.typed_data {
            TypedData::PropertyList(pl) => assert_eq!(pl.0.len(), 1),
            _ => panic!("expected nested property list"),
        },
        _ => panic!("expected Struct"),
    }
    assert!(matches!(&list.0[1].1, Property::Int(_)));
}

#[test]
fn map_property_keeps_duplicate_keys_in_order() {
    let mut data: Vec<u8> = Vec::new();
    data.extend_from_slice(&0i32.to_le_bytes()); // size
    data.extend_from_slice(&0i32.to_le_bytes()); // index
    data.extend_from_slice(&s("IntProperty")); // key type
    data.extend_from_slice(&s("IntProperty")); // value type
    data.push(0); // pad
    data.extend_from_slice(&0i32.to_le_bytes()); // mode
    data.extend_from_slice(&2i32.to_le_bytes()); // count
    // two entries with the same key 7 and different values
    data.extend_from_slice(&int_property_payload(7));
    data.extend_from_slice(&int_property_payload(100));
    data.extend_from_slice(&int_property_payload(7));
    data.extend_from_slice(&int_property_payload(200));
    let tag = SaveString::UTF8(b"MapProperty".to_vec());
    let (p, _) = Property::read(&data, 0, &tag).unwrap();
    match p {
        Property::MapProp(m) => {
            assert_eq!(m.elements.0.len(), 2);
            let v0 = match &m.elements.0[0].value {
                Property::Int(ip) => ip.value,
                _ => panic!("expected Int value"),
            };
            let v1 = match &m.elements.0[1].value {
                Property::Int(ip) => ip.value,
                _ => panic!("expected Int value"),
            };
            assert_eq!(v0, 100);
            assert_eq!(v1, 200);
        },
        _ => panic!("expected Map"),
    }
}

#[test]
fn sized_map_preserves_insertion_order() {
    let mut m: SizedMap<i32, i32> = SizedMap::new();
    m.insert(7, 100);
    m.insert(3, 50);
    m.insert(7, 200);
    assert_eq!(m.len(), 3);
    assert_eq!(m.0[0], (7, 100));
    assert_eq!(m.0[1], (3, 50));
    assert_eq!(m.0[2], (7, 200));
}

#[test]
fn byte_property_nested_dispatch() {
    // inner tag "None" carries a raw byte
    let mut data: Vec<u8> = Vec::new();
    data.extend_from_slice(&1i32.to_le_bytes());
    data.extend_from_slice(&0i32.to_le_bytes());
    data.extend_from_slice(&s("None"));
    data.push(0);
    data.push(0xFFu8); // the byte -1
    let tag = SaveString::UTF8(b"ByteProperty".to_vec());
    let (p, _) = Property::read(&data, 0, &tag).unwrap();
    match p {
        Property::Byte(bp) => assert!(matches!(bp.value, BytePropertyValue::Byte(-1))),
        _ => panic!("expected Byte"),
    }
    // any other inner tag carries a string
    let mut data2: Vec<u8> = Vec::new();
    data2.extend_from_slice(&0i32.to_le_bytes());
    data2.extend_from_slice(&0i32.to_le_bytes());
    data2.extend_from_slice(&s("EGamePhase"));
    data2.push(0);
    data2.extend_from_slice(&s("EGP_Two"));
    let (p2, _) = Property::read(&data2, 0, &tag).unwrap();
    match p2 {
        Property::Byte(bp) => match bp.value {
            BytePropertyValue::Str(v) => assert_eq!(v, SaveString::UTF8(b"EGP_Two".to_vec())),
            _ => panic!("expected string payload"),
        },
        _ => panic!("expected Byte"),
    }
}

#[test]
fn bool_property_nonzero_is_true() {
    let mut data: Vec<u8> = Vec::new();
    data.extend_from_slice(&0i32.to_le_bytes()); // pad (size)
    data.extend_from_slice(&0i32.to_le_bytes()); // index
    data.extend_from_slice(&2u32.to_le_bytes()); // nonzero 32-bit => true
    data.push(0);
    let tag = SaveString::UTF8(b"BoolProperty".to_vec());
    let (p, _) = Property::read(&data, 0, &tag).unwrap();
    match p {
        Property::Bool(bp) => assert!(bp.value),
        _ => panic!("expected Bool"),
    }
}

#[test]
fn typed_data_vector_keeps_float_bits() {
    let mut payload: Vec<u8> = Vec::new();
    payload.extend_from_slice(&0i32.to_le_bytes());
    payload.extend_from_slice(&0i32.to_le_bytes());
    payload.extend_from_slice(&s("Vector"));
    payload.extend_from_slice(&[0u8; 17]);
    for f in [1.0f32, -2.5, 0.0] {
        payload.extend_from_slice(&f.to_le_bytes());
    }
    let tag = SaveString::UTF8(b"StructProperty".to_vec());
    let (p, consumed) = Property::read(&payload, 0, &tag).unwrap();
    assert_eq!(consumed, payload.len());
    match p {
        Property::Struct(sp) => match sp.typed_data {
            TypedData::Vector { x, y, z } => {
                assert_eq!(f32::from_bits(x), 1.0);
                assert_eq!(f32::from_bits(y), -2.5);
                assert_eq!(f32::from_bits(z), 0.0);
            },
            _ => panic!("expected Vector"),
        },
        _ => panic!("expected Struct"),
    }
}

fn actor_header_bytes() -> Vec<u8> {
    let mut out = 1i32.to_le_bytes().to_vec(); // discriminant: Actor
    out.extend_from_slice(&s("/Type/Path"));
    out.extend_from_slice(&s("Root"));
    out.extend_from_slice(&s("Instance_1"));
    out.extend_from_slice(&1i32.to_le_bytes()); // need_transform
    for _ in 0..10 {
        out.extend_from_slice(&0.0f32.to_le_bytes());
    }
    out.extend_from_slice(&1i32.to_le_bytes()); // was_placed_in_level
    out
}

fn component_header_bytes() -> Vec<u8> {
    let mut out = 0i32.to_le_bytes().to_vec(); // discriminant: Component
    out.extend_from_slice(&s("/Type/Component"));
    out.extend_from_slice(&s("Root"));
    out.extend_from_slice(&s("Instance_1.Comp"));
    out.extend_from_slice(&s("Instance_1"));
    out
}

fn actor_object_bytes() -> Vec<u8> {
    let mut out = 0i32.to_le_bytes().to_vec(); // size
    out.extend_from_slice(&s("Root"));
    out.extend_from_slice(&s("Instance_1"));
    out.extend_from_slice(&0i32.to_le_bytes()); // component count
    out.extend_from_slice(&s("None")); // empty property list
    out.extend_from_slice(&[0u8; 16]); // trailer
    out
}

fn component_object_bytes() -> Vec<u8> {
    let mut out = 0i32.to_le_bytes().to_vec(); // size
    out.extend_from_slice(&s("None"));
    out.extend_from_slice(&[0u8; 16]);
    out
}

fn level_bytes(object_count: i32) -> Vec<u8> {
    let mut out: Vec<u8> = Vec::new();
    out.extend_from_slice(&0i32.to_le_bytes()); // advisory size
    out.extend_from_slice(&2i32.to_le_bytes()); // header count
    out.extend_from_slice(&actor_header_bytes());
    out.extend_from_slice(&component_header_bytes());
    out.extend_from_slice(&0i32.to_le_bytes()); // collectables
    out.extend_from_slice(&0i32.to_le_bytes()); // advisory objects size
    out.extend_from_slice(&object_count.to_le_bytes());
    out.extend_from_slice(&actor_object_bytes());
    out.extend_from_slice(&component_object_bytes());
    out.extend_from_slice(&0i32.to_le_bytes()); // collections_2
    out
}

#[test]
fn level_objects_follow_their_headers() {
    // two headers (Actor, Component): the second pass must consume exactly
    // two objects, each of the variant its header dictates.
    let data = level_bytes(2);
    let (level, consumed) = Level::read(&data, 0, false).unwrap();
    assert_eq!(consumed, data.len());
    assert_eq!(level.object_headers.0.len(), 2);
    assert_eq!(level.objects.len(), 2);
    assert!(matches!(level.objects[0], Object::Actor(_)));
    assert!(matches!(level.objects[1], Object::Component(_)));
    assert!(matches!(ObjectType::Actor, ObjectType::Actor));
}

#[test]
fn header_object_count_mismatch_fails() {
    // a declared object count that disagrees with the header count must
    // fail, never silently truncate.
    let data = level_bytes(1);
    let e = Level::read(&data, 0, false).unwrap_err();
    assert!(matches!(e, Error::LengthMismatch { .. }));
}

#[test]
fn parser_reads_header_and_body() {
    // metadata header followed by one compressed chunk holding a minimal
    // body: no sublevels, an empty persistent level, no references.
    let mut header: Vec<u8> = Vec::new();
    header.extend_from_slice(&13i32.to_le_bytes());
    header.extend_from_slice(&46i32.to_le_bytes());
    header.extend_from_slice(&366202i32.to_le_bytes());
    header.extend_from_slice(&s("Persistent_Level"));
    header.extend_from_slice(&s("?options"));
    header.extend_from_slice(&s("my session"));
    header.extend_from_slice(&3600i32.to_le_bytes());
    header.extend_from_slice(&638000000000000000i64.to_le_bytes());
    header.push(1); // session visibility
    header.extend_from_slice(&40i32.to_le_bytes());
    header.extend_from_slice(&s("{}"));
    header.extend_from_slice(&0u32.to_le_bytes()); // not modded
    header.extend_from_slice(&s("save-id"));
    header.extend_from_slice(&1u32.to_le_bytes()); // partitioned
    header.extend_from_slice(&[7u8; 20]); // md5
    header.extend_from_slice(&0u32.to_le_bytes()); // not creative

    let mut body: Vec<u8> = Vec::new();
    body.extend_from_slice(&0i64.to_le_bytes()); // declared size (advisory)
    body.extend_from_slice(&0i32.to_le_bytes()); // no sublevels
    // persistent level with nothing in it
    body.extend_from_slice(&0i32.to_le_bytes());
    body.extend_from_slice(&0i32.to_le_bytes());
    body.extend_from_slice(&0i32.to_le_bytes());
    body.extend_from_slice(&0i32.to_le_bytes());
    body.extend_from_slice(&0i32.to_le_bytes());
    body.extend_from_slice(&0i32.to_le_bytes());
    // trailing object references
    body.extend_from_slice(&0i32.to_le_bytes());

    let compressed = miniz_oxide::deflate::compress_to_vec_zlib(&body, 6);
    let mut stream = header;
    stream.extend_from_slice(&0x9E2A83C1u32.to_le_bytes());
    stream.extend_from_slice(&0x11111111u32.to_le_bytes());
    stream.extend_from_slice(&MAX_CHUNK_SIZE.to_le_bytes());
    let cs = compressed.len() as i64;
    let us = body.len() as i64;
    stream.extend_from_slice(&cs.to_le_bytes());
    stream.extend_from_slice(&us.to_le_bytes());
    stream.extend_from_slice(&cs.to_le_bytes());
    stream.extend_from_slice(&us.to_le_bytes());
    stream.extend_from_slice(&compressed);

    let mut parser = Parser::new(stream);
    let h = parser.read_header().unwrap();
    assert_eq!(h.save_header_version, 13);
    assert_eq!(h.map_name, SaveString::UTF8(b"Persistent_Level".to_vec()));
    assert!(!h.is_modded_save);
    assert!(h.is_partitioned_world);
    assert_eq!(h.md5_hash, vec![7u8; 20]);
    let b = parser.read_body().unwrap();
    assert_eq!(b.sub_levels.0.len(), 0);
    assert_eq!(b.persistent_level.objects.len(), 0);
    assert_eq!(b.object_references.0.len(), 0);
}
