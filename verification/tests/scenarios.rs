//! Scenario tests: existence before and after writes, decode errors,
//! base58 rendering, nested-map resolution and the key space.

use wasmlib::codec::decode_int64;
use wasmlib::host::ScHostState;
use wasmlib::host::TYPE_ARRAY;
use wasmlib::host::TYPE_BYTES;
use wasmlib::host::TYPE_INT;
use wasmlib::host::TYPE_MAP;
use wasmlib::immutable::ScImmutableMap;
use wasmlib::keys::Key32;
use wasmlib::keys::KeySpace;

#[test]
fn absent_until_written() {
    let mut host = ScHostState::new();
    let root = host.add_container();
    let map = ScImmutableMap::new(root);
    let mut ks = KeySpace::new();
    let key = String::from("n");
    let proxy = map.get_int(&key, &mut ks);
    assert!(!proxy.has_value(&host));
    let kid = ks.key_id(&key);
    host.set_int(root, kid, 7);
    assert!(proxy.has_value(&host));
    let other = map.get_int(&String::from("other"), &mut ks);
    assert!(!other.has_value(&host));
}

#[test]
fn existence_is_per_type_tag() {
    let mut host = ScHostState::new();
    let root = host.add_container();
    let map = ScImmutableMap::new(root);
    let mut ks = KeySpace::new();
    let key = String::from("slot");
    let kid = ks.key_id(&key);
    host.set_int(root, kid, 1);
    assert!(map.get_int(&key, &mut ks).has_value(&host));
    assert!(!map.get_bytes(&key, &mut ks).has_value(&host));
    assert!(!map.get_string(&key, &mut ks).has_value(&host));
}

#[test]
fn absent_on_unknown_container() {
    let host = ScHostState::new();
    let map = ScImmutableMap::new(99);
    let mut ks = KeySpace::new();
    let proxy = map.get_int(&String::from("n"), &mut ks);
    assert!(!proxy.has_value(&host));
    assert_eq!(map.length(&host), 0);
}

#[test]
fn int_decodes_exact_little_endian() {
    let mut host = ScHostState::new();
    let root = host.add_container();
    let map = ScImmutableMap::new(root);
    let mut ks = KeySpace::new();
    let key = String::from("n");
    let kid = ks.key_id(&key);
    let buffer: Vec<u8> = vec![0x01, 0, 0, 0, 0, 0, 0, 0];
    host.set_bytes(root, kid, TYPE_INT, &buffer);
    let proxy = map.get_int(&key, &mut ks);
    assert_eq!(proxy.value(&host), 1);
}

#[test]
fn int_decode_rejects_wrong_width() {
    let seven: Vec<u8> = vec![0x01, 0, 0, 0, 0, 0, 0];
    assert!(decode_int64(&seven).is_none());
    let nine: Vec<u8> = vec![0x01, 0, 0, 0, 0, 0, 0, 0, 0];
    assert!(decode_int64(&nine).is_none());
    let eight: Vec<u8> = vec![0x01, 0, 0, 0, 0, 0, 0, 0];
    assert_eq!(decode_int64(&eight), Some(1));
    let negative: Vec<u8> = vec![0xff; 8];
    assert_eq!(decode_int64(&negative), Some(-1));
}

#[test]
fn bytes_render_base58() {
    let mut host = ScHostState::new();
    let root = host.add_container();
    let map = ScImmutableMap::new(root);
    let mut ks = KeySpace::new();
    let key = String::from("blob");
    let kid = ks.key_id(&key);
    let bytes: Vec<u8> = vec![0, 1, 2];
    host.set_bytes(root, kid, TYPE_BYTES, &bytes);
    let proxy = map.get_bytes(&key, &mut ks);
    assert_eq!(proxy.to_string(&host), "15T");
    assert_eq!(proxy.to_string(&host), bs58::encode(&bytes).into_string());
}

#[test]
fn nested_map_resolution_is_idempotent() {
    let mut host = ScHostState::new();
    let root = host.add_container();
    let map = ScImmutableMap::new(root);
    let mut ks = KeySpace::new();
    let key = String::from("inner");
    let kid = ks.key_id(&key);
    let child1 = host.get_object_id(root, kid, TYPE_MAP);
    let child2 = host.get_object_id(root, kid, TYPE_MAP);
    assert_eq!(child1, child2);
    host.set_int(child1, Key32(0), 99);
    let inner_a = map.get_map(&key, &mut ks, &mut host);
    let inner_b = map.get_map(&key, &mut ks, &mut host);
    let mut ks2 = KeySpace::new();
    assert_eq!(inner_a.get_int(&0i32, &mut ks2).value(&host), 99);
    assert_eq!(inner_b.get_int(&0i32, &mut ks2).value(&host), 99);
    // a fresh root takes the very next id: nothing was allocated twice
    let next = host.add_container();
    assert_eq!(next, child1 + 1);
}

#[test]
fn map_array_elements_resolve_distinct_maps() {
    let mut host = ScHostState::new();
    let root = host.add_container();
    let map = ScImmutableMap::new(root);
    let mut ks = KeySpace::new();
    let key = String::from("rows");
    let kid = ks.key_id(&key);
    let arr_id = host.get_object_id(root, kid, TYPE_MAP + TYPE_ARRAY);
    let row0 = host.get_object_id(arr_id, Key32(0), TYPE_MAP);
    let row1 = host.get_object_id(arr_id, Key32(1), TYPE_MAP);
    assert_ne!(row0, row1);
    host.set_int(row0, Key32(5), 10);
    host.set_int(row1, Key32(5), 20);
    let arr = map.get_map_array(&key, &mut ks, &mut host);
    let m0 = arr.get_map(0, &mut host);
    let m1 = arr.get_map(1, &mut host);
    let mut ks2 = KeySpace::new();
    assert_eq!(m0.get_int(&5i32, &mut ks2).value(&host), 10);
    assert_eq!(m1.get_int(&5i32, &mut ks2).value(&host), 20);
}

#[test]
fn key_space_is_deterministic() {
    let mut ks = KeySpace::new();
    let a1 = ks.key_id(&String::from("alpha"));
    let b1 = ks.key_id(&String::from("beta"));
    let a2 = ks.key_id(&String::from("alpha"));
    let b2 = ks.key_id(&String::from("beta"));
    assert_eq!(a1, a2);
    assert_eq!(b1, b2);
    assert_ne!(a1, b1);
}

#[test]
fn scenario_count_key_resolves_to_seven() {
    let mut host = ScHostState::new();
    host.add_container();
    let root = host.add_container();
    assert_eq!(root, 1);
    let mut ks = KeySpace::new();
    for name in ["k0", "k1", "k2", "k3", "k4", "k5", "k6"] {
        ks.key_id(&String::from(name));
    }
    let kid = ks.key_id(&String::from("count"));
    assert_eq!(kid, Key32(7));
    host.set_int(root, kid, 42);
    let map = ScImmutableMap::new(root);
    let count = map.get_int(&String::from("count"), &mut ks);
    assert!(count.has_value(&host));
    assert_eq!(count.value(&host), 42);
    let missing = map.get_int(&String::from("missing"), &mut ks);
    assert!(!missing.has_value(&host));
}

#[test]
fn integer_keys_resolve_to_themselves() {
    let mut host = ScHostState::new();
    let root = host.add_container();
    let map = ScImmutableMap::new(root);
    let mut ks = KeySpace::new();
    host.set_int(root, Key32(13), 77);
    let by_int = map.get_int(&13i32, &mut ks);
    assert!(by_int.has_value(&host));
    assert_eq!(by_int.value(&host), 77);
    let by_key = map.get_int(&Key32(13), &mut ks);
    assert_eq!(by_key.value(&host), 77);
}

#[test]
fn array_resolution_writes_no_scalar() {
    let mut host = ScHostState::new();
    let root = host.add_container();
    let map = ScImmutableMap::new(root);
    let mut ks = KeySpace::new();
    let key = String::from("arr");
    let kid = ks.key_id(&key);
    host.set_int(root, kid, 5);
    let arr = map.get_int_array(&key, &mut ks, &mut host);
    // the scalar slot under the same key is untouched by the resolution
    assert_eq!(map.get_int(&key, &mut ks).value(&host), 5);
    assert_eq!(arr.length(&host), 0);
    assert!(!arr.get_int(0).has_value(&host));
}
