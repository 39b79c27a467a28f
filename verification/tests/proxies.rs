//! Round trips and renderings through the scalar and array proxies,
//! against a freshly populated host object space.

use wasmlib::hashtypes::ScHname;
use wasmlib::host::ScHostState;
use wasmlib::host::TYPE_ARRAY;
use wasmlib::host::TYPE_INT;
use wasmlib::immutable::ScImmutableMap;
use wasmlib::keys::Key32;
use wasmlib::keys::KeySpace;

fn fresh() -> (ScHostState, KeySpace, ScImmutableMap) {
    let mut host = ScHostState::new();
    let root = host.add_container();
    let map = ScImmutableMap::new(root);
    (host, KeySpace::new(), map)
}

#[test]
fn round_trip_address() {
    let (mut host, mut ks, map) = fresh();
    let bytes: Vec<u8> = (0..33u8).collect();
    let key = String::from("addr");
    let kid = ks.key_id(&key);
    host.set_bytes(0, kid, wasmlib::host::TYPE_ADDRESS, &bytes);
    let proxy = map.get_address(&key, &mut ks);
    assert!(proxy.has_value(&host));
    assert_eq!(proxy.value(&host).to_bytes(), bytes);
}

#[test]
fn round_trip_agent_id() {
    let (mut host, mut ks, map) = fresh();
    let bytes: Vec<u8> = (0..37u8).collect();
    let key = String::from("agent");
    let kid = ks.key_id(&key);
    host.set_bytes(0, kid, wasmlib::host::TYPE_AGENT_ID, &bytes);
    let proxy = map.get_agent_id(&key, &mut ks);
    assert!(proxy.has_value(&host));
    assert_eq!(proxy.value(&host).to_bytes(), bytes);
}

#[test]
fn round_trip_chain_id() {
    let (mut host, mut ks, map) = fresh();
    let bytes: Vec<u8> = (100..133u8).collect();
    let key = String::from("chain");
    let kid = ks.key_id(&key);
    host.set_bytes(0, kid, wasmlib::host::TYPE_CHAIN_ID, &bytes);
    let proxy = map.get_chain_id(&key, &mut ks);
    assert!(proxy.has_value(&host));
    assert_eq!(proxy.value(&host).to_bytes(), bytes);
}

#[test]
fn round_trip_color() {
    let (mut host, mut ks, map) = fresh();
    let bytes: Vec<u8> = (0..32u8).map(|b| b.wrapping_mul(7)).collect();
    let key = String::from("color");
    let kid = ks.key_id(&key);
    host.set_bytes(0, kid, wasmlib::host::TYPE_COLOR, &bytes);
    let proxy = map.get_color(&key, &mut ks);
    assert!(proxy.has_value(&host));
    assert_eq!(proxy.value(&host).to_bytes(), bytes);
}

#[test]
fn round_trip_contract_id() {
    let (mut host, mut ks, map) = fresh();
    let bytes: Vec<u8> = (10..47u8).collect();
    let key = String::from("contract");
    let kid = ks.key_id(&key);
    host.set_bytes(0, kid, wasmlib::host::TYPE_CONTRACT_ID, &bytes);
    let proxy = map.get_contract_id(&key, &mut ks);
    assert!(proxy.has_value(&host));
    assert_eq!(proxy.value(&host).to_bytes(), bytes);
}

#[test]
fn round_trip_hash() {
    let (mut host, mut ks, map) = fresh();
    let bytes: Vec<u8> = (0..32u8).rev().collect();
    let key = String::from("hash");
    let kid = ks.key_id(&key);
    host.set_bytes(0, kid, wasmlib::host::TYPE_HASH, &bytes);
    let proxy = map.get_hash(&key, &mut ks);
    assert!(proxy.has_value(&host));
    assert_eq!(proxy.value(&host).to_bytes(), bytes);
}

#[test]
fn round_trip_hname() {
    let (mut host, mut ks, map) = fresh();
    let key = String::from("hname");
    let kid = ks.key_id(&key);
    host.set_hname(0, kid, 0x1234_5678);
    let proxy = map.get_hname(&key, &mut ks);
    assert!(proxy.has_value(&host));
    assert_eq!(proxy.value(&host), ScHname(0x1234_5678));
}

#[test]
fn round_trip_int() {
    let (mut host, mut ks, map) = fresh();
    let key = String::from("n");
    let kid = ks.key_id(&key);
    host.set_int(0, kid, 42);
    let proxy = map.get_int(&key, &mut ks);
    assert!(proxy.has_value(&host));
    assert_eq!(proxy.value(&host), 42);
}

#[test]
fn round_trip_int_boundary_values() {
    for v in [0i64, -1, i64::MIN, i64::MAX, 1, -12345678901234567] {
        let (mut host, mut ks, map) = fresh();
        let key = String::from("n");
        let kid = ks.key_id(&key);
        host.set_int(0, kid, v);
        let proxy = map.get_int(&key, &mut ks);
        assert!(proxy.has_value(&host));
        assert_eq!(proxy.value(&host), v);
    }
}

#[test]
fn round_trip_bytes() {
    let (mut host, mut ks, map) = fresh();
    let bytes: Vec<u8> = vec![9, 8, 7, 6];
    let key = String::from("blob");
    let kid = ks.key_id(&key);
    host.set_bytes(0, kid, wasmlib::host::TYPE_BYTES, &bytes);
    let proxy = map.get_bytes(&key, &mut ks);
    assert!(proxy.has_value(&host));
    assert_eq!(proxy.value(&host), bytes);
}

#[test]
fn round_trip_bytes_empty_buffer() {
    let (mut host, mut ks, map) = fresh();
    let bytes: Vec<u8> = Vec::new();
    let key = String::from("blob");
    let kid = ks.key_id(&key);
    host.set_bytes(0, kid, wasmlib::host::TYPE_BYTES, &bytes);
    let proxy = map.get_bytes(&key, &mut ks);
    assert!(proxy.has_value(&host));
    assert_eq!(proxy.value(&host), bytes);
}

#[test]
fn round_trip_string() {
    let (mut host, mut ks, map) = fresh();
    let key = String::from("s");
    let kid = ks.key_id(&key);
    host.set_string(0, kid, "hello world");
    let proxy = map.get_string(&key, &mut ks);
    assert!(proxy.has_value(&host));
    assert_eq!(proxy.value(&host), "hello world");
}

#[test]
fn round_trip_string_empty_and_non_ascii() {
    for s in ["", "héllo wörld", "数据", "🌍🌍"] {
        let (mut host, mut ks, map) = fresh();
        let key = String::from("s");
        let kid = ks.key_id(&key);
        host.set_string(0, kid, s);
        let proxy = map.get_string(&key, &mut ks);
        assert!(proxy.has_value(&host));
        assert_eq!(proxy.value(&host), s);
        assert_eq!(proxy.to_string(&host), s);
    }
}

#[test]
fn int_array_indexing_and_length() {
    let (mut host, mut ks, map) = fresh();
    let key = String::from("arr");
    let kid = ks.key_id(&key);
    let values = [5i64, -6, 7, i64::MIN, 9];
    let arr_id = host.get_object_id(0, kid, TYPE_INT + TYPE_ARRAY);
    for (i, v) in values.iter().enumerate() {
        host.set_int(arr_id, Key32(i as i32), *v);
    }
    let arr = map.get_int_array(&key, &mut ks, &mut host);
    assert_eq!(arr.length(&host), values.len() as i32);
    for (i, v) in values.iter().enumerate() {
        let element = arr.get_int(i as i32);
        assert!(element.has_value(&host));
        assert_eq!(element.value(&host), *v);
    }
    let beyond = arr.get_int(values.len() as i32);
    assert!(!beyond.has_value(&host));
}

#[test]
fn length_matches_count_after_each_append() {
    let (mut host, mut ks, map) = fresh();
    let key = String::from("arr");
    let kid = ks.key_id(&key);
    let arr_id = host.get_object_id(0, kid, TYPE_INT + TYPE_ARRAY);
    let arr = map.get_int_array(&key, &mut ks, &mut host);
    assert_eq!(arr.length(&host), 0);
    for i in 0..4i32 {
        host.set_int(arr_id, Key32(i), i as i64 * 100);
        assert_eq!(arr.length(&host), i + 1);
    }
}

#[test]
fn string_array_elements() {
    let (mut host, mut ks, map) = fresh();
    let key = String::from("names");
    let kid = ks.key_id(&key);
    let arr_id = host.get_object_id(0, kid, wasmlib::host::TYPE_STRING + TYPE_ARRAY);
    host.set_string(arr_id, Key32(0), "alpha");
    host.set_string(arr_id, Key32(1), "bêta");
    let arr = map.get_string_array(&key, &mut ks, &mut host);
    assert_eq!(arr.length(&host), 2);
    assert_eq!(arr.get_string(0).value(&host), "alpha");
    assert_eq!(arr.get_string(1).value(&host), "bêta");
}

#[test]
fn hash_array_elements() {
    let (mut host, mut ks, map) = fresh();
    let key = String::from("hashes");
    let kid = ks.key_id(&key);
    let arr_id = host.get_object_id(0, kid, wasmlib::host::TYPE_HASH + TYPE_ARRAY);
    let h0: Vec<u8> = vec![1u8; 32];
    let h1: Vec<u8> = vec![2u8; 32];
    host.set_bytes(arr_id, Key32(0), wasmlib::host::TYPE_HASH, &h0);
    host.set_bytes(arr_id, Key32(1), wasmlib::host::TYPE_HASH, &h1);
    let arr = map.get_hash_array(&key, &mut ks, &mut host);
    assert_eq!(arr.length(&host), 2);
    assert_eq!(arr.get_hash(0).value(&host).to_bytes(), h0);
    assert_eq!(arr.get_hash(1).value(&host).to_bytes(), h1);
}

#[test]
fn to_string_renders_decimal_for_int() {
    let (mut host, mut ks, map) = fresh();
    let key = String::from("n");
    let cases = [
        (0i64, "0"),
        (42, "42"),
        (-1, "-1"),
        (i64::MAX, "9223372036854775807"),
        (i64::MIN, "-9223372036854775808"),
    ];
    for (v, expected) in cases {
        let kid = ks.key_id(&key);
        host.set_int(0, kid, v);
        let proxy = map.get_int(&key, &mut ks);
        assert_eq!(proxy.to_string(&host), expected);
    }
}

#[test]
fn to_string_renders_decimal_for_hname() {
    let (mut host, mut ks, map) = fresh();
    let key = String::from("h");
    let kid = ks.key_id(&key);
    host.set_hname(0, kid, 305419896);
    let proxy = map.get_hname(&key, &mut ks);
    assert_eq!(proxy.to_string(&host), "305419896");
    assert_eq!(proxy.value(&host).to_string(), "305419896");
}

#[test]
fn to_string_renders_base58_for_binary_kinds() {
    let (mut host, mut ks, map) = fresh();
    let bytes: Vec<u8> = (0..32u8).collect();
    let key = String::from("hash");
    let kid = ks.key_id(&key);
    host.set_bytes(0, kid, wasmlib::host::TYPE_HASH, &bytes);
    let proxy = map.get_hash(&key, &mut ks);
    let expected = bs58::encode(&bytes).into_string();
    assert_eq!(proxy.to_string(&host), expected);
    assert_eq!(proxy.value(&host).to_string(), expected);
    assert_ne!(proxy.to_string(&host), String::from_utf8(bytes).unwrap_or_default());
}

#[test]
fn remaining_array_getters_resolve_and_index() {
    let (mut host, mut ks, map) = fresh();
    let cases = [
        ("addrs", wasmlib::host::TYPE_ADDRESS, 33usize),
        ("agents", wasmlib::host::TYPE_AGENT_ID, 37),
        ("blobs", wasmlib::host::TYPE_BYTES, 5),
        ("colors", wasmlib::host::TYPE_COLOR, 32),
    ];
    for (name, tag, width) in cases {
        let key = String::from(name);
        let kid = ks.key_id(&key);
        let arr_id = host.get_object_id(0, kid, tag + TYPE_ARRAY);
        let item: Vec<u8> = (0..width as u8).collect();
        host.set_bytes(arr_id, Key32(0), tag, &item);
        match tag {
            wasmlib::host::TYPE_ADDRESS => {
                let arr = map.get_address_array(&key, &mut ks, &mut host);
                assert_eq!(arr.length(&host), 1);
                assert_eq!(arr.get_address(0).value(&host).to_bytes(), item);
            }
            wasmlib::host::TYPE_AGENT_ID => {
                let arr = map.get_agent_id_array(&key, &mut ks, &mut host);
                assert_eq!(arr.length(&host), 1);
                assert_eq!(arr.get_agent_id(0).value(&host).to_bytes(), item);
            }
            wasmlib::host::TYPE_BYTES => {
                let arr = map.get_bytes_array(&key, &mut ks, &mut host);
                assert_eq!(arr.length(&host), 1);
                assert_eq!(arr.get_bytes(0).value(&host), item);
            }
            _ => {
                let arr = map.get_color_array(&key, &mut ks, &mut host);
                assert_eq!(arr.length(&host), 1);
                assert_eq!(arr.get_color(0).value(&host).to_bytes(), item);
            }
        }
    }
}

#[test]
fn map_length_reflects_written_keys() {
    let (mut host, mut ks, map) = fresh();
    assert_eq!(map.length(&host), 0);
    let kid = ks.key_id(&String::from("a"));
    host.set_int(0, kid, 1);
    assert_eq!(map.length(&host), kid.0 + 1);
}
