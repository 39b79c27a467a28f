//! The immutable proxy families: typed read-only views over entries of
//! the host's object space.
//!
//! A scalar proxy names one (container id, key id) slot and decodes it on
//! demand; an array proxy names the array's own container and yields
//! scalar proxies indexed from zero; a map proxy names a container
//! holding a nested key/value map and exposes one typed getter per value
//! kind. Proxies are stateless descriptors: every read is one fresh
//! bridge round trip, and only nested-object resolution (`get_map` and
//! the array getters of the map proxy) may allocate a child container as
//! a documented bridge side effect.

use vstd::prelude::*;
use vstd::bytes::spec_u32_from_le_bytes;
use vstd::utf8::encode_utf8;
use vstd::utf8::valid_utf8;
use crate::codec::decode_int64;
use crate::codec::int64_to_dec_string;
use crate::codec::spec_dec_chars;
use crate::codec::spec_i64_from_le_bytes;
use crate::codec::string_from_utf8;
use crate::hashtypes::base58_encode;
use crate::hashtypes::base58_of;
use crate::hashtypes::ScAddress;
use crate::hashtypes::ScAgentId;
use crate::hashtypes::ScChainId;
use crate::hashtypes::ScColor;
use crate::hashtypes::ScContractId;
use crate::hashtypes::ScHash;
use crate::hashtypes::ScHname;
use crate::hashtypes::ADDRESS_LENGTH;
use crate::hashtypes::AGENT_ID_LENGTH;
use crate::hashtypes::CHAIN_ID_LENGTH;
use crate::hashtypes::COLOR_LENGTH;
use crate::hashtypes::CONTRACT_ID_LENGTH;
use crate::hashtypes::HASH_LENGTH;
use crate::hashtypes::HNAME_LENGTH;
use crate::host::ScHostState;
use crate::host::TYPE_ADDRESS;
use crate::host::TYPE_AGENT_ID;
use crate::host::TYPE_ARRAY;
use crate::host::TYPE_BYTES;
use crate::host::TYPE_CHAIN_ID;
use crate::host::TYPE_COLOR;
use crate::host::TYPE_CONTRACT_ID;
use crate::host::TYPE_HASH;
use crate::host::TYPE_HNAME;
use crate::host::TYPE_INT;
use crate::host::TYPE_MAP;
use crate::host::TYPE_STRING;
use crate::keys::spec_resolve_sym;
use crate::keys::Key32;
use crate::keys::KeySpace;
use crate::keys::MapKey;

verus! {

/// Proxy for one immutable address in a host container: a cheap,
/// copyable descriptor of a (container id, key id) slot that decodes on
/// demand and never caches.
pub struct ScImmutableAddress {
    obj_id: i32,
    key_id: Key32,
}

impl ScImmutableAddress {
    /// The container this proxy reads from.
    pub closed spec fn obj(self) -> int {
        self.obj_id as int
    }

    /// The slot this proxy reads.
    pub closed spec fn key(self) -> int {
        self.key_id.0 as int
    }

    pub(crate) fn new(obj_id: i32, key_id: Key32) -> (r: Self)
        ensures
            r.obj() == obj_id as int,
            r.key() == key_id.0 as int,
    {
        ScImmutableAddress { obj_id, key_id }
    }

    /// True exactly when the host holds a value of this kind's tag at
    /// this slot; one bridge round trip.
    pub fn has_value(&self, host: &ScHostState) -> (r: bool)
        ensures
            r == host@.has(self.obj(), self.key(), TYPE_ADDRESS as int),
    {
        host.has_value(self.obj_id, self.key_id, TYPE_ADDRESS)
    }

    /// Fetches and decodes the stored value: one bridge fetch plus the
    /// value type's fixed-width decode, no caching.
    pub fn value(&self, host: &ScHostState) -> (r: ScAddress)
        requires
            host@.slot(self.obj(), self.key(), TYPE_ADDRESS as int) matches Some(b) && b.len()
                == ADDRESS_LENGTH as int,
        ensures
            host@.slot(self.obj(), self.key(), TYPE_ADDRESS as int) == Some(r@),
    {
        let bytes = host.get_bytes(self.obj_id, self.key_id, TYPE_ADDRESS);
        ScAddress::from_bytes(&bytes)
    }

    /// Human-readable base58 rendering of the stored value.
    pub fn to_string(&self, host: &ScHostState) -> (r: String)
        requires
            host@.slot(self.obj(), self.key(), TYPE_ADDRESS as int) matches Some(b) && b.len()
                == ADDRESS_LENGTH as int,
        ensures
            host@.slot(self.obj(), self.key(), TYPE_ADDRESS as int) matches Some(b) && r@ == base58_of(b),
    {
        self.value(host).to_string()
    }
}

/// Immutable array of address values: wraps the array's own container id
/// and yields element proxies keyed by index.
pub struct ScImmutableAddressArray {
    obj_id: i32,
}

impl ScImmutableAddressArray {
    /// The array's container.
    pub closed spec fn obj(self) -> int {
        self.obj_id as int
    }

    /// Wraps the given array container.
    pub fn new(obj_id: i32) -> (r: Self)
        ensures
            r.obj() == obj_id as int,
    {
        ScImmutableAddressArray { obj_id }
    }

    /// The element proxy at `index`. Valid indices are `0..length()`,
    /// exclusive; the proxy performs no bounds check of its own, so an
    /// out-of-range index surfaces later as an absent slot.
    pub fn get_address(&self, index: i32) -> (r: ScImmutableAddress)
        ensures
            r.obj() == self.obj(),
            r.key() == index as int,
    {
        ScImmutableAddress::new(self.obj_id, Key32(index))
    }

    /// Number of items in the array: one bridge length query.
    pub fn length(&self, host: &ScHostState) -> (r: i32)
        ensures
            r as int == host@.length_of(self.obj()),
    {
        host.get_length(self.obj_id)
    }
}

/// Proxy for one immutable agent id in a host container: a cheap,
/// copyable descriptor of a (container id, key id) slot that decodes on
/// demand and never caches.
pub struct ScImmutableAgentId {
    obj_id: i32,
    key_id: Key32,
}

impl ScImmutableAgentId {
    /// The container this proxy reads from.
    pub closed spec fn obj(self) -> int {
        self.obj_id as int
    }

    /// The slot this proxy reads.
    pub closed spec fn key(self) -> int {
        self.key_id.0 as int
    }

    pub(crate) fn new(obj_id: i32, key_id: Key32) -> (r: Self)
        ensures
            r.obj() == obj_id as int,
            r.key() == key_id.0 as int,
    {
        ScImmutableAgentId { obj_id, key_id }
    }

    /// True exactly when the host holds a value of this kind's tag at
    /// this slot; one bridge round trip.
    pub fn has_value(&self, host: &ScHostState) -> (r: bool)
        ensures
            r == host@.has(self.obj(), self.key(), TYPE_AGENT_ID as int),
    {
        host.has_value(self.obj_id, self.key_id, TYPE_AGENT_ID)
    }

    /// Fetches and decodes the stored value: one bridge fetch plus the
    /// value type's fixed-width decode, no caching.
    pub fn value(&self, host: &ScHostState) -> (r: ScAgentId)
        requires
            host@.slot(self.obj(), self.key(), TYPE_AGENT_ID as int) matches Some(b) && b.len()
                == AGENT_ID_LENGTH as int,
        ensures
            host@.slot(self.obj(), self.key(), TYPE_AGENT_ID as int) == Some(r@),
    {
        let bytes = host.get_bytes(self.obj_id, self.key_id, TYPE_AGENT_ID);
        ScAgentId::from_bytes(&bytes)
    }

    /// Human-readable base58 rendering of the stored value.
    pub fn to_string(&self, host: &ScHostState) -> (r: String)
        requires
            host@.slot(self.obj(), self.key(), TYPE_AGENT_ID as int) matches Some(b) && b.len()
                == AGENT_ID_LENGTH as int,
        ensures
            host@.slot(self.obj(), self.key(), TYPE_AGENT_ID as int) matches Some(b) && r@ == base58_of(b),
    {
        self.value(host).to_string()
    }
}

/// Immutable array of agent id values: wraps the array's own container id
/// and yields element proxies keyed by index.
pub struct ScImmutableAgentIdArray {
    obj_id: i32,
}

impl ScImmutableAgentIdArray {
    /// The array's container.
    pub closed spec fn obj(self) -> int {
        self.obj_id as int
    }

    /// Wraps the given array container.
    pub fn new(obj_id: i32) -> (r: Self)
        ensures
            r.obj() == obj_id as int,
    {
        ScImmutableAgentIdArray { obj_id }
    }

    /// The element proxy at `index`. Valid indices are `0..length()`,
    /// exclusive; the proxy performs no bounds check of its own, so an
    /// out-of-range index surfaces later as an absent slot.
    pub fn get_agent_id(&self, index: i32) -> (r: ScImmutableAgentId)
        ensures
            r.obj() == self.obj(),
            r.key() == index as int,
    {
        ScImmutableAgentId::new(self.obj_id, Key32(index))
    }

    /// Number of items in the array: one bridge length query.
    pub fn length(&self, host: &ScHostState) -> (r: i32)
        ensures
            r as int == host@.length_of(self.obj()),
    {
        host.get_length(self.obj_id)
    }
}

/// Proxy for one immutable byte buffer in a host container: a cheap,
/// copyable descriptor of a (container id, key id) slot that decodes on
/// demand and never caches.
pub struct ScImmutableBytes {
    obj_id: i32,
    key_id: Key32,
}

impl ScImmutableBytes {
    /// The container this proxy reads from.
    pub closed spec fn obj(self) -> int {
        self.obj_id as int
    }

    /// The slot this proxy reads.
    pub closed spec fn key(self) -> int {
        self.key_id.0 as int
    }

    pub(crate) fn new(obj_id: i32, key_id: Key32) -> (r: Self)
        ensures
            r.obj() == obj_id as int,
            r.key() == key_id.0 as int,
    {
        ScImmutableBytes { obj_id, key_id }
    }

    /// True exactly when the host holds a value of this kind's tag at
    /// this slot; one bridge round trip.
    pub fn has_value(&self, host: &ScHostState) -> (r: bool)
        ensures
            r == host@.has(self.obj(), self.key(), TYPE_BYTES as int),
    {
        host.has_value(self.obj_id, self.key_id, TYPE_BYTES)
    }

    /// Fetches the raw buffer: the value of the generic byte-buffer kind
    /// is the stored bytes themselves, or the host's empty default when
    /// the slot is absent.
    pub fn value(&self, host: &ScHostState) -> (r: Vec<u8>)
        ensures
            r@ == host@.slot_or_empty(self.obj(), self.key(), TYPE_BYTES as int),
    {
        host.get_bytes(self.obj_id, self.key_id, TYPE_BYTES)
    }

    /// Base58 rendering of the stored buffer.
    pub fn to_string(&self, host: &ScHostState) -> (r: String)
        ensures
            r@ == base58_of(host@.slot_or_empty(self.obj(), self.key(), TYPE_BYTES as int)),
    {
        let bytes = self.value(host);
        base58_encode(&bytes)
    }
}

/// Immutable array of byte buffer values: wraps the array's own container id
/// and yields element proxies keyed by index.
pub struct ScImmutableBytesArray {
    obj_id: i32,
}

impl ScImmutableBytesArray {
    /// The array's container.
    pub closed spec fn obj(self) -> int {
        self.obj_id as int
    }

    /// Wraps the given array container.
    pub fn new(obj_id: i32) -> (r: Self)
        ensures
            r.obj() == obj_id as int,
    {
        ScImmutableBytesArray { obj_id }
    }

    /// The element proxy at `index`. Valid indices are `0..length()`,
    /// exclusive; the proxy performs no bounds check of its own, so an
    /// out-of-range index surfaces later as an absent slot.
    pub fn get_bytes(&self, index: i32) -> (r: ScImmutableBytes)
        ensures
            r.obj() == self.obj(),
            r.key() == index as int,
    {
        ScImmutableBytes::new(self.obj_id, Key32(index))
    }

    /// Number of items in the array: one bridge length query.
    pub fn length(&self, host: &ScHostState) -> (r: i32)
        ensures
            r as int == host@.length_of(self.obj()),
    {
        host.get_length(self.obj_id)
    }
}

/// Proxy for one immutable chain id in a host container: a cheap,
/// copyable descriptor of a (container id, key id) slot that decodes on
/// demand and never caches.
pub struct ScImmutableChainId {
    obj_id: i32,
    key_id: Key32,
}

impl ScImmutableChainId {
    /// The container this proxy reads from.
    pub closed spec fn obj(self) -> int {
        self.obj_id as int
    }

    /// The slot this proxy reads.
    pub closed spec fn key(self) -> int {
        self.key_id.0 as int
    }

    pub(crate) fn new(obj_id: i32, key_id: Key32) -> (r: Self)
        ensures
            r.obj() == obj_id as int,
            r.key() == key_id.0 as int,
    {
        ScImmutableChainId { obj_id, key_id }
    }

    /// True exactly when the host holds a value of this kind's tag at
    /// this slot; one bridge round trip.
    pub fn has_value(&self, host: &ScHostState) -> (r: bool)
        ensures
            r == host@.has(self.obj(), self.key(), TYPE_CHAIN_ID as int),
    {
        host.has_value(self.obj_id, self.key_id, TYPE_CHAIN_ID)
    }

    /// Fetches and decodes the stored value: one bridge fetch plus the
    /// value type's fixed-width decode, no caching.
    pub fn value(&self, host: &ScHostState) -> (r: ScChainId)
        requires
            host@.slot(self.obj(), self.key(), TYPE_CHAIN_ID as int) matches Some(b) && b.len()
                == CHAIN_ID_LENGTH as int,
        ensures
            host@.slot(self.obj(), self.key(), TYPE_CHAIN_ID as int) == Some(r@),
    {
        let bytes = host.get_bytes(self.obj_id, self.key_id, TYPE_CHAIN_ID);
        ScChainId::from_bytes(&bytes)
    }

    /// Human-readable base58 rendering of the stored value.
    pub fn to_string(&self, host: &ScHostState) -> (r: String)
        requires
            host@.slot(self.obj(), self.key(), TYPE_CHAIN_ID as int) matches Some(b) && b.len()
                == CHAIN_ID_LENGTH as int,
        ensures
            host@.slot(self.obj(), self.key(), TYPE_CHAIN_ID as int) matches Some(b) && r@ == base58_of(b),
    {
        self.value(host).to_string()
    }
}

/// Proxy for one immutable color in a host container: a cheap,
/// copyable descriptor of a (container id, key id) slot that decodes on
/// demand and never caches.
pub struct ScImmutableColor {
    obj_id: i32,
    key_id: Key32,
}

impl ScImmutableColor {
    /// The container this proxy reads from.
    pub closed spec fn obj(self) -> int {
        self.obj_id as int
    }

    /// The slot this proxy reads.
    pub closed spec fn key(self) -> int {
        self.key_id.0 as int
    }

    pub(crate) fn new(obj_id: i32, key_id: Key32) -> (r: Self)
        ensures
            r.obj() == obj_id as int,
            r.key() == key_id.0 as int,
    {
        ScImmutableColor { obj_id, key_id }
    }

    /// True exactly when the host holds a value of this kind's tag at
    /// this slot; one bridge round trip.
    pub fn has_value(&self, host: &ScHostState) -> (r: bool)
        ensures
            r == host@.has(self.obj(), self.key(), TYPE_COLOR as int),
    {
        host.has_value(self.obj_id, self.key_id, TYPE_COLOR)
    }

    /// Fetches and decodes the stored value: one bridge fetch plus the
    /// value type's fixed-width decode, no caching.
    pub fn value(&self, host: &ScHostState) -> (r: ScColor)
        requires
            host@.slot(self.obj(), self.key(), TYPE_COLOR as int) matches Some(b) && b.len()
                == COLOR_LENGTH as int,
        ensures
            host@.slot(self.obj(), self.key(), TYPE_COLOR as int) == Some(r@),
    {
        let bytes = host.get_bytes(self.obj_id, self.key_id, TYPE_COLOR);
        ScColor::from_bytes(&bytes)
    }

    /// Human-readable base58 rendering of the stored value.
    pub fn to_string(&self, host: &ScHostState) -> (r: String)
        requires
            host@.slot(self.obj(), self.key(), TYPE_COLOR as int) matches Some(b) && b.len()
                == COLOR_LENGTH as int,
        ensures
            host@.slot(self.obj(), self.key(), TYPE_COLOR as int) matches Some(b) && r@ == base58_of(b),
    {
        self.value(host).to_string()
    }
}

/// Immutable array of color values: wraps the array's own container id
/// and yields element proxies keyed by index.
pub struct ScImmutableColorArray {
    obj_id: i32,
}

impl ScImmutableColorArray {
    /// The array's container.
    pub closed spec fn obj(self) -> int {
        self.obj_id as int
    }

    /// Wraps the given array container.
    pub fn new(obj_id: i32) -> (r: Self)
        ensures
            r.obj() == obj_id as int,
    {
        ScImmutableColorArray { obj_id }
    }

    /// The element proxy at `index`. Valid indices are `0..length()`,
    /// exclusive; the proxy performs no bounds check of its own, so an
    /// out-of-range index surfaces later as an absent slot.
    pub fn get_color(&self, index: i32) -> (r: ScImmutableColor)
        ensures
            r.obj() == self.obj(),
            r.key() == index as int,
    {
        ScImmutableColor::new(self.obj_id, Key32(index))
    }

    /// Number of items in the array: one bridge length query.
    pub fn length(&self, host: &ScHostState) -> (r: i32)
        ensures
            r as int == host@.length_of(self.obj()),
    {
        host.get_length(self.obj_id)
    }
}

/// Proxy for one immutable contract id in a host container: a cheap,
/// copyable descriptor of a (container id, key id) slot that decodes on
/// demand and never caches.
pub struct ScImmutableContractId {
    obj_id: i32,
    key_id: Key32,
}

impl ScImmutableContractId {
    /// The container this proxy reads from.
    pub closed spec fn obj(self) -> int {
        self.obj_id as int
    }

    /// The slot this proxy reads.
    pub closed spec fn key(self) -> int {
        self.key_id.0 as int
    }

    pub(crate) fn new(obj_id: i32, key_id: Key32) -> (r: Self)
        ensures
            r.obj() == obj_id as int,
            r.key() == key_id.0 as int,
    {
        ScImmutableContractId { obj_id, key_id }
    }

    /// True exactly when the host holds a value of this kind's tag at
    /// this slot; one bridge round trip.
    pub fn has_value(&self, host: &ScHostState) -> (r: bool)
        ensures
            r == host@.has(self.obj(), self.key(), TYPE_CONTRACT_ID as int),
    {
        host.has_value(self.obj_id, self.key_id, TYPE_CONTRACT_ID)
    }

    /// Fetches and decodes the stored value: one bridge fetch plus the
    /// value type's fixed-width decode, no caching.
    pub fn value(&self, host: &ScHostState) -> (r: ScContractId)
        requires
            host@.slot(self.obj(), self.key(), TYPE_CONTRACT_ID as int) matches Some(b) && b.len()
                == CONTRACT_ID_LENGTH as int,
        ensures
            host@.slot(self.obj(), self.key(), TYPE_CONTRACT_ID as int) == Some(r@),
    {
        let bytes = host.get_bytes(self.obj_id, self.key_id, TYPE_CONTRACT_ID);
        ScContractId::from_bytes(&bytes)
    }

    /// Human-readable base58 rendering of the stored value.
    pub fn to_string(&self, host: &ScHostState) -> (r: String)
        requires
            host@.slot(self.obj(), self.key(), TYPE_CONTRACT_ID as int) matches Some(b) && b.len()
                == CONTRACT_ID_LENGTH as int,
        ensures
            host@.slot(self.obj(), self.key(), TYPE_CONTRACT_ID as int) matches Some(b) && r@ == base58_of(b),
    {
        self.value(host).to_string()
    }
}

/// Proxy for one immutable hash in a host container: a cheap,
/// copyable descriptor of a (container id, key id) slot that decodes on
/// demand and never caches.
pub struct ScImmutableHash {
    obj_id: i32,
    key_id: Key32,
}

impl ScImmutableHash {
    /// The container this proxy reads from.
    pub closed spec fn obj(self) -> int {
        self.obj_id as int
    }

    /// The slot this proxy reads.
    pub closed spec fn key(self) -> int {
        self.key_id.0 as int
    }

    pub(crate) fn new(obj_id: i32, key_id: Key32) -> (r: Self)
        ensures
            r.obj() == obj_id as int,
            r.key() == key_id.0 as int,
    {
        ScImmutableHash { obj_id, key_id }
    }

    /// True exactly when the host holds a value of this kind's tag at
    /// this slot; one bridge round trip.
    pub fn has_value(&self, host: &ScHostState) -> (r: bool)
        ensures
            r == host@.has(self.obj(), self.key(), TYPE_HASH as int),
    {
        host.has_value(self.obj_id, self.key_id, TYPE_HASH)
    }

    /// Fetches and decodes the stored value: one bridge fetch plus the
    /// value type's fixed-width decode, no caching.
    pub fn value(&self, host: &ScHostState) -> (r: ScHash)
        requires
            host@.slot(self.obj(), self.key(), TYPE_HASH as int) matches Some(b) && b.len()
                == HASH_LENGTH as int,
        ensures
            host@.slot(self.obj(), self.key(), TYPE_HASH as int) == Some(r@),
    {
        let bytes = host.get_bytes(self.obj_id, self.key_id, TYPE_HASH);
        ScHash::from_bytes(&bytes)
    }

    /// Human-readable base58 rendering of the stored value.
    pub fn to_string(&self, host: &ScHostState) -> (r: String)
        requires
            host@.slot(self.obj(), self.key(), TYPE_HASH as int) matches Some(b) && b.len()
                == HASH_LENGTH as int,
        ensures
            host@.slot(self.obj(), self.key(), TYPE_HASH as int) matches Some(b) && r@ == base58_of(b),
    {
        self.value(host).to_string()
    }
}

/// Immutable array of hash values: wraps the array's own container id
/// and yields element proxies keyed by index.
pub struct ScImmutableHashArray {
    obj_id: i32,
}

impl ScImmutableHashArray {
    /// The array's container.
    pub closed spec fn obj(self) -> int {
        self.obj_id as int
    }

    /// Wraps the given array container.
    pub fn new(obj_id: i32) -> (r: Self)
        ensures
            r.obj() == obj_id as int,
    {
        ScImmutableHashArray { obj_id }
    }

    /// The element proxy at `index`. Valid indices are `0..length()`,
    /// exclusive; the proxy performs no bounds check of its own, so an
    /// out-of-range index surfaces later as an absent slot.
    pub fn get_hash(&self, index: i32) -> (r: ScImmutableHash)
        ensures
            r.obj() == self.obj(),
            r.key() == index as int,
    {
        ScImmutableHash::new(self.obj_id, Key32(index))
    }

    /// Number of items in the array: one bridge length query.
    pub fn length(&self, host: &ScHostState) -> (r: i32)
        ensures
            r as int == host@.length_of(self.obj()),
    {
        host.get_length(self.obj_id)
    }
}

/// Proxy for one immutable short-name hash in a host container: a cheap,
/// copyable descriptor of a (container id, key id) slot that decodes on
/// demand and never caches.
pub struct ScImmutableHname {
    obj_id: i32,
    key_id: Key32,
}

impl ScImmutableHname {
    /// The container this proxy reads from.
    pub closed spec fn obj(self) -> int {
        self.obj_id as int
    }

    /// The slot this proxy reads.
    pub closed spec fn key(self) -> int {
        self.key_id.0 as int
    }

    pub(crate) fn new(obj_id: i32, key_id: Key32) -> (r: Self)
        ensures
            r.obj() == obj_id as int,
            r.key() == key_id.0 as int,
    {
        ScImmutableHname { obj_id, key_id }
    }

    /// True exactly when the host holds a value of this kind's tag at
    /// this slot; one bridge round trip.
    pub fn has_value(&self, host: &ScHostState) -> (r: bool)
        ensures
            r == host@.has(self.obj(), self.key(), TYPE_HNAME as int),
    {
        host.has_value(self.obj_id, self.key_id, TYPE_HNAME)
    }

    /// Fetches and decodes the stored value: one bridge fetch plus the
    /// 4-byte little-endian decode, no caching.
    pub fn value(&self, host: &ScHostState) -> (r: ScHname)
        requires
            host@.slot(self.obj(), self.key(), TYPE_HNAME as int) matches Some(b) && b.len()
                == HNAME_LENGTH as int,
        ensures
            host@.slot(self.obj(), self.key(), TYPE_HNAME as int) matches Some(b) && r.0
                == spec_u32_from_le_bytes(b),
    {
        let bytes = host.get_bytes(self.obj_id, self.key_id, TYPE_HNAME);
        ScHname::from_bytes(&bytes)
    }

    /// Human-readable decimal rendering of the stored value.
    pub fn to_string(&self, host: &ScHostState) -> (r: String)
        requires
            host@.slot(self.obj(), self.key(), TYPE_HNAME as int) matches Some(b) && b.len()
                == HNAME_LENGTH as int,
        ensures
            host@.slot(self.obj(), self.key(), TYPE_HNAME as int) matches Some(b) && r@
                == spec_dec_chars(spec_u32_from_le_bytes(b) as int),
    {
        self.value(host).to_string()
    }
}

/// Proxy for one immutable 64-bit integer in a host container: a cheap,
/// copyable descriptor of a (container id, key id) slot that decodes on
/// demand and never caches.
pub struct ScImmutableInt {
    obj_id: i32,
    key_id: Key32,
}

impl ScImmutableInt {
    /// The container this proxy reads from.
    pub closed spec fn obj(self) -> int {
        self.obj_id as int
    }

    /// The slot this proxy reads.
    pub closed spec fn key(self) -> int {
        self.key_id.0 as int
    }

    pub(crate) fn new(obj_id: i32, key_id: Key32) -> (r: Self)
        ensures
            r.obj() == obj_id as int,
            r.key() == key_id.0 as int,
    {
        ScImmutableInt { obj_id, key_id }
    }

    /// True exactly when the host holds a value of this kind's tag at
    /// this slot; one bridge round trip.
    pub fn has_value(&self, host: &ScHostState) -> (r: bool)
        ensures
            r == host@.has(self.obj(), self.key(), TYPE_INT as int),
    {
        host.has_value(self.obj_id, self.key_id, TYPE_INT)
    }

    /// Fetches and decodes the stored value: exactly 8 bytes,
    /// little-endian two's complement; one bridge fetch, no caching.
    pub fn value(&self, host: &ScHostState) -> (r: i64)
        requires
            host@.slot(self.obj(), self.key(), TYPE_INT as int) matches Some(b) && b.len() == 8,
        ensures
            host@.slot(self.obj(), self.key(), TYPE_INT as int) matches Some(b) && r as int
                == spec_i64_from_le_bytes(b),
    {
        let bytes = host.get_bytes(self.obj_id, self.key_id, TYPE_INT);
        match decode_int64(&bytes) {
            Some(v) => v,
            None => 0,
        }
    }

    /// Human-readable decimal rendering of the stored value.
    pub fn to_string(&self, host: &ScHostState) -> (r: String)
        requires
            host@.slot(self.obj(), self.key(), TYPE_INT as int) matches Some(b) && b.len() == 8,
        ensures
            host@.slot(self.obj(), self.key(), TYPE_INT as int) matches Some(b) && r@
                == spec_dec_chars(spec_i64_from_le_bytes(b)),
    {
        int64_to_dec_string(self.value(host))
    }
}

/// Immutable array of 64-bit integer values: wraps the array's own container id
/// and yields element proxies keyed by index.
pub struct ScImmutableIntArray {
    obj_id: i32,
}

impl ScImmutableIntArray {
    /// The array's container.
    pub closed spec fn obj(self) -> int {
        self.obj_id as int
    }

    /// Wraps the given array container.
    pub fn new(obj_id: i32) -> (r: Self)
        ensures
            r.obj() == obj_id as int,
    {
        ScImmutableIntArray { obj_id }
    }

    /// The element proxy at `index`. Valid indices are `0..length()`,
    /// exclusive; the proxy performs no bounds check of its own, so an
    /// out-of-range index surfaces later as an absent slot.
    pub fn get_int(&self, index: i32) -> (r: ScImmutableInt)
        ensures
            r.obj() == self.obj(),
            r.key() == index as int,
    {
        ScImmutableInt::new(self.obj_id, Key32(index))
    }

    /// Number of items in the array: one bridge length query.
    pub fn length(&self, host: &ScHostState) -> (r: i32)
        ensures
            r as int == host@.length_of(self.obj()),
    {
        host.get_length(self.obj_id)
    }
}

/// Proxy over a container holding a nested key/value map: one typed
/// getter per value kind, keyed by a symbolic key.
pub struct ScImmutableMap {
    obj_id: i32,
}

impl ScImmutableMap {
    /// The map's container.
    pub closed spec fn obj(self) -> int {
        self.obj_id as int
    }

    /// Wraps the given map container.
    pub fn new(obj_id: i32) -> (r: Self)
        ensures
            r.obj() == obj_id as int,
    {
        ScImmutableMap { obj_id }
    }

    /// Proxy for the address under the resolved key: the map's own
    /// container id with the computed key id, no bridge call.
    pub fn get_address<T: MapKey>(&self, key: &T, ks: &mut KeySpace) -> (r: ScImmutableAddress)
        requires
            old(ks)@.len() < 0x7fff_ffff,
        ensures
            final(ks)@ == spec_resolve_sym(old(ks)@, key.sym()).0,
            final(ks)@.len() <= old(ks)@.len() + 1,
            r.obj() == self.obj(),
            r.key() == spec_resolve_sym(old(ks)@, key.sym()).1,
    {
        ScImmutableAddress::new(self.obj_id, key.get_id(ks))
    }

    /// Address array proxy under the resolved key: resolves or lazily
    /// allocates the child container through exactly one bridge call.
    pub fn get_address_array<T: MapKey>(
        &self,
        key: &T,
        ks: &mut KeySpace,
        host: &mut ScHostState,
    ) -> (r: ScImmutableAddressArray)
        requires
            old(ks)@.len() < 0x7fff_ffff,
            old(host)@.wf(),
            old(host)@.valid_container(self.obj()),
            old(host)@.num_containers() < 0x7fff_ffff,
        ensures
            final(ks)@ == spec_resolve_sym(old(ks)@, key.sym()).0,
            final(ks)@.len() <= old(ks)@.len() + 1,
            ({
                let kid = spec_resolve_sym(old(ks)@, key.sym()).1;
                &&& final(host)@ == old(host)@.resolve_state(self.obj(), kid, (TYPE_ADDRESS + TYPE_ARRAY) as int)
                &&& r.obj() == old(host)@.resolve_id(self.obj(), kid, (TYPE_ADDRESS + TYPE_ARRAY) as int)
            }),
            final(host)@.wf(),
            final(host)@.valid_container(r.obj()),
            final(host)@.num_containers() <= old(host)@.num_containers() + 1,
    {
        let kid = key.get_id(ks);
        let child_id = host.get_object_id(self.obj_id, kid, TYPE_ADDRESS + TYPE_ARRAY);
        ScImmutableAddressArray::new(child_id)
    }

    /// Proxy for the agent id under the resolved key: the map's own
    /// container id with the computed key id, no bridge call.
    pub fn get_agent_id<T: MapKey>(&self, key: &T, ks: &mut KeySpace) -> (r: ScImmutableAgentId)
        requires
            old(ks)@.len() < 0x7fff_ffff,
        ensures
            final(ks)@ == spec_resolve_sym(old(ks)@, key.sym()).0,
            final(ks)@.len() <= old(ks)@.len() + 1,
            r.obj() == self.obj(),
            r.key() == spec_resolve_sym(old(ks)@, key.sym()).1,
    {
        ScImmutableAgentId::new(self.obj_id, key.get_id(ks))
    }

    /// Agent id array proxy under the resolved key: resolves or lazily
    /// allocates the child container through exactly one bridge call.
    pub fn get_agent_id_array<T: MapKey>(
        &self,
        key: &T,
        ks: &mut KeySpace,
        host: &mut ScHostState,
    ) -> (r: ScImmutableAgentIdArray)
        requires
            old(ks)@.len() < 0x7fff_ffff,
            old(host)@.wf(),
            old(host)@.valid_container(self.obj()),
            old(host)@.num_containers() < 0x7fff_ffff,
        ensures
            final(ks)@ == spec_resolve_sym(old(ks)@, key.sym()).0,
            final(ks)@.len() <= old(ks)@.len() + 1,
            ({
                let kid = spec_resolve_sym(old(ks)@, key.sym()).1;
                &&& final(host)@ == old(host)@.resolve_state(self.obj(), kid, (TYPE_AGENT_ID + TYPE_ARRAY) as int)
                &&& r.obj() == old(host)@.resolve_id(self.obj(), kid, (TYPE_AGENT_ID + TYPE_ARRAY) as int)
            }),
            final(host)@.wf(),
            final(host)@.valid_container(r.obj()),
            final(host)@.num_containers() <= old(host)@.num_containers() + 1,
    {
        let kid = key.get_id(ks);
        let child_id = host.get_object_id(self.obj_id, kid, TYPE_AGENT_ID + TYPE_ARRAY);
        ScImmutableAgentIdArray::new(child_id)
    }

    /// Proxy for the byte buffer under the resolved key: the map's own
    /// container id with the computed key id, no bridge call.
    pub fn get_bytes<T: MapKey>(&self, key: &T, ks: &mut KeySpace) -> (r: ScImmutableBytes)
        requires
            old(ks)@.len() < 0x7fff_ffff,
        ensures
            final(ks)@ == spec_resolve_sym(old(ks)@, key.sym()).0,
            final(ks)@.len() <= old(ks)@.len() + 1,
            r.obj() == self.obj(),
            r.key() == spec_resolve_sym(old(ks)@, key.sym()).1,
    {
        ScImmutableBytes::new(self.obj_id, key.get_id(ks))
    }

    /// Byte buffer array proxy under the resolved key: resolves or lazily
    /// allocates the child container through exactly one bridge call.
    pub fn get_bytes_array<T: MapKey>(
        &self,
        key: &T,
        ks: &mut KeySpace,
        host: &mut ScHostState,
    ) -> (r: ScImmutableBytesArray)
        requires
            old(ks)@.len() < 0x7fff_ffff,
            old(host)@.wf(),
            old(host)@.valid_container(self.obj()),
            old(host)@.num_containers() < 0x7fff_ffff,
        ensures
            final(ks)@ == spec_resolve_sym(old(ks)@, key.sym()).0,
            final(ks)@.len() <= old(ks)@.len() + 1,
            ({
                let kid = spec_resolve_sym(old(ks)@, key.sym()).1;
                &&& final(host)@ == old(host)@.resolve_state(self.obj(), kid, (TYPE_BYTES + TYPE_ARRAY) as int)
                &&& r.obj() == old(host)@.resolve_id(self.obj(), kid, (TYPE_BYTES + TYPE_ARRAY) as int)
            }),
            final(host)@.wf(),
            final(host)@.valid_container(r.obj()),
            final(host)@.num_containers() <= old(host)@.num_containers() + 1,
    {
        let kid = key.get_id(ks);
        let child_id = host.get_object_id(self.obj_id, kid, TYPE_BYTES + TYPE_ARRAY);
        ScImmutableBytesArray::new(child_id)
    }

    /// Proxy for the chain id under the resolved key: the map's own
    /// container id with the computed key id, no bridge call.
    pub fn get_chain_id<T: MapKey>(&self, key: &T, ks: &mut KeySpace) -> (r: ScImmutableChainId)
        requires
            old(ks)@.len() < 0x7fff_ffff,
        ensures
            final(ks)@ == spec_resolve_sym(old(ks)@, key.sym()).0,
            final(ks)@.len() <= old(ks)@.len() + 1,
            r.obj() == self.obj(),
            r.key() == spec_resolve_sym(old(ks)@, key.sym()).1,
    {
        ScImmutableChainId::new(self.obj_id, key.get_id(ks))
    }

    /// Proxy for the color under the resolved key: the map's own
    /// container id with the computed key id, no bridge call.
    pub fn get_color<T: MapKey>(&self, key: &T, ks: &mut KeySpace) -> (r: ScImmutableColor)
        requires
            old(ks)@.len() < 0x7fff_ffff,
        ensures
            final(ks)@ == spec_resolve_sym(old(ks)@, key.sym()).0,
            final(ks)@.len() <= old(ks)@.len() + 1,
            r.obj() == self.obj(),
            r.key() == spec_resolve_sym(old(ks)@, key.sym()).1,
    {
        ScImmutableColor::new(self.obj_id, key.get_id(ks))
    }

    /// Color array proxy under the resolved key: resolves or lazily
    /// allocates the child container through exactly one bridge call.
    pub fn get_color_array<T: MapKey>(
        &self,
        key: &T,
        ks: &mut KeySpace,
        host: &mut ScHostState,
    ) -> (r: ScImmutableColorArray)
        requires
            old(ks)@.len() < 0x7fff_ffff,
            old(host)@.wf(),
            old(host)@.valid_container(self.obj()),
            old(host)@.num_containers() < 0x7fff_ffff,
        ensures
            final(ks)@ == spec_resolve_sym(old(ks)@, key.sym()).0,
            final(ks)@.len() <= old(ks)@.len() + 1,
            ({
                let kid = spec_resolve_sym(old(ks)@, key.sym()).1;
                &&& final(host)@ == old(host)@.resolve_state(self.obj(), kid, (TYPE_COLOR + TYPE_ARRAY) as int)
                &&& r.obj() == old(host)@.resolve_id(self.obj(), kid, (TYPE_COLOR + TYPE_ARRAY) as int)
            }),
            final(host)@.wf(),
            final(host)@.valid_container(r.obj()),
            final(host)@.num_containers() <= old(host)@.num_containers() + 1,
    {
        let kid = key.get_id(ks);
        let child_id = host.get_object_id(self.obj_id, kid, TYPE_COLOR + TYPE_ARRAY);
        ScImmutableColorArray::new(child_id)
    }

    /// Proxy for the contract id under the resolved key: the map's own
    /// container id with the computed key id, no bridge call.
    pub fn get_contract_id<T: MapKey>(&self, key: &T, ks: &mut KeySpace) -> (r: ScImmutableContractId)
        requires
            old(ks)@.len() < 0x7fff_ffff,
        ensures
            final(ks)@ == spec_resolve_sym(old(ks)@, key.sym()).0,
            final(ks)@.len() <= old(ks)@.len() + 1,
            r.obj() == self.obj(),
            r.key() == spec_resolve_sym(old(ks)@, key.sym()).1,
    {
        ScImmutableContractId::new(self.obj_id, key.get_id(ks))
    }

    /// Proxy for the hash under the resolved key: the map's own
    /// container id with the computed key id, no bridge call.
    pub fn get_hash<T: MapKey>(&self, key: &T, ks: &mut KeySpace) -> (r: ScImmutableHash)
        requires
            old(ks)@.len() < 0x7fff_ffff,
        ensures
            final(ks)@ == spec_resolve_sym(old(ks)@, key.sym()).0,
            final(ks)@.len() <= old(ks)@.len() + 1,
            r.obj() == self.obj(),
            r.key() == spec_resolve_sym(old(ks)@, key.sym()).1,
    {
        ScImmutableHash::new(self.obj_id, key.get_id(ks))
    }

    /// Hash array proxy under the resolved key: resolves or lazily
    /// allocates the child container through exactly one bridge call.
    pub fn get_hash_array<T: MapKey>(
        &self,
        key: &T,
        ks: &mut KeySpace,
        host: &mut ScHostState,
    ) -> (r: ScImmutableHashArray)
        requires
            old(ks)@.len() < 0x7fff_ffff,
            old(host)@.wf(),
            old(host)@.valid_container(self.obj()),
            old(host)@.num_containers() < 0x7fff_ffff,
        ensures
            final(ks)@ == spec_resolve_sym(old(ks)@, key.sym()).0,
            final(ks)@.len() <= old(ks)@.len() + 1,
            ({
                let kid = spec_resolve_sym(old(ks)@, key.sym()).1;
                &&& final(host)@ == old(host)@.resolve_state(self.obj(), kid, (TYPE_HASH + TYPE_ARRAY) as int)
                &&& r.obj() == old(host)@.resolve_id(self.obj(), kid, (TYPE_HASH + TYPE_ARRAY) as int)
            }),
            final(host)@.wf(),
            final(host)@.valid_container(r.obj()),
            final(host)@.num_containers() <= old(host)@.num_containers() + 1,
    {
        let kid = key.get_id(ks);
        let child_id = host.get_object_id(self.obj_id, kid, TYPE_HASH + TYPE_ARRAY);
        ScImmutableHashArray::new(child_id)
    }

    /// Proxy for the short-name hash under the resolved key: the map's own
    /// container id with the computed key id, no bridge call.
    pub fn get_hname<T: MapKey>(&self, key: &T, ks: &mut KeySpace) -> (r: ScImmutableHname)
        requires
            old(ks)@.len() < 0x7fff_ffff,
        ensures
            final(ks)@ == spec_resolve_sym(old(ks)@, key.sym()).0,
            final(ks)@.len() <= old(ks)@.len() + 1,
            r.obj() == self.obj(),
            r.key() == spec_resolve_sym(old(ks)@, key.sym()).1,
    {
        ScImmutableHname::new(self.obj_id, key.get_id(ks))
    }

    /// Proxy for the 64-bit integer under the resolved key: the map's own
    /// container id with the computed key id, no bridge call.
    pub fn get_int<T: MapKey>(&self, key: &T, ks: &mut KeySpace) -> (r: ScImmutableInt)
        requires
            old(ks)@.len() < 0x7fff_ffff,
        ensures
            final(ks)@ == spec_resolve_sym(old(ks)@, key.sym()).0,
            final(ks)@.len() <= old(ks)@.len() + 1,
            r.obj() == self.obj(),
            r.key() == spec_resolve_sym(old(ks)@, key.sym()).1,
    {
        ScImmutableInt::new(self.obj_id, key.get_id(ks))
    }

    /// Integer array proxy under the resolved key: resolves or lazily
    /// allocates the child container through exactly one bridge call.
    pub fn get_int_array<T: MapKey>(
        &self,
        key: &T,
        ks: &mut KeySpace,
        host: &mut ScHostState,
    ) -> (r: ScImmutableIntArray)
        requires
            old(ks)@.len() < 0x7fff_ffff,
            old(host)@.wf(),
            old(host)@.valid_container(self.obj()),
            old(host)@.num_containers() < 0x7fff_ffff,
        ensures
            final(ks)@ == spec_resolve_sym(old(ks)@, key.sym()).0,
            final(ks)@.len() <= old(ks)@.len() + 1,
            ({
                let kid = spec_resolve_sym(old(ks)@, key.sym()).1;
                &&& final(host)@ == old(host)@.resolve_state(self.obj(), kid, (TYPE_INT + TYPE_ARRAY) as int)
                &&& r.obj() == old(host)@.resolve_id(self.obj(), kid, (TYPE_INT + TYPE_ARRAY) as int)
            }),
            final(host)@.wf(),
            final(host)@.valid_container(r.obj()),
            final(host)@.num_containers() <= old(host)@.num_containers() + 1,
    {
        let kid = key.get_id(ks);
        let child_id = host.get_object_id(self.obj_id, kid, TYPE_INT + TYPE_ARRAY);
        ScImmutableIntArray::new(child_id)
    }

    /// Nested map array proxy under the resolved key: resolves or lazily
    /// allocates the child container through exactly one bridge call.
    pub fn get_map<T: MapKey>(
        &self,
        key: &T,
        ks: &mut KeySpace,
        host: &mut ScHostState,
    ) -> (r: ScImmutableMap)
        requires
            old(ks)@.len() < 0x7fff_ffff,
            old(host)@.wf(),
            old(host)@.valid_container(self.obj()),
            old(host)@.num_containers() < 0x7fff_ffff,
        ensures
            final(ks)@ == spec_resolve_sym(old(ks)@, key.sym()).0,
            final(ks)@.len() <= old(ks)@.len() + 1,
            ({
                let kid = spec_resolve_sym(old(ks)@, key.sym()).1;
                &&& final(host)@ == old(host)@.resolve_state(self.obj(), kid, (TYPE_MAP) as int)
                &&& r.obj() == old(host)@.resolve_id(self.obj(), kid, (TYPE_MAP) as int)
            }),
            final(host)@.wf(),
            final(host)@.valid_container(r.obj()),
            final(host)@.num_containers() <= old(host)@.num_containers() + 1,
    {
        let kid = key.get_id(ks);
        let child_id = host.get_object_id(self.obj_id, kid, TYPE_MAP);
        ScImmutableMap::new(child_id)
    }

    /// Nested map array proxy under the resolved key: resolves or lazily
    /// allocates the child container through exactly one bridge call.
    pub fn get_map_array<T: MapKey>(
        &self,
        key: &T,
        ks: &mut KeySpace,
        host: &mut ScHostState,
    ) -> (r: ScImmutableMapArray)
        requires
            old(ks)@.len() < 0x7fff_ffff,
            old(host)@.wf(),
            old(host)@.valid_container(self.obj()),
            old(host)@.num_containers() < 0x7fff_ffff,
        ensures
            final(ks)@ == spec_resolve_sym(old(ks)@, key.sym()).0,
            final(ks)@.len() <= old(ks)@.len() + 1,
            ({
                let kid = spec_resolve_sym(old(ks)@, key.sym()).1;
                &&& final(host)@ == old(host)@.resolve_state(self.obj(), kid, (TYPE_MAP + TYPE_ARRAY) as int)
                &&& r.obj() == old(host)@.resolve_id(self.obj(), kid, (TYPE_MAP + TYPE_ARRAY) as int)
            }),
            final(host)@.wf(),
            final(host)@.valid_container(r.obj()),
            final(host)@.num_containers() <= old(host)@.num_containers() + 1,
    {
        let kid = key.get_id(ks);
        let child_id = host.get_object_id(self.obj_id, kid, TYPE_MAP + TYPE_ARRAY);
        ScImmutableMapArray::new(child_id)
    }

    /// Proxy for the text string under the resolved key: the map's own
    /// container id with the computed key id, no bridge call.
    pub fn get_string<T: MapKey>(&self, key: &T, ks: &mut KeySpace) -> (r: ScImmutableString)
        requires
            old(ks)@.len() < 0x7fff_ffff,
        ensures
            final(ks)@ == spec_resolve_sym(old(ks)@, key.sym()).0,
            final(ks)@.len() <= old(ks)@.len() + 1,
            r.obj() == self.obj(),
            r.key() == spec_resolve_sym(old(ks)@, key.sym()).1,
    {
        ScImmutableString::new(self.obj_id, key.get_id(ks))
    }

    /// Text string array proxy under the resolved key: resolves or lazily
    /// allocates the child container through exactly one bridge call.
    pub fn get_string_array<T: MapKey>(
        &self,
        key: &T,
        ks: &mut KeySpace,
        host: &mut ScHostState,
    ) -> (r: ScImmutableStringArray)
        requires
            old(ks)@.len() < 0x7fff_ffff,
            old(host)@.wf(),
            old(host)@.valid_container(self.obj()),
            old(host)@.num_containers() < 0x7fff_ffff,
        ensures
            final(ks)@ == spec_resolve_sym(old(ks)@, key.sym()).0,
            final(ks)@.len() <= old(ks)@.len() + 1,
            ({
                let kid = spec_resolve_sym(old(ks)@, key.sym()).1;
                &&& final(host)@ == old(host)@.resolve_state(self.obj(), kid, (TYPE_STRING + TYPE_ARRAY) as int)
                &&& r.obj() == old(host)@.resolve_id(self.obj(), kid, (TYPE_STRING + TYPE_ARRAY) as int)
            }),
            final(host)@.wf(),
            final(host)@.valid_container(r.obj()),
            final(host)@.num_containers() <= old(host)@.num_containers() + 1,
    {
        let kid = key.get_id(ks);
        let child_id = host.get_object_id(self.obj_id, kid, TYPE_STRING + TYPE_ARRAY);
        ScImmutableStringArray::new(child_id)
    }

    /// Collection length of the map's own container: one bridge query,
    /// meaningful when the map backs an array element.
    pub fn length(&self, host: &ScHostState) -> (r: i32)
        ensures
            r as int == host@.length_of(self.obj()),
    {
        host.get_length(self.obj_id)
    }
}

/// Immutable array of nested maps: each element access resolves one
/// further child container.
pub struct ScImmutableMapArray {
    obj_id: i32,
}

impl ScImmutableMapArray {
    /// The array's container.
    pub closed spec fn obj(self) -> int {
        self.obj_id as int
    }

    /// Wraps the given array container.
    pub fn new(obj_id: i32) -> (r: Self)
        ensures
            r.obj() == obj_id as int,
    {
        ScImmutableMapArray { obj_id }
    }

    /// The map proxy at `index`: resolves the element's backing container
    /// through exactly one bridge call.
    pub fn get_map(&self, index: i32, host: &mut ScHostState) -> (r: ScImmutableMap)
        requires
            old(host)@.wf(),
            old(host)@.valid_container(self.obj()),
            old(host)@.num_containers() < 0x7fff_ffff,
        ensures
            final(host)@ == old(host)@.resolve_state(self.obj(), index as int, TYPE_MAP as int),
            r.obj() == old(host)@.resolve_id(self.obj(), index as int, TYPE_MAP as int),
            final(host)@.wf(),
            final(host)@.valid_container(r.obj()),
            final(host)@.num_containers() <= old(host)@.num_containers() + 1,
    {
        let map_id = host.get_object_id(self.obj_id, Key32(index), TYPE_MAP);
        ScImmutableMap::new(map_id)
    }

    /// Number of items in the array: one bridge length query.
    pub fn length(&self, host: &ScHostState) -> (r: i32)
        ensures
            r as int == host@.length_of(self.obj()),
    {
        host.get_length(self.obj_id)
    }
}

/// Proxy for one immutable UTF-8 text string in a host container: a cheap,
/// copyable descriptor of a (container id, key id) slot that decodes on
/// demand and never caches.
pub struct ScImmutableString {
    obj_id: i32,
    key_id: Key32,
}

impl ScImmutableString {
    /// The container this proxy reads from.
    pub closed spec fn obj(self) -> int {
        self.obj_id as int
    }

    /// The slot this proxy reads.
    pub closed spec fn key(self) -> int {
        self.key_id.0 as int
    }

    pub(crate) fn new(obj_id: i32, key_id: Key32) -> (r: Self)
        ensures
            r.obj() == obj_id as int,
            r.key() == key_id.0 as int,
    {
        ScImmutableString { obj_id, key_id }
    }

    /// True exactly when the host holds a value of this kind's tag at
    /// this slot; one bridge round trip.
    pub fn has_value(&self, host: &ScHostState) -> (r: bool)
        ensures
            r == host@.has(self.obj(), self.key(), TYPE_STRING as int),
    {
        host.has_value(self.obj_id, self.key_id, TYPE_STRING)
    }

    /// Fetches the stored text. The host is trusted to have stored valid
    /// UTF-8; this accessor states that trust boundary explicitly by
    /// requiring it of the slot.
    pub fn value(&self, host: &ScHostState) -> (r: String)
        requires
            host@.slot(self.obj(), self.key(), TYPE_STRING as int) matches Some(b)
                && valid_utf8(b),
        ensures
            host@.slot(self.obj(), self.key(), TYPE_STRING as int) == Some(encode_utf8(r@)),
    {
        let bytes = host.get_bytes(self.obj_id, self.key_id, TYPE_STRING);
        match string_from_utf8(bytes) {
            Some(s) => s,
            None => String::new(),
        }
    }

    /// The text itself: the string kind renders as its own value.
    pub fn to_string(&self, host: &ScHostState) -> (r: String)
        requires
            host@.slot(self.obj(), self.key(), TYPE_STRING as int) matches Some(b)
                && valid_utf8(b),
        ensures
            host@.slot(self.obj(), self.key(), TYPE_STRING as int) == Some(encode_utf8(r@)),
    {
        self.value(host)
    }
}

/// Immutable array of UTF-8 text string values: wraps the array's own container id
/// and yields element proxies keyed by index.
pub struct ScImmutableStringArray {
    obj_id: i32,
}

impl ScImmutableStringArray {
    /// The array's container.
    pub closed spec fn obj(self) -> int {
        self.obj_id as int
    }

    /// Wraps the given array container.
    pub fn new(obj_id: i32) -> (r: Self)
        ensures
            r.obj() == obj_id as int,
    {
        ScImmutableStringArray { obj_id }
    }

    /// The element proxy at `index`. Valid indices are `0..length()`,
    /// exclusive; the proxy performs no bounds check of its own, so an
    /// out-of-range index surfaces later as an absent slot.
    pub fn get_string(&self, index: i32) -> (r: ScImmutableString)
        ensures
            r.obj() == self.obj(),
            r.key() == index as int,
    {
        ScImmutableString::new(self.obj_id, Key32(index))
    }

    /// Number of items in the array: one bridge length query.
    pub fn length(&self, host: &ScHostState) -> (r: i32)
        ensures
            r as int == host@.length_of(self.obj()),
    {
        host.get_length(self.obj_id)
    }
}

} // verus!
