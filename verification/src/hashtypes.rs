//! The native value types the scalar proxies decode into.
//!
//! Each fixed-size binary kind is a thin owner of its raw bytes with a
//! fixed width; the short-name hash is a 32-bit value carried as 4
//! little-endian bytes. Text renderings of the binary kinds go through
//! the external base58 encoder.

use vstd::prelude::*;
use vstd::bytes::spec_u32_from_le_bytes;
use vstd::bytes::spec_u32_to_le_bytes;
use crate::codec::clone_bytes;
use crate::codec::decode_uint32;
use crate::codec::encode_uint32;
use crate::codec::int64_to_dec_string;
use crate::codec::spec_dec_chars;

verus! {

/// Byte width of an address value.
pub const ADDRESS_LENGTH: usize = 33;

/// Byte width of an agent id value.
pub const AGENT_ID_LENGTH: usize = 37;

/// Byte width of a chain id value.
pub const CHAIN_ID_LENGTH: usize = 33;

/// Byte width of a color value.
pub const COLOR_LENGTH: usize = 32;

/// Byte width of a contract id value.
pub const CONTRACT_ID_LENGTH: usize = 37;

/// Byte width of a hash value.
pub const HASH_LENGTH: usize = 32;

/// Byte width of a short-name hash value.
pub const HNAME_LENGTH: usize = 4;

/// Base58 text of a byte buffer: the rendering the external encoder
/// produces for exactly those bytes.
pub uninterp spec fn base58_of(bytes: Seq<u8>) -> Seq<char>;

/// Relies on bs58's encoder with its default (Bitcoin) alphabet: the
/// text depends on the input bytes alone, and the empty buffer encodes
/// to the empty text.
#[verifier::external_body]
pub(crate) fn base58_encode(bytes: &Vec<u8>) -> (r: String)
    ensures
        r@ == base58_of(bytes@),
        bytes@.len() == 0 ==> r@.len() == 0,
{
    bs58::encode(bytes.as_slice()).into_string()
}

/// A ledger address: 33 raw bytes.
pub struct ScAddress {
    id: Vec<u8>,
}

impl View for ScAddress {
    type V = Seq<u8>;

    closed spec fn view(&self) -> Seq<u8> {
        self.id@
    }
}

impl ScAddress {
    /// Decodes an address from its fixed-width binary form.
    pub fn from_bytes(bytes: &Vec<u8>) -> (r: ScAddress)
        requires
            bytes@.len() == ADDRESS_LENGTH,
        ensures
            r@ == bytes@,
    {
        ScAddress { id: clone_bytes(bytes) }
    }

    /// The raw binary form.
    pub fn to_bytes(&self) -> (r: Vec<u8>)
        ensures
            r@ == self@,
    {
        clone_bytes(&self.id)
    }

    /// Human-readable base58 rendering.
    pub fn to_string(&self) -> (r: String)
        ensures
            r@ == base58_of(self@),
    {
        base58_encode(&self.id)
    }
}

/// An agent id: 37 raw bytes naming an address or a contract.
pub struct ScAgentId {
    id: Vec<u8>,
}

impl View for ScAgentId {
    type V = Seq<u8>;

    closed spec fn view(&self) -> Seq<u8> {
        self.id@
    }
}

impl ScAgentId {
    /// Decodes an agent id from its fixed-width binary form.
    pub fn from_bytes(bytes: &Vec<u8>) -> (r: ScAgentId)
        requires
            bytes@.len() == AGENT_ID_LENGTH,
        ensures
            r@ == bytes@,
    {
        ScAgentId { id: clone_bytes(bytes) }
    }

    /// The raw binary form.
    pub fn to_bytes(&self) -> (r: Vec<u8>)
        ensures
            r@ == self@,
    {
        clone_bytes(&self.id)
    }

    /// Human-readable base58 rendering.
    pub fn to_string(&self) -> (r: String)
        ensures
            r@ == base58_of(self@),
    {
        base58_encode(&self.id)
    }
}

/// A chain id: 33 raw bytes.
pub struct ScChainId {
    id: Vec<u8>,
}

impl View for ScChainId {
    type V = Seq<u8>;

    closed spec fn view(&self) -> Seq<u8> {
        self.id@
    }
}

impl ScChainId {
    /// Decodes a chain id from its fixed-width binary form.
    pub fn from_bytes(bytes: &Vec<u8>) -> (r: ScChainId)
        requires
            bytes@.len() == CHAIN_ID_LENGTH,
        ensures
            r@ == bytes@,
    {
        ScChainId { id: clone_bytes(bytes) }
    }

    /// The raw binary form.
    pub fn to_bytes(&self) -> (r: Vec<u8>)
        ensures
            r@ == self@,
    {
        clone_bytes(&self.id)
    }

    /// Human-readable base58 rendering.
    pub fn to_string(&self) -> (r: String)
        ensures
            r@ == base58_of(self@),
    {
        base58_encode(&self.id)
    }
}

/// A token color: 32 raw bytes.
pub struct ScColor {
    id: Vec<u8>,
}

impl View for ScColor {
    type V = Seq<u8>;

    closed spec fn view(&self) -> Seq<u8> {
        self.id@
    }
}

impl ScColor {
    /// Decodes a color from its fixed-width binary form.
    pub fn from_bytes(bytes: &Vec<u8>) -> (r: ScColor)
        requires
            bytes@.len() == COLOR_LENGTH,
        ensures
            r@ == bytes@,
    {
        ScColor { id: clone_bytes(bytes) }
    }

    /// The raw binary form.
    pub fn to_bytes(&self) -> (r: Vec<u8>)
        ensures
            r@ == self@,
    {
        clone_bytes(&self.id)
    }

    /// Human-readable base58 rendering.
    pub fn to_string(&self) -> (r: String)
        ensures
            r@ == base58_of(self@),
    {
        base58_encode(&self.id)
    }
}

/// A contract id: 37 raw bytes.
pub struct ScContractId {
    id: Vec<u8>,
}

impl View for ScContractId {
    type V = Seq<u8>;

    closed spec fn view(&self) -> Seq<u8> {
        self.id@
    }
}

impl ScContractId {
    /// Decodes a contract id from its fixed-width binary form.
    pub fn from_bytes(bytes: &Vec<u8>) -> (r: ScContractId)
        requires
            bytes@.len() == CONTRACT_ID_LENGTH,
        ensures
            r@ == bytes@,
    {
        ScContractId { id: clone_bytes(bytes) }
    }

    /// The raw binary form.
    pub fn to_bytes(&self) -> (r: Vec<u8>)
        ensures
            r@ == self@,
    {
        clone_bytes(&self.id)
    }

    /// Human-readable base58 rendering.
    pub fn to_string(&self) -> (r: String)
        ensures
            r@ == base58_of(self@),
    {
        base58_encode(&self.id)
    }
}

/// A hash: 32 raw bytes.
pub struct ScHash {
    id: Vec<u8>,
}

impl View for ScHash {
    type V = Seq<u8>;

    closed spec fn view(&self) -> Seq<u8> {
        self.id@
    }
}

impl ScHash {
    /// Decodes a hash from its fixed-width binary form.
    pub fn from_bytes(bytes: &Vec<u8>) -> (r: ScHash)
        requires
            bytes@.len() == HASH_LENGTH,
        ensures
            r@ == bytes@,
    {
        ScHash { id: clone_bytes(bytes) }
    }

    /// The raw binary form.
    pub fn to_bytes(&self) -> (r: Vec<u8>)
        ensures
            r@ == self@,
    {
        clone_bytes(&self.id)
    }

    /// Human-readable base58 rendering.
    pub fn to_string(&self) -> (r: String)
        ensures
            r@ == base58_of(self@),
    {
        base58_encode(&self.id)
    }
}

/// A short-name hash: a 32-bit value stored as 4 little-endian bytes.
#[derive(Clone, Copy, Debug, PartialEq, Eq, Structural)]
pub struct ScHname(pub u32);

impl ScHname {
    /// Decodes a short-name hash from its 4-byte little-endian form.
    pub fn from_bytes(bytes: &Vec<u8>) -> (r: ScHname)
        requires
            bytes@.len() == HNAME_LENGTH,
        ensures
            r.0 == spec_u32_from_le_bytes(bytes@),
    {
        match decode_uint32(bytes) {
            Some(v) => ScHname(v),
            None => ScHname(0),
        }
    }

    /// The 4-byte little-endian binary form.
    pub fn to_bytes(&self) -> (r: Vec<u8>)
        ensures
            r@ == spec_u32_to_le_bytes(self.0),
            r@.len() == 4,
    {
        encode_uint32(self.0)
    }

    /// Human-readable decimal rendering.
    pub fn to_string(&self) -> (r: String)
        ensures
            r@ == spec_dec_chars(self.0 as int),
    {
        int64_to_dec_string(self.0 as i64)
    }
}

} // verus!
