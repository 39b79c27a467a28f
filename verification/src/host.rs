//! The host bridge: an explicit in-memory model of the host-managed
//! object space.
//!
//! Containers form a forest of addressable objects; each holds typed byte
//! slots, the child containers resolved under it, and a collection length.
//! The four bridge operations every proxy is built on are methods here:
//! existence test ([`ScHostState::has_value`]), typed byte fetch
//! ([`ScHostState::get_bytes`]), nested-object resolution
//! ([`ScHostState::get_object_id`]) and length query
//! ([`ScHostState::get_length`]). Writes ([`ScHostState::set_bytes`] and
//! the typed setters) populate the space; the proxy layer itself never
//! writes a scalar, though resolution may allocate a fresh container.

use vstd::prelude::*;
use vstd::bytes::spec_u32_to_le_bytes;
use vstd::string::StrSliceExecFns;
use vstd::string::StringSliceAdditionalSpecFns;
use vstd::utf8::encode_utf8;
use crate::codec::clone_bytes;
use crate::codec::encode_int64;
use crate::codec::encode_uint32;
use crate::codec::lemma_encode_utf8_injective;
use crate::codec::lemma_int64_round_trip;
use crate::codec::spec_i64_from_le_bytes;
use crate::codec::spec_i64_to_le_bytes;
use crate::keys::Key32;

verus! {

pub const TYPE_ADDRESS: i32 = 1;

pub const TYPE_AGENT_ID: i32 = 2;

pub const TYPE_BYTES: i32 = 3;

pub const TYPE_CHAIN_ID: i32 = 4;

pub const TYPE_COLOR: i32 = 5;

pub const TYPE_CONTRACT_ID: i32 = 6;

pub const TYPE_HASH: i32 = 7;

pub const TYPE_HNAME: i32 = 8;

pub const TYPE_INT: i32 = 9;

pub const TYPE_MAP: i32 = 10;

pub const TYPE_STRING: i32 = 11;

/// The array modifier: combined with a scalar tag it addresses the
/// corresponding array container.
pub const TYPE_ARRAY: i32 = 32;

/// One typed byte slot: a (key, type tag) pair with its stored buffer.
pub struct HostSlot {
    key: i32,
    type_id: i32,
    bytes: Vec<u8>,
}

/// One nested-object registration: the child container resolved under a
/// (key, type tag) pair.
pub struct HostChild {
    key: i32,
    type_id: i32,
    child_id: i32,
}

/// One addressable object of the host's space.
pub struct HostContainer {
    slots: Vec<HostSlot>,
    children: Vec<HostChild>,
    length: i32,
}

/// The host's whole object space; container ids index into it.
pub struct ScHostState {
    containers: Vec<HostContainer>,
}

/// Mathematical model of one typed slot.
#[verifier::ext_equal]
pub ghost struct SlotView {
    pub key: int,
    pub type_id: int,
    pub bytes: Seq<u8>,
}

/// Mathematical model of one nested-object registration.
#[verifier::ext_equal]
pub ghost struct ChildView {
    pub key: int,
    pub type_id: int,
    pub child_id: int,
}

/// Mathematical model of one container.
#[verifier::ext_equal]
pub ghost struct ContainerView {
    pub slots: Seq<SlotView>,
    pub children: Seq<ChildView>,
    pub length: int,
}

/// Mathematical model of the whole object space.
#[verifier::ext_equal]
pub ghost struct HostView {
    pub containers: Seq<ContainerView>,
}

pub open spec fn spec_slots_view(slots: Seq<HostSlot>) -> Seq<SlotView> {
    slots.map_values(|s: HostSlot| s@)
}

pub open spec fn spec_children_view(children: Seq<HostChild>) -> Seq<ChildView> {
    children.map_values(|c: HostChild| c@)
}

pub open spec fn spec_containers_view(containers: Seq<HostContainer>) -> Seq<ContainerView> {
    containers.map_values(|c: HostContainer| c@)
}

impl View for HostSlot {
    type V = SlotView;

    closed spec fn view(&self) -> SlotView {
        SlotView { key: self.key as int, type_id: self.type_id as int, bytes: self.bytes@ }
    }
}

impl View for HostChild {
    type V = ChildView;

    closed spec fn view(&self) -> ChildView {
        ChildView {
            key: self.key as int,
            type_id: self.type_id as int,
            child_id: self.child_id as int,
        }
    }
}

impl View for HostContainer {
    type V = ContainerView;

    closed spec fn view(&self) -> ContainerView {
        ContainerView {
            slots: spec_slots_view(self.slots@),
            children: spec_children_view(self.children@),
            length: self.length as int,
        }
    }
}

impl View for ScHostState {
    type V = HostView;

    closed spec fn view(&self) -> HostView {
        HostView { containers: spec_containers_view(self.containers@) }
    }
}

/// The buffer stored under a (key, type tag) pair; the latest write wins.
pub open spec fn spec_slot_lookup(slots: Seq<SlotView>, k: int, t: int) -> Option<Seq<u8>>
    decreases slots.len(),
{
    if slots.len() == 0 {
        None
    } else if slots.last().key == k && slots.last().type_id == t {
        Some(slots.last().bytes)
    } else {
        spec_slot_lookup(slots.drop_last(), k, t)
    }
}

/// The child container registered under a (key, type tag) pair.
pub open spec fn spec_child_lookup(children: Seq<ChildView>, k: int, t: int) -> Option<int>
    decreases children.len(),
{
    if children.len() == 0 {
        None
    } else if children.last().key == k && children.last().type_id == t {
        Some(children.last().child_id)
    } else {
        spec_child_lookup(children.drop_last(), k, t)
    }
}

pub open spec fn spec_empty_container() -> ContainerView {
    ContainerView { slots: Seq::empty(), children: Seq::empty(), length: 0 }
}

impl HostView {
    pub open spec fn num_containers(self) -> int {
        self.containers.len() as int
    }

    /// True when `c` names a container inside the space.
    pub open spec fn valid_container(self, c: int) -> bool {
        0 <= c < self.containers.len()
    }

    /// The buffer stored at slot (container, key, type tag), if any.
    pub open spec fn slot(self, c: int, k: int, t: int) -> Option<Seq<u8>> {
        if self.valid_container(c) {
            spec_slot_lookup(self.containers[c].slots, k, t)
        } else {
            None
        }
    }

    /// True exactly when the slot holds a value of that tag.
    pub open spec fn has(self, c: int, k: int, t: int) -> bool {
        self.slot(c, k, t) is Some
    }

    /// The stored buffer, or the host's default, the empty buffer, when
    /// the slot is absent.
    pub open spec fn slot_or_empty(self, c: int, k: int, t: int) -> Seq<u8> {
        match self.slot(c, k, t) {
            Some(b) => b,
            None => Seq::empty(),
        }
    }

    /// The child container registered at (container, key, type tag).
    pub open spec fn child(self, c: int, k: int, t: int) -> Option<int> {
        if self.valid_container(c) {
            spec_child_lookup(self.containers[c].children, k, t)
        } else {
            None
        }
    }

    /// The collection length of a container; zero outside the space.
    pub open spec fn length_of(self, c: int) -> int {
        if self.valid_container(c) {
            self.containers[c].length
        } else {
            0
        }
    }

    /// The space after a write: the slot holds the buffer and the
    /// container's length grows to cover the written key.
    pub open spec fn with_slot(self, c: int, k: int, t: int, bytes: Seq<u8>) -> HostView
        recommends
            self.valid_container(c),
            0 <= k,
    {
        let cont = self.containers[c];
        let new_length = if k + 1 > cont.length {
            k + 1
        } else {
            cont.length
        };
        HostView {
            containers: self.containers.update(
                c,
                ContainerView {
                    slots: cont.slots.push(SlotView { key: k, type_id: t, bytes }),
                    children: cont.children,
                    length: new_length,
                },
            ),
        }
    }

    /// The container id a nested-object resolution returns: the already
    /// registered child, or the next fresh id.
    pub open spec fn resolve_id(self, c: int, k: int, t: int) -> int {
        match self.child(c, k, t) {
            Some(id) => id,
            None => self.num_containers(),
        }
    }

    /// The space after a nested-object resolution: unchanged when the
    /// child is already registered, else with the child recorded and one
    /// fresh empty container appended.
    pub open spec fn resolve_state(self, c: int, k: int, t: int) -> HostView
        recommends
            self.valid_container(c),
    {
        match self.child(c, k, t) {
            Some(_) => self,
            None => {
                let cont = self.containers[c];
                HostView {
                    containers: self.containers.update(
                        c,
                        ContainerView {
                            slots: cont.slots,
                            children: cont.children.push(
                                ChildView { key: k, type_id: t, child_id: self.num_containers() },
                            ),
                            length: cont.length,
                        },
                    ).push(spec_empty_container()),
                }
            },
        }
    }

    /// Every registered child names a container inside the space.
    pub open spec fn wf(self) -> bool {
        forall|ci: int, j: int|
            0 <= ci < self.containers.len() && 0 <= j < self.containers[ci].children.len()
                ==> 0 <= (#[trigger] self.containers[ci].children[j]).child_id
                < self.containers.len()
    }
}

fn lookup_slot_bytes(slots: &Vec<HostSlot>, key: i32, type_id: i32) -> (r: Option<Vec<u8>>)
    ensures
        match r {
            Some(b) => spec_slot_lookup(spec_slots_view(slots@), key as int, type_id as int)
                == Some(b@),
            None => spec_slot_lookup(spec_slots_view(slots@), key as int, type_id as int) is None,
        },
{
    let ghost all = spec_slots_view(slots@);
    proof {
        assert(all.take(slots@.len() as int) =~= all);
    }
    let mut i: usize = slots.len();
    while i > 0
        invariant
            i <= slots@.len(),
            all == spec_slots_view(slots@),
            spec_slot_lookup(all, key as int, type_id as int) == spec_slot_lookup(
                all.take(i as int),
                key as int,
                type_id as int,
            ),
        decreases i,
    {
        i = i - 1;
        proof {
            assert(all.take(i as int + 1).last() == slots@[i as int]@);
            assert(all.take(i as int + 1).drop_last() =~= all.take(i as int));
        }
        let s = &slots[i];
        if s.key == key && s.type_id == type_id {
            return Some(clone_bytes(&s.bytes));
        }
    }
    proof {
        assert(all.take(0) =~= Seq::<SlotView>::empty());
    }
    None
}

fn lookup_child_id(children: &Vec<HostChild>, key: i32, type_id: i32) -> (r: Option<i32>)
    ensures
        match r {
            Some(id) => spec_child_lookup(spec_children_view(children@), key as int, type_id as int)
                == Some(id as int),
            None => spec_child_lookup(
                spec_children_view(children@),
                key as int,
                type_id as int,
            ) is None,
        },
{
    let ghost all = spec_children_view(children@);
    proof {
        assert(all.take(children@.len() as int) =~= all);
    }
    let mut i: usize = children.len();
    while i > 0
        invariant
            i <= children@.len(),
            all == spec_children_view(children@),
            spec_child_lookup(all, key as int, type_id as int) == spec_child_lookup(
                all.take(i as int),
                key as int,
                type_id as int,
            ),
        decreases i,
    {
        i = i - 1;
        proof {
            assert(all.take(i as int + 1).last() == children@[i as int]@);
            assert(all.take(i as int + 1).drop_last() =~= all.take(i as int));
        }
        let c = &children[i];
        if c.key == key && c.type_id == type_id {
            return Some(c.child_id);
        }
    }
    proof {
        assert(all.take(0) =~= Seq::<ChildView>::empty());
    }
    None
}

impl ScHostState {
    /// A fresh object space with no containers.
    pub fn new() -> (r: ScHostState)
        ensures
            r@.num_containers() == 0,
            r@.wf(),
    {
        let r = ScHostState { containers: Vec::new() };
        proof {
            assert(r@.containers =~= Seq::<ContainerView>::empty());
        }
        r
    }

    /// Adds one fresh empty container, a root of the forest, and returns
    /// its id.
    pub fn add_container(&mut self) -> (r: i32)
        requires
            old(self)@.num_containers() < 0x7fff_ffff,
        ensures
            r as int == old(self)@.num_containers(),
            final(self)@.containers == old(self)@.containers.push(spec_empty_container()),
            old(self)@.wf() ==> final(self)@.wf(),
    {
        let id = self.containers.len() as i32;
        self.containers.push(HostContainer { slots: Vec::new(), children: Vec::new(), length: 0 });
        proof {
            let oldc = old(self)@.containers;
            assert(spec_slots_view(Seq::<HostSlot>::empty()) =~= Seq::<SlotView>::empty());
            assert(spec_children_view(Seq::<HostChild>::empty()) =~= Seq::<ChildView>::empty());
            assert(self@.containers =~~= oldc.push(spec_empty_container()));
            if old(self)@.wf() {
                assert forall|ci: int, j: int|
                    0 <= ci < self@.containers.len() && 0 <= j
                        < self@.containers[ci].children.len() implies 0 <= (
                #[trigger] self@.containers[ci].children[j]).child_id
                    < self@.containers.len() by {
                    if ci < oldc.len() {
                        assert(self@.containers[ci] == oldc[ci]);
                    }
                }
            }
        }
        id
    }

    /// Existence test: true exactly when the slot holds a value of the
    /// given type tag.
    pub fn has_value(&self, obj_id: i32, key_id: Key32, type_id: i32) -> (r: bool)
        ensures
            r == self@.has(obj_id as int, key_id.0 as int, type_id as int),
    {
        if obj_id < 0 {
            return false;
        }
        let idx = obj_id as usize;
        if idx >= self.containers.len() {
            return false;
        }
        lookup_slot_bytes(&self.containers[idx].slots, key_id.0, type_id).is_some()
    }

    /// Typed byte fetch: the stored buffer, or the host's default, the
    /// empty buffer, when the slot is absent.
    pub fn get_bytes(&self, obj_id: i32, key_id: Key32, type_id: i32) -> (r: Vec<u8>)
        ensures
            r@ == self@.slot_or_empty(obj_id as int, key_id.0 as int, type_id as int),
    {
        if obj_id < 0 {
            return Vec::new();
        }
        let idx = obj_id as usize;
        if idx >= self.containers.len() {
            return Vec::new();
        }
        match lookup_slot_bytes(&self.containers[idx].slots, key_id.0, type_id) {
            Some(b) => b,
            None => Vec::new(),
        }
    }

    /// Collection length query against a container id.
    pub fn get_length(&self, obj_id: i32) -> (r: i32)
        ensures
            r as int == self@.length_of(obj_id as int),
    {
        if obj_id < 0 {
            return 0;
        }
        let idx = obj_id as usize;
        if idx >= self.containers.len() {
            return 0;
        }
        self.containers[idx].length
    }

    /// Nested-object resolution: returns the child container registered
    /// under (key, type tag), or records a fresh empty one and returns
    /// its id. Resolution is the one bridge operation that may allocate.
    pub fn get_object_id(&mut self, obj_id: i32, key_id: Key32, type_id: i32) -> (r: i32)
        requires
            old(self)@.valid_container(obj_id as int),
            old(self)@.num_containers() < 0x7fff_ffff,
        ensures
            final(self)@ == old(self)@.resolve_state(obj_id as int, key_id.0 as int, type_id as int),
            r as int == old(self)@.resolve_id(obj_id as int, key_id.0 as int, type_id as int),
            old(self)@.wf() ==> final(self)@.wf(),
            old(self)@.wf() ==> final(self)@.valid_container(r as int),
            final(self)@.num_containers() <= old(self)@.num_containers() + 1,
    {
        let idx = obj_id as usize;
        let found = lookup_child_id(&self.containers[idx].children, key_id.0, type_id);
        match found {
            Some(id) => {
                proof {
                    if old(self)@.wf() {
                        lemma_resolve_wf(old(self)@, obj_id as int, key_id.0 as int, type_id as int);
                    }
                }
                id
            },
            None => {
                let new_id = self.containers.len() as i32;
                let mut cont = self.containers.remove(idx);
                cont.children.push(HostChild { key: key_id.0, type_id, child_id: new_id });
                self.containers.insert(idx, cont);
                self.containers.push(
                    HostContainer { slots: Vec::new(), children: Vec::new(), length: 0 },
                );
                proof {
                    let h = old(self)@;
                    let c = obj_id as int;
                    let k = key_id.0 as int;
                    let t = type_id as int;
                    let target = h.resolve_state(c, k, t);
                    assert(spec_slots_view(Seq::<HostSlot>::empty()) =~= Seq::<SlotView>::empty());
                    assert(spec_children_view(Seq::<HostChild>::empty())
                        =~= Seq::<ChildView>::empty());
                    assert(self@.containers[c].children =~~= target.containers[c].children);
                    assert(self@.containers =~~= target.containers);
                    if h.wf() {
                        lemma_resolve_wf(h, c, k, t);
                    }
                }
                new_id
            },
        }
    }

    /// Mock write: stores the buffer at (container, key, type tag) and
    /// extends the container's length to cover the key.
    pub fn set_bytes(&mut self, obj_id: i32, key_id: Key32, type_id: i32, bytes: &Vec<u8>)
        requires
            old(self)@.valid_container(obj_id as int),
            0 <= key_id.0 < 0x7fff_ffff,
        ensures
            final(self)@ == old(self)@.with_slot(
                obj_id as int,
                key_id.0 as int,
                type_id as int,
                bytes@,
            ),
            old(self)@.wf() ==> final(self)@.wf(),
    {
        let idx = obj_id as usize;
        let mut cont = self.containers.remove(idx);
        cont.slots.push(HostSlot { key: key_id.0, type_id, bytes: clone_bytes(bytes) });
        if key_id.0 + 1 > cont.length {
            cont.length = key_id.0 + 1;
        }
        self.containers.insert(idx, cont);
        proof {
            let h = old(self)@;
            let c = obj_id as int;
            let target = h.with_slot(c, key_id.0 as int, type_id as int, bytes@);
            assert(self@.containers[c].slots =~~= target.containers[c].slots);
            assert(self@.containers =~~= target.containers);
            if h.wf() {
                assert forall|ci: int, j: int|
                    0 <= ci < self@.containers.len() && 0 <= j
                        < self@.containers[ci].children.len() implies 0 <= (
                #[trigger] self@.containers[ci].children[j]).child_id
                    < self@.containers.len() by {
                    assert(self@.containers[ci].children == h.containers[ci].children);
                }
            }
        }
    }

    /// Mock write of the 64-bit integer kind: stores the value's 8-byte
    /// little-endian two's-complement buffer.
    pub fn set_int(&mut self, obj_id: i32, key_id: Key32, value: i64)
        requires
            old(self)@.valid_container(obj_id as int),
            0 <= key_id.0 < 0x7fff_ffff,
        ensures
            final(self)@ == old(self)@.with_slot(
                obj_id as int,
                key_id.0 as int,
                TYPE_INT as int,
                spec_i64_to_le_bytes(value),
            ),
            old(self)@.wf() ==> final(self)@.wf(),
    {
        let buf = encode_int64(value);
        self.set_bytes(obj_id, key_id, TYPE_INT, &buf);
    }

    /// Mock write of the short-name hash kind: stores the value's 4-byte
    /// little-endian buffer.
    pub fn set_hname(&mut self, obj_id: i32, key_id: Key32, value: u32)
        requires
            old(self)@.valid_container(obj_id as int),
            0 <= key_id.0 < 0x7fff_ffff,
        ensures
            final(self)@ == old(self)@.with_slot(
                obj_id as int,
                key_id.0 as int,
                TYPE_HNAME as int,
                spec_u32_to_le_bytes(value),
            ),
            old(self)@.wf() ==> final(self)@.wf(),
    {
        let buf = encode_uint32(value);
        self.set_bytes(obj_id, key_id, TYPE_HNAME, &buf);
    }

    /// Mock write of the string kind: stores the text's UTF-8 bytes.
    pub fn set_string(&mut self, obj_id: i32, key_id: Key32, value: &str)
        requires
            old(self)@.valid_container(obj_id as int),
            0 <= key_id.0 < 0x7fff_ffff,
        ensures
            final(self)@ == old(self)@.with_slot(
                obj_id as int,
                key_id.0 as int,
                TYPE_STRING as int,
                encode_utf8(value@),
            ),
            old(self)@.wf() ==> final(self)@.wf(),
    {
        let buf = value.as_bytes_vec();
        self.set_bytes(obj_id, key_id, TYPE_STRING, &buf);
    }
}

/// After a write the written slot holds exactly the written buffer, and
/// the container's length covers the written key.
pub proof fn lemma_write_reads_back(h: HostView, c: int, k: int, t: int, bytes: Seq<u8>)
    requires
        h.valid_container(c),
    ensures
        h.with_slot(c, k, t, bytes).slot(c, k, t) == Some(bytes),
        h.with_slot(c, k, t, bytes).length_of(c) == if k + 1 > h.length_of(c) {
            k + 1
        } else {
            h.length_of(c)
        },
{
}

/// A write leaves every other slot and every registered child exactly as
/// it was: a slot answers false to the existence test while, and only
/// while, no write has touched it.
pub proof fn lemma_write_frame(
    h: HostView,
    c: int,
    k: int,
    t: int,
    bytes: Seq<u8>,
    c2: int,
    k2: int,
    t2: int,
)
    requires
        h.valid_container(c),
        !(c2 == c && k2 == k && t2 == t),
    ensures
        h.with_slot(c, k, t, bytes).slot(c2, k2, t2) == h.slot(c2, k2, t2),
        h.with_slot(c, k, t, bytes).child(c2, k2, t2) == h.child(c2, k2, t2),
        h.with_slot(c, k, t, bytes).length_of(c2) == if c2 == c {
            h.with_slot(c, k, t, bytes).length_of(c)
        } else {
            h.length_of(c2)
        },
{
    let h2 = h.with_slot(c, k, t, bytes);
    if c2 == c {
        let pushed = h2.containers[c].slots;
        assert(pushed.drop_last() =~= h.containers[c].slots);
    }
}

/// Nested-object resolution allocates at most a fresh empty container: it
/// never stores or changes a scalar value anywhere in the space, and it
/// changes no collection length.
pub proof fn lemma_resolve_preserves_slots(
    h: HostView,
    c: int,
    k: int,
    t: int,
    c2: int,
    k2: int,
    t2: int,
)
    requires
        h.valid_container(c),
    ensures
        h.resolve_state(c, k, t).slot(c2, k2, t2) == h.slot(c2, k2, t2),
        h.resolve_state(c, k, t).length_of(c2) == h.length_of(c2),
{
    let h2 = h.resolve_state(c, k, t);
    match h.child(c, k, t) {
        Some(_) => {
        },
        None => {
            if h2.valid_container(c2) {
                if c2 < h.containers.len() {
                    assert(h2.containers[c2].slots == h.containers[c2].slots);
                    assert(h2.containers[c2].length == h.containers[c2].length);
                } else {
                    assert(h2.containers[c2] == spec_empty_container());
                }
            }
        },
    }
}

/// Nested-object resolution is idempotent: resolving the same (container,
/// key, type tag) again returns the same child id and leaves the space
/// unchanged, so no duplicate container is ever allocated.
pub proof fn lemma_resolve_idempotent(h: HostView, c: int, k: int, t: int)
    requires
        h.valid_container(c),
    ensures
        ({
            let h2 = h.resolve_state(c, k, t);
            &&& h2.resolve_id(c, k, t) == h.resolve_id(c, k, t)
            &&& h2.resolve_state(c, k, t) == h2
        }),
{
    let h2 = h.resolve_state(c, k, t);
    match h.child(c, k, t) {
        Some(_) => {
        },
        None => {
            let grown = h2.containers[c].children;
            assert(grown.last().key == k && grown.last().type_id == t);
            assert(h2.child(c, k, t) == Some(h.num_containers()));
        },
    }
}

/// Resolution keeps the space well formed and returns a valid container.
pub proof fn lemma_resolve_wf(h: HostView, c: int, k: int, t: int)
    requires
        h.wf(),
        h.valid_container(c),
    ensures
        h.resolve_state(c, k, t).wf(),
        h.resolve_state(c, k, t).valid_container(h.resolve_id(c, k, t)),
        h.resolve_state(c, k, t).num_containers() <= h.num_containers() + 1,
{
    let h2 = h.resolve_state(c, k, t);
    match h.child(c, k, t) {
        Some(id) => {
            assert(h.containers[c].children.len() > 0);
            lemma_child_lookup_in_range(h.containers[c].children, k, t, h.containers.len() as int);
        },
        None => {
            assert forall|ci: int, j: int|
                0 <= ci < h2.containers.len() && 0 <= j
                    < h2.containers[ci].children.len() implies 0 <= (
            #[trigger] h2.containers[ci].children[j]).child_id < h2.containers.len() by {
                if ci < h.containers.len() {
                    if ci == c {
                        if j < h.containers[c].children.len() {
                            assert(h2.containers[c].children[j] == h.containers[c].children[j]);
                        }
                    } else {
                        assert(h2.containers[ci] == h.containers[ci]);
                    }
                }
            }
        },
    }
}

/// A registered child found by lookup respects any bound every
/// registration respects.
proof fn lemma_child_lookup_in_range(children: Seq<ChildView>, k: int, t: int, bound: int)
    requires
        forall|j: int| 0 <= j < children.len() ==> 0 <= (#[trigger] children[j]).child_id < bound,
        spec_child_lookup(children, k, t) is Some,
    ensures
        0 <= spec_child_lookup(children, k, t).unwrap() < bound,
    decreases children.len(),
{
    if children.len() > 0 {
        if children.last().key == k && children.last().type_id == t {
        } else {
            assert(forall|j: int|
                0 <= j < children.drop_last().len() ==> children.drop_last()[j] == children[j]);
            lemma_child_lookup_in_range(children.drop_last(), k, t, bound);
        }
    }
}

/// Round trip for the integer kind: a mock write of value `v` followed
/// by a read of the same slot decodes to `v` itself, for every value of
/// the whole 64-bit range.
pub proof fn lemma_int_write_read_round_trip(h: HostView, c: int, k: int, v: i64)
    requires
        h.valid_container(c),
    ensures
        ({
            let h2 = h.with_slot(c, k, TYPE_INT as int, spec_i64_to_le_bytes(v));
            h2.slot(c, k, TYPE_INT as int) matches Some(b) && spec_i64_from_le_bytes(b) == v as int
        }),
{
    lemma_write_reads_back(h, c, k, TYPE_INT as int, spec_i64_to_le_bytes(v));
    lemma_int64_round_trip(v);
}

/// Round trip for the string kind: a mock write of text `s` followed by
/// a read of the same slot yields text equal to `s`, since two texts
/// sharing one UTF-8 encoding are the same text.
pub proof fn lemma_string_write_read_round_trip(h: HostView, c: int, k: int, s: Seq<char>, t: Seq<char>)
    requires
        h.valid_container(c),
        h.with_slot(c, k, TYPE_STRING as int, encode_utf8(s)).slot(c, k, TYPE_STRING as int)
            == Some(encode_utf8(t)),
    ensures
        t == s,
{
    lemma_write_reads_back(h, c, k, TYPE_STRING as int, encode_utf8(s));
    lemma_encode_utf8_injective(s, t);
}

/// Array indexing reads back what was stored: when the slots at keys
/// `0..vs.len()` of an array container hold the integer encodings of
/// `vs`, the element at each index decodes to exactly `vs[i]`.
pub proof fn lemma_int_array_reads_back(h: HostView, a: int, vs: Seq<i64>)
    requires
        forall|i: int|
            0 <= i < vs.len() ==> #[trigger] h.slot(a, i, TYPE_INT as int) == Some(
                spec_i64_to_le_bytes(vs[i]),
            ),
    ensures
        forall|i: int|
            0 <= i < vs.len() ==> (#[trigger] h.slot(a, i, TYPE_INT as int) matches Some(b)
                && spec_i64_from_le_bytes(b) == vs[i] as int),
{
    assert forall|i: int|
        0 <= i < vs.len() implies #[trigger] h.slot(a, i, TYPE_INT as int) matches Some(b)
        && spec_i64_from_le_bytes(b) == vs[i] as int by {
        lemma_int64_round_trip(vs[i]);
    }
}

/// Appending at the next free index grows the collection length by
/// exactly one: after appending `n` values in order at keys `0..n`, the
/// length query answers `n`.
pub proof fn lemma_append_grows_length(h: HostView, c: int, t: int, bytes: Seq<u8>)
    requires
        h.valid_container(c),
        h.length_of(c) >= 0,
    ensures
        h.with_slot(c, h.length_of(c), t, bytes).length_of(c) == h.length_of(c) + 1,
{
}

} // verus!
