//! The key space: resolution of symbolic map keys to fixed-width key
//! identifiers.
//!
//! A symbolic key is either a small integer, used directly as the
//! identifier, or a name, interned in the key space of one evaluation
//! context. Interning is deterministic: within one context the same name
//! always resolves to the same identifier.

use vstd::prelude::*;

verus! {

/// A fixed-width key identifier addressing one slot within a container.
/// For arrays it is the element index; for maps it is the resolved form
/// of a symbolic key.
#[derive(Clone, Copy, Debug, PartialEq, Eq, Structural)]
pub struct Key32(pub i32);

/// The symbolic form of a map key: a small integer index used directly,
/// or a name interned by the key space.
pub ghost enum KeySym {
    Index(int),
    Name(Seq<char>),
}

/// Resolution of a name against the names interned so far: a known name
/// keeps the index of its first occurrence, a new name is appended and
/// receives the next index.
pub open spec fn spec_resolve_name(names: Seq<Seq<char>>, name: Seq<char>) -> (Seq<Seq<char>>, int) {
    match names.index_of_first(name) {
        Some(i) => (names, i),
        None => (names.push(name), names.len() as int),
    }
}

/// Resolution of a symbolic key: an integer index stands for itself, a
/// name goes through interning.
pub open spec fn spec_resolve_sym(names: Seq<Seq<char>>, sym: KeySym) -> (Seq<Seq<char>>, int) {
    match sym {
        KeySym::Index(i) => (names, i),
        KeySym::Name(n) => spec_resolve_name(names, n),
    }
}

/// The key space of one evaluation context. It holds the names interned
/// so far, in order of first use; its view is that sequence of names.
pub struct KeySpace {
    names: Vec<String>,
}

impl View for KeySpace {
    type V = Seq<Seq<char>>;

    closed spec fn view(&self) -> Seq<Seq<char>> {
        self.names@.map_values(|s: String| s@)
    }
}

proof fn lemma_index_of_first_found(s: Seq<Seq<char>>, needle: Seq<char>, i: int)
    requires
        0 <= i < s.len(),
        s[i] == needle,
        forall|j: int| 0 <= j < i ==> s[j] != needle,
    ensures
        s.index_of_first(needle) == Some(i),
{
    s.index_of_first_ensures(needle);
    assert(s.contains(needle));
    let found = s.index_of_first(needle).unwrap();
    assert(found <= i);
    assert(i <= found);
}

impl KeySpace {
    /// A fresh key space with no interned names.
    pub fn new() -> (r: KeySpace)
        ensures
            r@ == Seq::<Seq<char>>::empty(),
    {
        let r = KeySpace { names: Vec::new() };
        proof {
            assert(r@ =~= Seq::<Seq<char>>::empty());
        }
        r
    }

    /// Resolves a name to its stable identifier, interning it on first
    /// use. Two resolutions of the same name in one context yield the
    /// same identifier.
    pub fn key_id(&mut self, name: &String) -> (r: Key32)
        requires
            old(self)@.len() < 0x7fff_ffff,
        ensures
            final(self)@ == spec_resolve_name(old(self)@, name@).0,
            r.0 as int == spec_resolve_name(old(self)@, name@).1,
            0 <= r.0,
            final(self)@.len() <= old(self)@.len() + 1,
    {
        let ghost orig = self@;
        let mut i: usize = 0;
        while i < self.names.len()
            invariant
                i <= self.names@.len(),
                self@ == orig,
                orig.len() == self.names@.len(),
                forall|j: int| 0 <= j < i ==> orig[j] != name@,
                orig.len() < 0x7fff_ffff,
            decreases self.names@.len() - i,
        {
            if self.names[i].eq(name) {
                proof {
                    assert(orig[i as int] == name@);
                    lemma_index_of_first_found(orig, name@, i as int);
                }
                return Key32(i as i32);
            }
            proof {
                assert(orig[i as int] == self.names@[i as int]@);
            }
            i = i + 1;
        }
        proof {
            self@.index_of_first_ensures(name@);
            if self@.contains(name@) {
                let k = choose|k: int| 0 <= k < self@.len() && self@[k] == name@;
                assert(self@[k] != name@);
            }
            assert(self@.index_of_first(name@) is None);
        }
        let id = self.names.len() as i32;
        self.names.push(name.clone());
        proof {
            assert(self@ =~= orig.push(name@));
        }
        Key32(id)
    }
}

/// Interning is stable: after a name has been resolved once, resolving it
/// again returns the same identifier and leaves the key space unchanged.
pub proof fn lemma_resolve_name_stable(names: Seq<Seq<char>>, name: Seq<char>)
    ensures
        ({
            let (n1, i1) = spec_resolve_name(names, name);
            spec_resolve_name(n1, name) == (n1, i1)
        }),
{
    names.index_of_first_ensures(name);
    match names.index_of_first(name) {
        Some(_) => {
        },
        None => {
            let n1 = names.push(name);
            assert(forall|j: int| 0 <= j < names.len() ==> names[j] != name);
            assert(forall|j: int| 0 <= j < names.len() ==> n1[j] != name);
            assert(n1[names.len() as int] == name);
            lemma_index_of_first_found(n1, name, names.len() as int);
        },
    }
}

/// A symbolic map key: resolvable to a key identifier in a key space.
pub trait MapKey {
    /// The symbolic form this key resolves through.
    spec fn sym(&self) -> KeySym;

    /// Resolves this key to its identifier in the given key space.
    fn get_id(&self, ks: &mut KeySpace) -> (r: Key32)
        requires
            old(ks)@.len() < 0x7fff_ffff,
        ensures
            final(ks)@ == spec_resolve_sym(old(ks)@, self.sym()).0,
            r.0 as int == spec_resolve_sym(old(ks)@, self.sym()).1,
            final(ks)@.len() <= old(ks)@.len() + 1,
    ;
}

impl MapKey for i32 {
    open spec fn sym(&self) -> KeySym {
        KeySym::Index(*self as int)
    }

    fn get_id(&self, ks: &mut KeySpace) -> (r: Key32) {
        Key32(*self)
    }
}

impl MapKey for Key32 {
    open spec fn sym(&self) -> KeySym {
        KeySym::Index(self.0 as int)
    }

    fn get_id(&self, ks: &mut KeySpace) -> (r: Key32) {
        Key32(self.0)
    }
}

impl MapKey for String {
    open spec fn sym(&self) -> KeySym {
        KeySym::Name(self@)
    }

    fn get_id(&self, ks: &mut KeySpace) -> (r: Key32) {
        ks.key_id(self)
    }
}

} // verus!
