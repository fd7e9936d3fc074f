//! The module cache behind the opaque boundary handle: process-lifetime
//! state mapping a content hash to the stored contract bytecode, restricted
//! to a supported capability set and rooted at a base directory.
//!
//! The handle type `cache_t` is the typed view of the opaque pointer that
//! crosses the boundary. A null pointer on the host side corresponds to the
//! handle's null state, which every operation must reject with the missing
//! cache error instead of dereferencing.

use vstd::prelude::*;
use crate::buffer::TransferBuffer;
use crate::checksum::{digest_of, Checksum, CHECKSUM_LEN};
use crate::error::{ArgName, BoundaryError};

verus! {

/// The set of capabilities named by a comma-separated text: each entry
/// trimmed, empty entries dropped. This is the result of
/// `cosmwasm_vm::capabilities_from_csv`, a pure function of the text alone.
pub uninterp spec fn capabilities_of_csv(csv: Seq<char>) -> Set<Seq<char>>;

/// Relies on `cosmwasm_vm::capabilities_from_csv`: splits the text on
/// commas, trims each entry and drops empty ones; a pure function of the
/// text alone. The entries come back in no fixed order (hash-set
/// iteration), so only the set of entries is stated.
#[verifier::external_body]
fn parse_capabilities(csv: &str) -> (r: Vec<String>)
    ensures
        r@.map_values(|s: String| s@).to_set() == capabilities_of_csv(csv@),
{
    cosmwasm_vm::capabilities_from_csv(csv).into_iter().collect()
}

/// Relies on `core::str::from_utf8`: succeeds exactly on valid UTF-8 input
/// and yields the text it decodes to.
#[verifier::external_body]
fn decode_text(bytes: &Vec<u8>) -> (r: Option<&str>)
    ensures
        r is Some <==> vstd::utf8::valid_utf8(bytes@),
        r is Some ==> r.unwrap()@ == vstd::utf8::decode_utf8(bytes@),
{
    core::str::from_utf8(bytes.as_slice()).ok()
}

/// The module store as a mathematical map, built from the entry list; a
/// later entry for the same content hash supersedes an earlier one.
pub open spec fn assoc_map(entries: Seq<(Seq<u8>, Seq<u8>)>) -> Map<Seq<u8>, Seq<u8>>
    decreases entries.len(),
{
    if entries.len() == 0 {
        Map::empty()
    } else {
        assoc_map(entries.drop_last()).insert(entries.last().0, entries.last().1)
    }
}

proof fn lemma_assoc_map_absent(entries: Seq<(Seq<u8>, Seq<u8>)>, key: Seq<u8>)
    requires
        forall|i: int| 0 <= i < entries.len() ==> entries[i].0 != key,
    ensures
        !assoc_map(entries).contains_key(key),
    decreases entries.len(),
{
    if entries.len() > 0 {
        lemma_assoc_map_absent(entries.drop_last(), key);
    }
}

proof fn lemma_assoc_map_found(entries: Seq<(Seq<u8>, Seq<u8>)>, i: int)
    requires
        0 <= i < entries.len(),
        forall|j: int| i < j < entries.len() ==> entries[j].0 != entries[i].0,
    ensures
        assoc_map(entries).contains_key(entries[i].0),
        assoc_map(entries)[entries[i].0] == entries[i].1,
    decreases entries.len(),
{
    if i == entries.len() - 1 {
    } else {
        lemma_assoc_map_found(entries.drop_last(), i);
    }
}

/// The live contents of the module cache.
#[derive(Debug)]
struct ModuleStore {
    base_dir: String,
    capabilities: Vec<String>,
    modules: Vec<(Checksum, Vec<u8>)>,
}

/// The opaque cache handle. `Null` corresponds to the host passing a null
/// pointer for the handle; a live handle owns the module store until the
/// host releases it, exactly once.
#[allow(non_camel_case_types)]
#[derive(Debug)]
pub struct cache_t {
    store: Option<ModuleStore>,
}

impl cache_t {
    /// Whether the handle refers to a live module store.
    pub closed spec fn is_live(&self) -> bool {
        self.store is Some
    }

    /// The directory the store is rooted at.
    pub closed spec fn spec_base_dir(&self) -> Seq<char> {
        self.store.unwrap().base_dir@
    }

    /// The capability set the store was initialized with.
    pub closed spec fn spec_capabilities(&self) -> Set<Seq<char>> {
        self.store.unwrap().capabilities@.map_values(|s: String| s@).to_set()
    }

    /// The entry list behind the stored-module map.
    closed spec fn entries(&self) -> Seq<(Seq<u8>, Seq<u8>)> {
        self.store.unwrap().modules@.map_values(|e: (Checksum, Vec<u8>)| (e.0@, e.1@))
    }

    /// The stored modules: content hash to bytecode.
    pub closed spec fn stored(&self) -> Map<Seq<u8>, Seq<u8>> {
        assoc_map(self.entries())
    }

    /// Invariant of a live store: every entry is keyed by the digest of its
    /// own bytecode, so identical bytecode is always stored under the
    /// identical hash.
    pub closed spec fn wf(&self) -> bool {
        self.is_live() ==> forall|i: int|
            0 <= i < self.entries().len() ==> (#[trigger] self.entries()[i]).0 == digest_of(
                self.entries()[i].1,
            ) && self.entries()[i].0.len() == CHECKSUM_LEN
    }

    /// The null handle, as which a host-side null pointer enters the
    /// verified core.
    pub fn null() -> (r: cache_t)
        ensures
            !r.is_live(),
            r.wf(),
    {
        cache_t { store: None }
    }

    /// Whether the handle is live, as the runtime null check that every
    /// boundary operation performs before touching the store.
    pub fn check_live(&self) -> (r: bool)
        ensures
            r == self.is_live(),
    {
        match &self.store {
            Option::Some(_) => true,
            Option::None => false,
        }
    }

    /// Creates the module store from the host's raw arguments: the base
    /// directory and the supported capability set, both UTF-8 text in
    /// caller-owned buffers. Fails exactly when a required argument is the
    /// null sentinel or empty, or is not valid UTF-8, in that order of
    /// checks.
    pub fn init(data_dir: &TransferBuffer, supported_features: &TransferBuffer) -> (r: Result<
        cache_t,
        BoundaryError,
    >)
        ensures
            r is Ok <==> {
                &&& buffer_filled(data_dir@)
                &&& vstd::utf8::valid_utf8(data_dir@.unwrap())
                &&& buffer_filled(supported_features@)
                &&& vstd::utf8::valid_utf8(supported_features@.unwrap())
            },
            r is Ok ==> {
                &&& r.unwrap().is_live()
                &&& r.unwrap().wf()
                &&& r.unwrap().spec_base_dir() == vstd::utf8::decode_utf8(data_dir@.unwrap())
                &&& r.unwrap().spec_capabilities() == capabilities_of_csv(
                    vstd::utf8::decode_utf8(supported_features@.unwrap()),
                )
                &&& r.unwrap().stored() == Map::<Seq<u8>, Seq<u8>>::empty()
            },
            r is Err ==> r.unwrap_err() == spec_init_error(data_dir@, supported_features@),
    {
        let dir_bytes = match required(data_dir, ArgName::DataDir) {
            Ok(b) => b,
            Err(e) => { return Err(e); },
        };
        let dir_text = match decode_text(dir_bytes) {
            Option::Some(t) => t,
            Option::None => { return Err(BoundaryError::InvalidUtf8); },
        };
        let features_bytes = match required(supported_features, ArgName::SupportedFeatures) {
            Ok(b) => b,
            Err(e) => { return Err(e); },
        };
        let features_text = match decode_text(features_bytes) {
            Option::Some(t) => t,
            Option::None => { return Err(BoundaryError::InvalidUtf8); },
        };
        let capabilities = parse_capabilities(features_text);
        let store = ModuleStore {
            base_dir: dir_text.to_owned(),
            capabilities,
            modules: Vec::new(),
        };
        let handle = cache_t { store: Option::Some(store) };
        proof {
            assert(handle.entries() =~= Seq::<(Seq<u8>, Seq<u8>)>::empty());
        }
        Ok(handle)
    }

    /// Stores bytecode under its content hash and returns the hash. The
    /// stored-module map gains exactly that binding; everything else about
    /// the store is unchanged.
    pub fn save_code(&mut self, bytecode: &Vec<u8>) -> (r: Checksum)
        requires
            old(self).is_live(),
            old(self).wf(),
        ensures
            r@ == digest_of(bytecode@),
            r.wf(),
            final(self).is_live(),
            final(self).wf(),
            final(self).stored() == old(self).stored().insert(digest_of(bytecode@), bytecode@),
            final(self).spec_base_dir() == old(self).spec_base_dir(),
            final(self).spec_capabilities() == old(self).spec_capabilities(),
    {
        let checksum = Checksum::generate(bytecode);
        let entry_checksum = checksum.duplicate();
        match &mut self.store {
            Option::Some(store) => {
                store.modules.push((entry_checksum, bytecode.clone()));
            },
            Option::None => {},
        }
        proof {
            assert(final(self).entries() =~= old(self).entries().push(
                (checksum@, bytecode@),
            ));
            assert(final(self).entries().drop_last() =~= old(self).entries());
        }
        checksum
    }

    /// Loads the bytecode stored under the given content hash; fails with
    /// the unknown-checksum error exactly when no stored module matches.
    pub fn load_code(&self, checksum: &Checksum) -> (r: Result<Vec<u8>, BoundaryError>)
        requires
            self.is_live(),
        ensures
            r is Ok <==> self.stored().contains_key(checksum@),
            r is Ok ==> r.unwrap()@ == self.stored()[checksum@],
            r is Err ==> r.unwrap_err() == BoundaryError::UnknownChecksum,
    {
        let modules = match &self.store {
            Option::Some(store) => &store.modules,
            Option::None => { return Err(BoundaryError::UnknownChecksum); },
        };
        let n: usize = modules.len();
        let mut i: usize = n;
        while i > 0
            invariant
                self.is_live(),
                n == modules@.len(),
                modules@ == self.store.unwrap().modules@,
                i <= n,
                forall|j: int| i <= j < n ==> self.entries()[j].0 != checksum@,
            decreases i,
        {
            i = i - 1;
            let entry = &modules[i];
            if entry.0.matches(checksum.as_bytes()) {
                proof {
                    lemma_assoc_map_found(self.entries(), i as int);
                }
                return Ok(entry.1.clone());
            }
        }
        proof {
            lemma_assoc_map_absent(self.entries(), checksum@);
        }
        Err(BoundaryError::UnknownChecksum)
    }

    /// Whether a module is stored under the given content hash: the runtime
    /// resolution step behind instance acquisition.
    pub fn contains_code(&self, checksum: &Checksum) -> (r: bool)
        requires
            self.is_live(),
        ensures
            r == self.stored().contains_key(checksum@),
    {
        match self.load_code(checksum) {
            Ok(_) => true,
            Err(_) => false,
        }
    }

    /// Whether the store was initialized with the given capability.
    pub fn has_capability(&self, name: &String) -> (r: bool)
        requires
            self.is_live(),
        ensures
            r == self.spec_capabilities().contains(name@),
    {
        let capabilities = match &self.store {
            Option::Some(store) => &store.capabilities,
            Option::None => { return false; },
        };
        let n: usize = capabilities.len();
        for i in 0..n
            invariant
                self.is_live(),
                n == capabilities@.len(),
                capabilities@ == self.store.unwrap().capabilities@,
                forall|j: int| 0 <= j < i ==> capabilities@[j]@ != name@,
        {
            if capabilities[i] == *name {
                proof {
                    assert(self.store.unwrap().capabilities@.map_values(|s: String| s@)[i as int]
                        == name@);
                }
                return true;
            }
        }
        proof {
            assert forall|x: Seq<char>| self.spec_capabilities().contains(x) implies x != name@ by {
                let m = self.store.unwrap().capabilities@.map_values(|s: String| s@);
                assert(m.contains(x));
                let j = choose|j: int| 0 <= j < m.len() && m[j] == x;
                assert(capabilities@[j]@ == x);
            }
        }
        false
    }

    /// Tears down a live handle, exactly once per handle the host was
    /// given; a second release of the same handle is ruled out by the
    /// handle being consumed. Releasing the null handle is a no-op.
    /// Reports whether a live store was actually released.
    pub fn release(self) -> (released: bool)
        ensures
            released == self.is_live(),
    {
        match self.store {
            Option::Some(_) => true,
            Option::None => false,
        }
    }
}

/// Whether a buffer argument is present and non-empty: the condition under
/// which a required argument passes the presence check.
pub open spec fn buffer_filled(b: Option<Seq<u8>>) -> bool {
    b is Some && b.unwrap().len() > 0
}

/// The condition under which cache initialization succeeds: both the
/// directory and the capability-set arguments are present, non-empty and
/// valid UTF-8.
pub open spec fn spec_init_ok(
    data_dir: Option<Seq<u8>>,
    supported_features: Option<Seq<u8>>,
) -> bool {
    &&& buffer_filled(data_dir)
    &&& vstd::utf8::valid_utf8(data_dir.unwrap())
    &&& buffer_filled(supported_features)
    &&& vstd::utf8::valid_utf8(supported_features.unwrap())
}

/// The error `init` reports for the given argument buffers, checked in
/// argument order: presence of the directory, its text decoding, presence
/// of the capability set, its text decoding.
pub open spec fn spec_init_error(
    data_dir: Option<Seq<u8>>,
    supported_features: Option<Seq<u8>>,
) -> BoundaryError {
    if !buffer_filled(data_dir) {
        BoundaryError::EmptyArg(ArgName::DataDir)
    } else if !vstd::utf8::valid_utf8(data_dir.unwrap()) {
        BoundaryError::InvalidUtf8
    } else if !buffer_filled(supported_features) {
        BoundaryError::EmptyArg(ArgName::SupportedFeatures)
    } else {
        BoundaryError::InvalidUtf8
    }
}

/// Reads a required argument buffer: yields its bytes when present and
/// non-empty, the missing-argument error under the given name otherwise.
/// Both the null sentinel and a present but empty buffer count as missing.
pub fn required<'a>(b: &'a TransferBuffer, name: ArgName) -> (r: Result<&'a Vec<u8>, BoundaryError>)
    ensures
        r is Ok <==> buffer_filled(b@),
        r is Ok ==> r.unwrap()@ == b@.unwrap(),
        r is Err ==> r.unwrap_err() == BoundaryError::EmptyArg(name),
{
    match b.read() {
        Option::Some(bytes) => {
            if bytes.len() > 0 {
                Ok(bytes)
            } else {
                Err(BoundaryError::EmptyArg(name))
            }
        },
        Option::None => Err(BoundaryError::EmptyArg(name)),
    }
}

} // verus!
