//! The asset bundle: entries, the lookup that the resolver consumes, an
//! in-memory bundle, and the document served when nothing else can be.

use vstd::hash_map::StringHashMap;
use vstd::prelude::*;
use vstd::slice::slice_to_vec;
use vstd::string::*;

verus! {

/// One stored blob: its bytes, the 256-bit digest of those bytes, and the
/// time of its last change in seconds since the Unix epoch, where known.
#[derive(Debug, Clone)]
pub struct AssetEntry {
    pub data: Vec<u8>,
    pub hash: [u8; 32],
    pub last_modified: Option<u64>,
}

/// What an entry holds, as plain values.
pub struct AssetEntryView {
    pub data: Seq<u8>,
    pub hash: Seq<u8>,
    pub last_modified: Option<u64>,
}

impl View for AssetEntry {
    type V = AssetEntryView;

    open spec fn view(&self) -> AssetEntryView {
        AssetEntryView { data: self.data@, hash: self.hash@, last_modified: self.last_modified }
    }
}

impl AssetEntry {
    /// An entry of the given bytes, digest and time.
    pub fn new(data: Vec<u8>, hash: [u8; 32], last_modified: Option<u64>) -> (r: AssetEntry)
        ensures
            r@ == (AssetEntryView { data: data@, hash: hash@, last_modified }),
    {
        AssetEntry { data, hash, last_modified }
    }

    /// A copy of the entry that holds the same values.
    pub fn duplicate(&self) -> (r: AssetEntry)
        ensures
            r@ == self@,
    {
        AssetEntry {
            data: slice_to_vec(self.data.as_slice()),
            hash: self.hash,
            last_modified: self.last_modified,
        }
    }
}

/// A read-only bundle of entries, found by exact key.
pub trait AssetSource {
    /// The bundle as a map from key to entry.
    spec fn contents(&self) -> Map<Seq<char>, AssetEntryView>;

    /// The entry stored under `key`, if there is one.
    fn get(&self, key: &str) -> (r: Option<AssetEntry>)
        ensures
            r is Some == self.contents().contains_key(key@),
            r matches Some(e) ==> e@ == self.contents()[key@],
    ;
}

/// A bundle held in memory.
pub struct MemoryAssets {
    entries: StringHashMap<AssetEntry>,
}

impl MemoryAssets {
    /// The bundle as a map from key to entry.
    pub closed spec fn view(&self) -> Map<Seq<char>, AssetEntryView> {
        Map::new(
            |k: Seq<char>| self.entries@.contains_key(k),
            |k: Seq<char>| self.entries@[k]@,
        )
    }

    /// The empty bundle.
    pub fn new() -> (r: MemoryAssets)
        ensures
            r@ == Map::<Seq<char>, AssetEntryView>::empty(),
    {
        MemoryAssets { entries: StringHashMap::new() }
    }

    /// Stores `entry` under `key`, in place of what was there.
    pub fn insert(&mut self, key: String, entry: AssetEntry)
        ensures
            final(self)@ == old(self)@.insert(key@, entry@),
    {
        self.entries.insert(key, entry);
    }
}

impl AssetSource for MemoryAssets {
    open spec fn contents(&self) -> Map<Seq<char>, AssetEntryView> {
        self@
    }

    fn get(&self, key: &str) -> (r: Option<AssetEntry>) {
        match self.entries.get(key) {
            Some(entry) => Some(entry.duplicate()),
            None => None,
        }
    }
}

/// The key under which the built-in document is reported.
pub open spec fn default_key() -> Seq<char> {
    "404.html"@
}

/// The text of the built-in document.
pub open spec fn default_text() -> Seq<char> {
    "<!DOCTYPE html>\n<html>\n<head><title>404 Not Found</title></head>\n<body><h1>404 Not Found</h1></body>\n</html>\n"@
}

/// The SHA-256 digest of the built-in document.
pub open spec fn default_hash() -> Seq<u8> {
    seq![
        0xa6u8, 0x68u8, 0xe7u8, 0x7cu8, 0x96u8, 0x12u8, 0x9fu8, 0x00u8,
        0x3bu8, 0x61u8, 0x45u8, 0x69u8, 0xa6u8, 0x66u8, 0x30u8, 0x93u8,
        0x81u8, 0x1fu8, 0x3bu8, 0x2au8, 0x00u8, 0x1fu8, 0x78u8, 0x63u8,
        0x8au8, 0x1cu8, 0xa5u8, 0xafu8, 0x1fu8, 0x13u8, 0x15u8, 0xb4u8,
    ]
}

/// The built-in document as an entry: it carries no time.
pub open spec fn default_entry() -> AssetEntryView {
    AssetEntryView {
        data: vstd::utf8::encode_utf8(default_text()),
        hash: default_hash(),
        last_modified: None,
    }
}

/// The text of the document that is served when the bundle offers nothing.
pub fn default_document() -> (r: &'static str)
    ensures
        r@ == default_text(),
{
    "<!DOCTYPE html>\n<html>\n<head><title>404 Not Found</title></head>\n<body><h1>404 Not Found</h1></body>\n</html>\n"
}

/// The document that is served when the bundle offers nothing, as an entry.
pub fn builtin_not_found() -> (r: AssetEntry)
    ensures
        r@ == default_entry(),
{
    let hash: [u8; 32] = [
        0xa6u8, 0x68u8, 0xe7u8, 0x7cu8, 0x96u8, 0x12u8, 0x9fu8, 0x00u8,
        0x3bu8, 0x61u8, 0x45u8, 0x69u8, 0xa6u8, 0x66u8, 0x30u8, 0x93u8,
        0x81u8, 0x1fu8, 0x3bu8, 0x2au8, 0x00u8, 0x1fu8, 0x78u8, 0x63u8,
        0x8au8, 0x1cu8, 0xa5u8, 0xafu8, 0x1fu8, 0x13u8, 0x15u8, 0xb4u8,
    ];
    AssetEntry { data: default_document().as_bytes_vec(), hash, last_modified: None }
}

} // verus!
