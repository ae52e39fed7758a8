//! The virtual file store: a keyed registry of file slots, each
//! populated with a decoded text source and a raw byte buffer.
//!
//! Fetch-backed registration is insert-if-absent: a second registration
//! under the same key is a no-op.  Explicit source registration always
//! overwrites the slot.  Lookups of unregistered keys are a defined
//! failure, never a panic.

use vstd::prelude::*;
use vstd::utf8::{decode_utf8, encode_utf8, valid_utf8};
use crate::ids::{FileKey, FileKeyView};

verus! {

#[verifier::external_type_specification]
#[verifier::external_body]
pub struct ExSource(typst::syntax::Source);

#[verifier::external_type_specification]
#[verifier::external_body]
pub struct ExBytes(typst::foundations::Bytes);

/// The text a decoded source file carries.
pub uninterp spec fn source_text(s: typst::syntax::Source) -> Seq<char>;

/// The raw bytes a byte buffer carries.
pub uninterp spec fn buffer_data(b: typst::foundations::Bytes) -> Seq<u8>;

/// Relies on `typst::syntax::Source::new`, which stores the given text
/// under a namespace-free file id made from the given path.
#[verifier::external_body]
fn ex_source_new(path: &str, text: String) -> (r: typst::syntax::Source)
    ensures
        source_text(r) == text@,
{
    let id = typst::syntax::FileId::new(None, typst::syntax::VirtualPath::new(path));
    typst::syntax::Source::new(id, text)
}

/// Relies on `typst::foundations::Bytes::from`, which wraps the given
/// byte vector unchanged.
#[verifier::external_body]
fn ex_bytes_from(data: Vec<u8>) -> (r: typst::foundations::Bytes)
    ensures
        buffer_data(r) == data@,
{
    typst::foundations::Bytes::from(data)
}

/// Relies on `String::from_utf8`, which succeeds exactly on valid
/// UTF-8 input and returns the decoded character sequence.
#[verifier::external_body]
fn ex_decode_text(data: &Vec<u8>) -> (r: Option<String>)
    ensures
        match r {
            Some(s) => valid_utf8(data@) && s@ == decode_utf8(data@),
            None => !valid_utf8(data@),
        },
{
    String::from_utf8(data.clone()).ok()
}

/// Why a lookup failed.
#[derive(Clone, Copy, PartialEq, Eq, Structural, Debug)]
pub enum FileError {
    /// No slot was ever registered under the requested key.
    NotFound,
    /// The slot's bytes are not valid text, so it has no source.
    InvalidEncoding,
}

/// One virtual file: a byte buffer, always present once the slot
/// exists, and the decoded text source when the bytes form valid text.
pub struct Slot {
    source: Option<typst::syntax::Source>,
    buffer: typst::foundations::Bytes,
}

/// The mathematical value of a slot.
#[verifier::ext_equal]
pub struct SlotView {
    /// The decoded text, absent when the bytes are not valid text.
    pub text: Option<Seq<char>>,
    /// The raw bytes.
    pub bytes: Seq<u8>,
}

impl View for Slot {
    type V = SlotView;

    closed spec fn view(&self) -> SlotView {
        SlotView {
            text: match self.source {
                Some(s) => Some(source_text(s)),
                None => None,
            },
            bytes: buffer_data(self.buffer),
        }
    }
}

/// The slot that fetch-backed registration of `bytes` produces: the
/// bytes themselves, plus their decoding when they are valid text.
pub open spec fn fetched_slot(bytes: Seq<u8>) -> SlotView {
    SlotView {
        text: if valid_utf8(bytes) {
            Some(decode_utf8(bytes))
        } else {
            None
        },
        bytes: bytes,
    }
}

/// The slot that explicit source registration of `text` produces: the
/// text itself, plus its encoding as the byte buffer.
pub open spec fn authored_slot(text: Seq<char>) -> SlotView {
    SlotView { text: Some(text), bytes: encode_utf8(text) }
}

/// How fetch-backed registration changes the store's contents:
/// insert-if-absent.
pub open spec fn register_fetched_spec(
    m: Map<FileKeyView, SlotView>,
    k: FileKeyView,
    bytes: Seq<u8>,
) -> Map<FileKeyView, SlotView> {
    if m.contains_key(k) {
        m
    } else {
        m.insert(k, fetched_slot(bytes))
    }
}

/// How explicit source registration changes the store's contents:
/// always overwrite.
pub open spec fn register_source_spec(
    m: Map<FileKeyView, SlotView>,
    k: FileKeyView,
    text: Seq<char>,
) -> Map<FileKeyView, SlotView> {
    m.insert(k, authored_slot(text))
}

struct StoreEntry {
    key: FileKey,
    slot: Slot,
}

/// The keyed registry of virtual files.
pub struct FileStore {
    entries: Vec<StoreEntry>,
}

impl FileStore {
    /// No two entries share a key.
    pub closed spec fn wf(self) -> bool {
        forall|i: int, j: int|
            0 <= i < j < self.entries@.len() ==> self.entries@[i].key@ != self.entries@[j].key@
    }

    /// The store as a map from keys to slot values.
    pub closed spec fn contents(self) -> Map<FileKeyView, SlotView> {
        seq_contents(self.entries@)
    }

    pub fn new() -> (s: FileStore)
        ensures
            s.wf(),
            s.contents() == Map::<FileKeyView, SlotView>::empty(),
    {
        FileStore { entries: Vec::new() }
    }

    /// The index of the entry under `key`, if the store has one.
    fn find(&self, key: &FileKey) -> (r: Option<usize>)
        ensures
            match r {
                Some(i) => i < self.entries@.len() && self.entries@[i as int].key@ == key@,
                None => forall|i: int|
                    0 <= i < self.entries@.len() ==> self.entries@[i].key@ != key@,
            },
    {
        let mut i: usize = 0;
        while i < self.entries.len()
            invariant
                i <= self.entries@.len(),
                forall|j: int| 0 <= j < i ==> self.entries@[j].key@ != key@,
            decreases self.entries@.len() - i,
        {
            if self.entries[i].key.key_eq(key) {
                return Some(i);
            }
            i = i + 1;
        }
        None
    }

    /// Fetch-backed registration: memoize `data`, and its decoding as
    /// the slot's source, unless the key already has a slot, in which
    /// case nothing changes.
    pub fn register_fetched(&mut self, key: FileKey, data: Vec<u8>)
        requires
            old(self).wf(),
        ensures
            final(self).wf(),
            final(self).contents() == register_fetched_spec(old(self).contents(), key@, data@),
    {
        match self.find(&key) {
            Some(_) => {
                proof {
                    lemma_seq_contents_contains(self.entries@, key@);
                }
            },
            None => {
                proof {
                    lemma_seq_contents_contains(self.entries@, key@);
                }
                let source = match ex_decode_text(&data) {
                    Some(text) => Some(ex_source_new(key.path.as_str(), text)),
                    None => None,
                };
                let buffer = ex_bytes_from(data);
                let ghost pre = self.entries@;
                self.entries.push(StoreEntry { key, slot: Slot { source, buffer } });
                proof {
                    assert(self.entries@.drop_last() =~= pre);
                    assert(self.entries@.last().slot@ =~= fetched_slot(data@));
                }
            },
        }
    }

    /// Explicit source registration: create or overwrite the slot under
    /// `key` with `text` and the UTF-8 encoding of `text`.
    pub fn register_source(&mut self, key: FileKey, text: String)
        requires
            old(self).wf(),
        ensures
            final(self).wf(),
            final(self).contents() == register_source_spec(old(self).contents(), key@, text@),
    {
        let bytes = text.as_str().as_bytes_vec();
        let source = ex_source_new(key.path.as_str(), text);
        let slot = Slot { source: Some(source), buffer: ex_bytes_from(bytes) };
        proof {
            assert(slot@ =~= authored_slot(text@));
        }
        match self.find(&key) {
            Some(i) => {
                let ghost pre = self.entries@;
                let removed = self.entries.remove(i);
                proof {
                    lemma_seq_contents_remove(pre, i as int);
                }
                let ghost mid = self.entries@;
                self.entries.push(StoreEntry { key, slot });
                proof {
                    assert(self.entries@.drop_last() =~= mid);
                    assert(
                        seq_contents(pre).remove(pre[i as int].key@).insert(key@, slot@)
                            =~= seq_contents(pre).insert(key@, authored_slot(text@))
                    );
                }
            },
            None => {
                let ghost pre = self.entries@;
                self.entries.push(StoreEntry { key, slot });
                proof {
                    assert(self.entries@.drop_last() =~= pre);
                }
            },
        }
    }

    /// The memoized source under `key`: `NotFound` exactly when no slot
    /// was registered, `InvalidEncoding` exactly when the slot's bytes
    /// are not valid text.
    pub fn lookup_source(&self, key: &FileKey) -> (r: Result<&typst::syntax::Source, FileError>)
        requires
            self.wf(),
        ensures
            match r {
                Ok(s) => self.contents().contains_key(key@)
                    && self.contents()[key@].text == Some(source_text(*s)),
                Err(e) => if e == FileError::NotFound {
                    !self.contents().contains_key(key@)
                } else {
                    e == FileError::InvalidEncoding && self.contents().contains_key(key@)
                        && self.contents()[key@].text is None
                },
            },
    {
        match self.find(key) {
            Some(i) => {
                proof {
                    lemma_seq_contents_at(self.entries@, i as int);
                }
                match &self.entries[i].slot.source {
                    Some(s) => Ok(s),
                    None => Err(FileError::InvalidEncoding),
                }
            },
            None => {
                proof {
                    lemma_seq_contents_contains(self.entries@, key@);
                }
                Err(FileError::NotFound)
            },
        }
    }

    /// The memoized byte buffer under `key`: `NotFound` exactly when no
    /// slot was registered.
    pub fn lookup_bytes(&self, key: &FileKey) -> (r: Result<
        &typst::foundations::Bytes,
        FileError,
    >)
        requires
            self.wf(),
        ensures
            match r {
                Ok(b) => self.contents().contains_key(key@)
                    && buffer_data(*b) == self.contents()[key@].bytes,
                Err(e) => e == FileError::NotFound && !self.contents().contains_key(key@),
            },
    {
        match self.find(key) {
            Some(i) => {
                proof {
                    lemma_seq_contents_at(self.entries@, i as int);
                }
                Ok(&self.entries[i].slot.buffer)
            },
            None => {
                proof {
                    lemma_seq_contents_contains(self.entries@, key@);
                }
                Err(FileError::NotFound)
            },
        }
    }
}

spec fn seq_contents(s: Seq<StoreEntry>) -> Map<FileKeyView, SlotView>
    decreases s.len(),
{
    if s.len() == 0 {
        Map::empty()
    } else {
        seq_contents(s.drop_last()).insert(s.last().key@, s.last().slot@)
    }
}

proof fn lemma_seq_contents_contains(s: Seq<StoreEntry>, k: FileKeyView)
    ensures
        seq_contents(s).contains_key(k) <==> exists|i: int| 0 <= i < s.len() && s[i].key@ == k,
    decreases s.len(),
{
    if s.len() > 0 {
        lemma_seq_contents_contains(s.drop_last(), k);
        if s.last().key@ == k {
            assert(s[s.len() - 1].key@ == k);
        } else if seq_contents(s).contains_key(k) {
            let i = choose|i: int| 0 <= i < s.drop_last().len() && s.drop_last()[i].key@ == k;
            assert(s[i].key@ == k);
        } else if exists|i: int| 0 <= i < s.len() && s[i].key@ == k {
            let i = choose|i: int| 0 <= i < s.len() && s[i].key@ == k;
            assert(s.drop_last()[i].key@ == k);
        }
    }
}

proof fn lemma_seq_contents_at(s: Seq<StoreEntry>, i: int)
    requires
        0 <= i < s.len(),
        forall|p: int, q: int| 0 <= p < q < s.len() ==> s[p].key@ != s[q].key@,
    ensures
        seq_contents(s).contains_key(s[i].key@),
        seq_contents(s)[s[i].key@] == s[i].slot@,
    decreases s.len(),
{
    if i == s.len() - 1 {
    } else {
        lemma_seq_contents_at(s.drop_last(), i);
        assert(s.drop_last()[i] == s[i]);
        assert(s[i].key@ != s.last().key@);
    }
}

proof fn lemma_seq_contents_remove(s: Seq<StoreEntry>, i: int)
    requires
        0 <= i < s.len(),
        forall|p: int, q: int| 0 <= p < q < s.len() ==> s[p].key@ != s[q].key@,
    ensures
        seq_contents(s.remove(i)) =~= seq_contents(s).remove(s[i].key@),
    decreases s.len(),
{
    if i == s.len() - 1 {
        assert(s.remove(i) =~= s.drop_last());
        lemma_seq_contents_contains(s.drop_last(), s[i].key@);
        assert(forall|j: int|
            0 <= j < s.drop_last().len() ==> s.drop_last()[j].key@ != s[i].key@);
        assert(seq_contents(s.drop_last()) =~= seq_contents(s).remove(s[i].key@));
    } else {
        lemma_seq_contents_remove(s.drop_last(), i);
        assert(s.remove(i).drop_last() =~= s.drop_last().remove(i));
        assert(s.remove(i).last() == s.last());
        assert(s[i].key@ != s.last().key@);
    }
}

} // verus!
