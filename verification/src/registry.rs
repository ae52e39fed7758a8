//! The process-wide compilation context: font registry, virtual file
//! store, environment, and the designated main file, mutated only
//! through the registration operations and read in full by each
//! compile pass.

use vstd::prelude::*;
use crate::env::{inputs_map, Environment};
use crate::fonts::{decoded_families, family_of, FontRegistry};
use crate::ids::{FileKey, FileKeyView};
use crate::store::{
    register_fetched_spec, register_source_spec, source_text, FileError, FileStore, SlotView,
};

verus! {

/// The path of the designated main file when none is chosen
/// explicitly.
pub open spec fn main_path() -> Seq<char> {
    "main.typ"@
}

/// The aggregated registries behind the compiler's resource-provider
/// view.
pub struct Registry {
    fonts: FontRegistry,
    store: FileStore,
    env: Environment,
    main: FileKey,
}

impl Registry {
    /// The registries are well formed and the main key never carries a
    /// namespace.
    pub closed spec fn wf(self) -> bool {
        self.fonts.wf() && self.store.wf() && self.main@ == (FileKeyView {
            namespace: None,
            path: main_path(),
        })
    }

    /// The virtual files, as a map from keys to slot values.
    pub closed spec fn files(self) -> Map<FileKeyView, SlotView> {
        self.store.contents()
    }

    /// The family names of the font metadata index, in order.
    pub closed spec fn families(self) -> Seq<Seq<char>> {
        self.fonts.families()
    }

    /// The decoded font faces, in order.
    pub closed spec fn faces(self) -> Seq<typst::text::Font> {
        self.fonts.face_seq()
    }

    /// The mapping of caller-supplied named inputs.
    pub closed spec fn env_map(self) -> Map<Seq<char>, Seq<char>> {
        self.env@
    }

    /// The key of the designated main file.
    pub closed spec fn main_key(self) -> FileKeyView {
        self.main@
    }

    /// A fresh context: no fonts, no files, no named inputs.
    pub fn new() -> (r: Registry)
        ensures
            r.wf(),
            r.files() == Map::<FileKeyView, SlotView>::empty(),
            r.families() == Seq::<Seq<char>>::empty(),
            r.env_map() == Map::<Seq<char>, Seq<char>>::empty(),
            r.main_key() == (FileKeyView { namespace: None, path: main_path() }),
    {
        Registry {
            fonts: FontRegistry::new(),
            store: FileStore::new(),
            env: Environment::empty(),
            main: FileKey::new(None, "main.typ".to_owned()),
        }
    }

    /// Decode the faces of `data` and append each to the font list and
    /// the metadata index, in matching order.
    pub fn add_font(&mut self, data: Vec<u8>)
        requires
            old(self).wf(),
        ensures
            final(self).wf(),
            final(self).families() == old(self).families() + decoded_families(data@),
            final(self).faces().len() == old(self).faces().len() + decoded_families(data@).len(),
            final(self).faces().take(old(self).faces().len() as int) == old(self).faces(),
            final(self).files() == old(self).files(),
            final(self).env_map() == old(self).env_map(),
            final(self).main_key() == old(self).main_key(),
    {
        self.fonts.add_font_data(data);
    }

    /// Fetch-backed registration of a virtual file: insert-if-absent.
    pub fn register_fetched_file(&mut self, key: FileKey, data: Vec<u8>)
        requires
            old(self).wf(),
        ensures
            final(self).wf(),
            final(self).files() == register_fetched_spec(old(self).files(), key@, data@),
            final(self).families() == old(self).families(),
            final(self).faces() == old(self).faces(),
            final(self).env_map() == old(self).env_map(),
            final(self).main_key() == old(self).main_key(),
    {
        self.store.register_fetched(key, data);
    }

    /// Explicit source registration: create or overwrite the slot under
    /// `key` with `text` and its UTF-8 encoding.
    pub fn add_source(&mut self, text: String, key: FileKey)
        requires
            old(self).wf(),
        ensures
            final(self).wf(),
            final(self).files() == register_source_spec(old(self).files(), key@, text@),
            final(self).families() == old(self).families(),
            final(self).faces() == old(self).faces(),
            final(self).env_map() == old(self).env_map(),
            final(self).main_key() == old(self).main_key(),
    {
        self.store.register_source(key, text);
    }

    /// Register `text` as the designated main file.
    pub fn set_source(&mut self, text: String)
        requires
            old(self).wf(),
        ensures
            final(self).wf(),
            final(self).files() == register_source_spec(
                old(self).files(),
                old(self).main_key(),
                text@,
            ),
            final(self).families() == old(self).families(),
            final(self).faces() == old(self).faces(),
            final(self).env_map() == old(self).env_map(),
            final(self).main_key() == old(self).main_key(),
    {
        let key = self.main.dup();
        self.add_source(text, key);
    }

    /// Replace the environment wholesale with the mapping of `pairs`.
    pub fn set_inputs(&mut self, pairs: Vec<(String, String)>)
        requires
            old(self).wf(),
        ensures
            final(self).wf(),
            final(self).env_map() == inputs_map(pairs@),
            final(self).files() == old(self).files(),
            final(self).families() == old(self).families(),
            final(self).faces() == old(self).faces(),
            final(self).main_key() == old(self).main_key(),
    {
        self.env = Environment::from_inputs(pairs);
    }

    /// The memoized source under `key`: `NotFound` exactly when no slot
    /// was registered, `InvalidEncoding` exactly when the slot's bytes
    /// are not valid text.
    pub fn source_of(&self, key: &FileKey) -> (r: Result<&typst::syntax::Source, FileError>)
        requires
            self.wf(),
        ensures
            match r {
                Ok(s) => self.files().contains_key(key@) && self.files()[key@].text == Some(
                    source_text(*s),
                ),
                Err(e) => if e == FileError::NotFound {
                    !self.files().contains_key(key@)
                } else {
                    e == FileError::InvalidEncoding && self.files().contains_key(key@)
                        && self.files()[key@].text is None
                },
            },
    {
        self.store.lookup_source(key)
    }

    /// The memoized byte buffer under `key`: `NotFound` exactly when no
    /// slot was registered.
    pub fn bytes_of(&self, key: &FileKey) -> (r: Result<&typst::foundations::Bytes, FileError>)
        requires
            self.wf(),
        ensures
            match r {
                Ok(b) => self.files().contains_key(key@) && crate::store::buffer_data(*b)
                    == self.files()[key@].bytes,
                Err(e) => e == FileError::NotFound && !self.files().contains_key(key@),
            },
    {
        self.store.lookup_bytes(key)
    }

    /// The source of the designated main file; fails while no main
    /// source was ever registered.
    pub fn main_source(&self) -> (r: Result<&typst::syntax::Source, FileError>)
        requires
            self.wf(),
        ensures
            match r {
                Ok(s) => self.files().contains_key(self.main_key()) && self.files()[
                    self.main_key()
                ].text == Some(source_text(*s)),
                Err(e) => if e == FileError::NotFound {
                    !self.files().contains_key(self.main_key())
                } else {
                    e == FileError::InvalidEncoding && self.files().contains_key(self.main_key())
                        && self.files()[self.main_key()].text is None
                },
            },
    {
        self.store.lookup_source(&self.main)
    }

    /// The face at position `index`, if the registry has that many.
    pub fn font_at(&self, index: usize) -> (r: Option<&typst::text::Font>)
        requires
            self.wf(),
        ensures
            match r {
                Some(f) => index < self.faces().len() && *f == self.faces()[index as int]
                    && family_of(*f) == self.families()[index as int],
                None => index >= self.faces().len(),
            },
    {
        self.fonts.font_at(index)
    }

    /// How many faces the registry holds.
    pub fn font_count(&self) -> (n: usize)
        requires
            self.wf(),
        ensures
            n == self.faces().len(),
    {
        self.fonts.font_count()
    }

    /// The font metadata index, for handing to the compiler.
    pub fn font_book(&self) -> (r: &typst::text::FontBook)
        requires
            self.wf(),
        ensures
            crate::fonts::book_families(*r) == self.families(),
    {
        self.fonts.book()
    }

    /// The named-input entries, for handing to the compiler's library
    /// builder.
    pub fn env_inputs(&self) -> (r: &Vec<(String, String)>)
        ensures
            inputs_map(r@) == self.env_map(),
    {
        self.env.input_pairs()
    }

    /// The deterministic placeholder date the provider reports: the
    /// sandbox grants no wall-clock access, so every compile sees the
    /// same day, year 1970, month 1, day 1.
    pub fn today_ymd(&self) -> (r: (i32, u8, u8))
        ensures
            r == (1970i32, 1u8, 1u8),
    {
        (1970i32, 1u8, 1u8)
    }
}

} // verus!
