//! The font registry: an append-only list of decoded font faces paired
//! position-by-position with the metadata index the compiler searches.
//!
//! The registry's invariant is that the metadata entry at position `i`
//! always describes the face at position `i`; the two are only ever
//! extended together.

use vstd::prelude::*;

verus! {

#[verifier::external_type_specification]
#[verifier::external_body]
pub struct ExFont(typst::text::Font);

#[verifier::external_type_specification]
#[verifier::external_body]
pub struct ExFontBook(typst::text::FontBook);

/// The family name recorded in a decoded face's metadata.
pub uninterp spec fn family_of(f: typst::text::Font) -> Seq<char>;

/// The family names of the metadata entries a font book holds, in
/// insertion order.
pub uninterp spec fn book_families(b: typst::text::FontBook) -> Seq<Seq<char>>;

/// The family names of the faces that decode from a byte buffer, in
/// decoding order; the result depends on the bytes alone.
pub uninterp spec fn decoded_families(data: Seq<u8>) -> Seq<Seq<char>>;

/// Relies on `typst::text::Font::iter`, which decodes the usable faces
/// of a font file or collection in order, skipping faces that fail to
/// decode; what it yields depends on the bytes alone.
#[verifier::external_body]
fn ex_decode_faces(data: &Vec<u8>) -> (r: Vec<typst::text::Font>)
    ensures
        r@.len() == decoded_families(data@).len(),
        forall|i: int| 0 <= i < r@.len() ==> family_of(r@[i]) == decoded_families(data@)[i],
{
    typst::text::Font::iter(typst::foundations::Bytes::from(data.clone())).collect()
}

/// Relies on `typst::text::FontBook::new`, which makes an empty book.
#[verifier::external_body]
fn ex_book_new() -> (r: typst::text::FontBook)
    ensures
        book_families(r) == Seq::<Seq<char>>::empty(),
{
    typst::text::FontBook::new()
}

/// Relies on `typst::text::FontBook::push`, which appends the face's
/// metadata entry, family name included, to the book's entry list.
#[verifier::external_body]
fn ex_book_push(book: &mut typst::text::FontBook, f: &typst::text::Font)
    ensures
        book_families(*final(book)) == book_families(*old(book)).push(family_of(*f)),
{
    book.push(f.info().clone());
}

/// The append-only collection of decoded faces and their metadata index.
pub struct FontRegistry {
    book: typst::text::FontBook,
    faces: Vec<typst::text::Font>,
}

impl FontRegistry {
    /// The family names of the book's metadata entries, in order.
    pub closed spec fn families(self) -> Seq<Seq<char>> {
        book_families(self.book)
    }

    /// The decoded faces, in order.
    pub closed spec fn face_seq(self) -> Seq<typst::text::Font> {
        self.faces@
    }

    /// The metadata entry at each position describes the face at that
    /// position.
    pub closed spec fn wf(self) -> bool {
        self.faces@.len() == book_families(self.book).len() && (forall|i: int|
            0 <= i < self.faces@.len() ==> family_of(self.faces@[i]) == book_families(
                self.book,
            )[i])
    }

    pub fn new() -> (r: FontRegistry)
        ensures
            r.wf(),
            r.families() == Seq::<Seq<char>>::empty(),
            r.face_seq() == Seq::<typst::text::Font>::empty(),
    {
        let r = FontRegistry { book: ex_book_new(), faces: Vec::new() };
        proof {
            assert(r.face_seq() =~= Seq::<typst::text::Font>::empty());
        }
        r
    }

    /// Decode the faces of `data` and append each, metadata and handle
    /// in matching order.  A buffer with no usable faces is a no-op.
    pub fn add_font_data(&mut self, data: Vec<u8>)
        requires
            old(self).wf(),
        ensures
            final(self).wf(),
            final(self).families() == old(self).families() + decoded_families(data@),
            final(self).face_seq().len() == old(self).face_seq().len() + decoded_families(
                data@,
            ).len(),
            final(self).face_seq().take(old(self).face_seq().len() as int) == old(
                self,
            ).face_seq(),
    {
        let mut faces = ex_decode_faces(&data);
        let ghost fams = decoded_families(data@);
        let ghost pre = *self;
        let total = faces.len();
        let mut k: usize = 0;
        while k < total
            invariant
                pre.wf(),
                self.wf(),
                k <= total,
                total == fams.len(),
                faces@.len() == total - k,
                forall|j: int| 0 <= j < faces@.len() ==> family_of(faces@[j]) == fams[k + j],
                self.families() == pre.families() + fams.take(k as int),
                self.face_seq().len() == pre.face_seq().len() + k,
                self.face_seq().take(pre.face_seq().len() as int) == pre.face_seq(),
            decreases total - k,
        {
            let f = faces.remove(0);
            ex_book_push(&mut self.book, &f);
            self.faces.push(f);
            k = k + 1;
            proof {
                assert(self.families() =~= pre.families() + fams.take(k as int));
                assert(self.face_seq().take(pre.face_seq().len() as int) =~= pre.face_seq());
            }
        }
        proof {
            assert(fams.take(total as int) =~= fams);
        }
    }

    /// The face at position `index`, if the registry has that many.
    pub fn font_at(&self, index: usize) -> (r: Option<&typst::text::Font>)
        requires
            self.wf(),
        ensures
            match r {
                Some(f) => index < self.face_seq().len() && *f == self.face_seq()[index as int]
                    && family_of(*f) == self.families()[index as int],
                None => index >= self.face_seq().len(),
            },
    {
        if index < self.faces.len() {
            Some(&self.faces[index])
        } else {
            None
        }
    }

    /// How many faces the registry holds.
    pub fn font_count(&self) -> (n: usize)
        ensures
            n == self.face_seq().len(),
    {
        self.faces.len()
    }

    /// The metadata index, for handing to the compiler.
    pub fn book(&self) -> (r: &typst::text::FontBook)
        ensures
            book_families(*r) == self.families(),
    {
        &self.book
    }
}

/// Adding a single-face buffer twice to an empty font registry yields
/// a font list of length two whose metadata entries both carry that
/// face's family, and the entry at each position describes the face at
/// that position.
pub proof fn lemma_add_font_twice(
    r0: FontRegistry,
    r1: FontRegistry,
    r2: FontRegistry,
    data: Seq<u8>,
)
    requires
        r0.wf(),
        r1.wf(),
        r2.wf(),
        r0.families().len() == 0,
        decoded_families(data).len() == 1,
        r1.families() == r0.families() + decoded_families(data),
        r2.families() == r1.families() + decoded_families(data),
    ensures
        r2.face_seq().len() == 2,
        r2.families().len() == 2,
        r2.families()[0] == decoded_families(data)[0],
        r2.families()[1] == decoded_families(data)[0],
        forall|i: int| 0 <= i < 2 ==> family_of(r2.face_seq()[i]) == r2.families()[i],
{
}

} // verus!
