//! The registry's governing laws, stated over the same spec-level
//! transitions that the registration operations' contracts use.

use vstd::prelude::*;
use crate::ids::FileKeyView;
use crate::store::{
    authored_slot, fetched_slot, register_fetched_spec, register_source_spec, SlotView,
};
use vstd::utf8::encode_utf8;

verus! {

/// Fetch-backed registration is insert-if-absent: once a key has been
/// registered, a second registration under it changes nothing, and a
/// key that was free keeps the first bytes it was given.
pub proof fn lemma_fetched_registration_is_first(
    m: Map<FileKeyView, SlotView>,
    k: FileKeyView,
    b1: Seq<u8>,
    b2: Seq<u8>,
)
    ensures
        register_fetched_spec(register_fetched_spec(m, k, b1), k, b2) == register_fetched_spec(
            m,
            k,
            b1,
        ),
        !m.contains_key(k) ==> register_fetched_spec(register_fetched_spec(m, k, b1), k, b2)[k]
            == fetched_slot(b1),
        !m.contains_key(k) ==> register_fetched_spec(register_fetched_spec(m, k, b1), k, b2)[k].bytes
            == b1,
{
    if !m.contains_key(k) {
        assert(register_fetched_spec(m, k, b1).contains_key(k));
    }
}

/// Explicit source registration overwrites: after `t1` and then `t2`
/// are registered under one key, the slot holds `t2` as its source and
/// the UTF-8 encoding of `t2` as its bytes, exactly as if only `t2`
/// had been registered.
pub proof fn lemma_source_registration_overwrites(
    m: Map<FileKeyView, SlotView>,
    k: FileKeyView,
    t1: Seq<char>,
    t2: Seq<char>,
)
    ensures
        register_source_spec(register_source_spec(m, k, t1), k, t2) == register_source_spec(
            m,
            k,
            t2,
        ),
        register_source_spec(register_source_spec(m, k, t1), k, t2)[k].text == Some(t2),
        register_source_spec(register_source_spec(m, k, t1), k, t2)[k].bytes == encode_utf8(t2),
{
    assert(m.insert(k, authored_slot(t1)).insert(k, authored_slot(t2)) =~= m.insert(
        k,
        authored_slot(t2),
    ));
}

/// A slot never reverts to empty: registration never removes a key.
/// A populated slot is immutable under fetch-backed registration; only
/// an explicit source registration of the same key replaces it.
pub proof fn lemma_slots_never_revert(
    m: Map<FileKeyView, SlotView>,
    k: FileKeyView,
    bytes: Seq<u8>,
    text: Seq<char>,
)
    ensures
        forall|k2: FileKeyView| #[trigger]
            m.contains_key(k2) ==> register_fetched_spec(m, k, bytes).contains_key(k2),
        forall|k2: FileKeyView| #[trigger]
            m.contains_key(k2) ==> register_fetched_spec(m, k, bytes)[k2] == m[k2],
        forall|k2: FileKeyView| #[trigger]
            m.contains_key(k2) ==> register_source_spec(m, k, text).contains_key(k2),
        forall|k2: FileKeyView| #[trigger]
            m.contains_key(k2) && k2 != k ==> register_source_spec(m, k, text)[k2] == m[k2],
{
}

} // verus!
