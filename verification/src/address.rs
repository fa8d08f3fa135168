//! Address derivation: from a domain tag, a title and an owner identity to
//! the canonical seed encoding that the host's commitment scheme hashes into
//! a slot address.
//!
//! The host stores every entry under an address obtained by hashing this
//! encoding. The encoding binds the record's naming and ownership into the
//! address itself: it is injective in `(title, owner)` under the fixed tag,
//! so no two distinct `(title, owner)` pairs can alias a slot before the
//! host's hash is even applied. The host imposes a size cap on each seed, so
//! a title whose byte encoding exceeds [`MAX_TITLE_SEED_BYTES`] cannot be
//! encoded; handlers surface that as a validation error before any state
//! transition.

use crate::identity::{Pubkey, KEY_BYTES};
use vstd::prelude::*;
use vstd::string::StrSliceExecFns;
use vstd::utf8::encode_utf8;

verus! {

/// The largest title, in encoded bytes, that fits in an address seed.
pub const MAX_TITLE_SEED_BYTES: usize = 32;

/// The fixed domain tag that namespaces journal entries from every other
/// record type sharing the host's address space: the bytes of `"BLOG"`.
pub open spec fn domain_tag_spec() -> Seq<u8> {
    seq![66u8, 76u8, 79u8, 71u8]
}

/// The domain tag as a byte vector, for handing to [`derive`].
pub fn domain_tag() -> (r: Vec<u8>)
    ensures
        r@ == domain_tag_spec(),
{
    let mut r: Vec<u8> = Vec::new();
    r.push(66);
    r.push(76);
    r.push(79);
    r.push(71);
    assert(r@ =~= domain_tag_spec());
    r
}

/// Whether a title's byte encoding fits in an address seed.
pub open spec fn title_fits(title: Seq<char>) -> bool {
    encode_utf8(title).len() <= MAX_TITLE_SEED_BYTES
}

/// Decides [`title_fits`] for a concrete title.
pub fn check_title_fits(title: &String) -> (r: bool)
    ensures
        r == title_fits(title@),
{
    let bytes = title.as_str().as_bytes_vec();
    bytes.len() <= MAX_TITLE_SEED_BYTES
}

/// The canonical seed encoding: the tag, then the title's bytes, then the
/// owner's key bytes.
pub open spec fn derive_spec(tag: Seq<u8>, title: Seq<char>, owner: Seq<u8>) -> Seq<u8> {
    tag + encode_utf8(title) + owner
}

/// Derives the canonical seed encoding of `(tag, title, owner)`. Pure and
/// deterministic; the host hashes the result into the slot address, and all
/// three transitions against the same logical record go through the same
/// derivation.
pub fn derive(tag: &Vec<u8>, title: &String, owner: &Pubkey) -> (r: Vec<u8>)
    ensures
        r@ == derive_spec(tag@, title@, owner@),
{
    let mut r: Vec<u8> = Vec::new();
    let mut i: usize = 0;
    while i < tag.len()
        invariant
            0 <= i <= tag@.len(),
            r@ =~= tag@.subrange(0, i as int),
        decreases tag@.len() - i,
    {
        r.push(tag[i]);
        i += 1;
    }
    assert(r@ =~= tag@);
    let title_bytes = title.as_str().as_bytes_vec();
    let mut j: usize = 0;
    while j < title_bytes.len()
        invariant
            0 <= j <= title_bytes@.len(),
            title_bytes@ == encode_utf8(title@),
            r@ =~= tag@ + title_bytes@.subrange(0, j as int),
        decreases title_bytes@.len() - j,
    {
        r.push(title_bytes[j]);
        j += 1;
    }
    assert(r@ =~= tag@ + encode_utf8(title@));
    let mut k: usize = 0;
    while k < KEY_BYTES
        invariant
            0 <= k <= KEY_BYTES,
            owner@.len() == KEY_BYTES,
            r@ =~= tag@ + encode_utf8(title@) + owner@.subrange(0, k as int),
        decreases KEY_BYTES - k,
    {
        r.push(owner.bytes[k]);
        k += 1;
    }
    assert(r@ =~= derive_spec(tag@, title@, owner@));
    r
}

/// Address determinism: derivation is a pure function of its inputs, so any
/// two derivations from the same `(tag, title, owner)` — across repeated
/// calls and across create, update and delete against the same logical
/// record — yield the same seed encoding.
pub proof fn derive_deterministic(
    tag: Seq<u8>,
    title: Seq<char>,
    owner: Seq<u8>,
    a1: Seq<u8>,
    a2: Seq<u8>,
)
    requires
        a1 == derive_spec(tag, title, owner),
        a2 == derive_spec(tag, title, owner),
    ensures
        a1 == a2,
{
}

/// Address binding: under a fixed tag, and with owner keys of the fixed key
/// width, the seed encoding is injective in `(title, owner)` — two distinct
/// `(title, owner)` pairs can never collide on one slot, and an entry cannot
/// be moved to another address without being recreated.
pub proof fn derive_injective(
    tag: Seq<u8>,
    title1: Seq<char>,
    owner1: Seq<u8>,
    title2: Seq<char>,
    owner2: Seq<u8>,
)
    requires
        owner1.len() == owner2.len(),
        derive_spec(tag, title1, owner1) == derive_spec(tag, title2, owner2),
    ensures
        title1 == title2,
        owner1 == owner2,
{
    let e1 = encode_utf8(title1);
    let e2 = encode_utf8(title2);
    let d1 = derive_spec(tag, title1, owner1);
    let d2 = derive_spec(tag, title2, owner2);
    assert(d1.len() == tag.len() + e1.len() + owner1.len());
    assert(d2.len() == tag.len() + e2.len() + owner2.len());
    assert(e1.len() == e2.len());
    assert forall|i: int| 0 <= i < e1.len() implies e1[i] == e2[i] by {
        assert(d1[tag.len() + i] == e1[i]);
        assert(d2[tag.len() + i] == e2[i]);
    }
    assert(e1 =~= e2);
    vstd::utf8::encode_utf8_decode_utf8(title1);
    vstd::utf8::encode_utf8_decode_utf8(title2);
    assert(title1 == title2);
    assert forall|i: int| 0 <= i < owner1.len() implies owner1[i] == owner2[i] by {
        assert(d1[tag.len() + e1.len() + i] == owner1[i]);
        assert(d2[tag.len() + e2.len() + i] == owner2[i]);
    }
    assert(owner1 =~= owner2);
}

} // verus!
