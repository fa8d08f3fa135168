//! The commit contract the handlers assume of the host.
//!
//! The host maintains the addressable set of live entries — here modelled as
//! a map from seed encodings to entry models — and durably commits what a
//! handler returns: a new or updated entry is written into the slot at the
//! derived address, and a removal directive erases that slot. This module
//! states that contract and proves what the transitions guarantee across it.

use crate::address::{derive_spec, domain_tag_spec, title_fits};
use crate::entry::EntryView;
use crate::handlers::create_spec;
use vstd::prelude::*;

verus! {

/// The address a journal entry with this title and owner lives at: the seed
/// encoding under the fixed domain tag.
pub open spec fn address_of(title: Seq<char>, owner: Seq<u8>) -> Seq<u8> {
    derive_spec(domain_tag_spec(), title, owner)
}

/// The host's commit of a created or updated entry: the slot at the derived
/// address now holds it.
pub open spec fn commit_entry(
    slots: Map<Seq<u8>, EntryView>,
    title: Seq<char>,
    owner: Seq<u8>,
    e: EntryView,
) -> Map<Seq<u8>, EntryView> {
    slots.insert(address_of(title, owner), e)
}

/// The host's commit of a removal directive: the slot at the derived address
/// is reclaimed.
pub open spec fn commit_removal(
    slots: Map<Seq<u8>, EntryView>,
    title: Seq<char>,
    owner: Seq<u8>,
) -> Map<Seq<u8>, EntryView> {
    slots.remove(address_of(title, owner))
}

/// Delete finality: once a removal is committed, no entry exists at the
/// derived address, and every other slot is as it was. A subsequent create
/// with the same `(title, owner)` is permitted and establishes a fresh entry
/// built from the create arguments alone — nothing of the deleted entry
/// leaks into it.
pub proof fn delete_finality(
    slots: Map<Seq<u8>, EntryView>,
    caller: Seq<u8>,
    title: Seq<char>,
    message: Seq<char>,
)
    requires
        title_fits(title),
    ensures
        !commit_removal(slots, title, caller).dom().contains(address_of(title, caller)),
        forall|a: Seq<u8>|
            a != address_of(title, caller) ==> commit_removal(slots, title, caller).contains_pair(
                a,
                #[trigger] slots[a],
            ) == slots.contains_pair(a, slots[a]),
        create_spec(caller, title, message) is Ok,
        commit_entry(
            commit_removal(slots, title, caller),
            title,
            caller,
            create_spec(caller, title, message)->Ok_0,
        )[address_of(title, caller)] == (EntryView {
            owner: caller,
            title: title,
            message: message,
        }),
{
}

} // verus!
