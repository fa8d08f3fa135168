//! The three state transitions and the authorization guard.
//!
//! The host runtime resolves the slot for the derived address, asserts the
//! caller's identity through its credential check, and hands a handler the
//! slot's current contents together with the operation's arguments. Each
//! handler is a pure function from those inputs to the slot's next contents
//! (or a removal signal) or an error; the host commits the result. A handler
//! that returns an error has computed nothing else: the slot's persisted
//! state is untouched, all-or-nothing.

use crate::address::{check_title_fits, title_fits};
use crate::entry::{entry_result_view, slot_view, BlogEntryState, CustomError, EntryView};
use crate::identity::{pubkey_eq, Pubkey};
use vstd::prelude::*;

verus! {

/// What the authorization guard decides for a caller against a stored owner.
pub open spec fn authorize_spec(caller: Seq<u8>, owner: Seq<u8>) -> Result<(), CustomError> {
    if caller == owner {
        Result::Ok(())
    } else {
        Result::Err(CustomError::Unauthorized)
    }
}

/// The authorization guard: succeeds exactly when the caller is the stored
/// owner. Update and delete call it before anything else; create does not,
/// since a creator always owns what it creates.
pub fn authorize(caller: &Pubkey, entry_owner: &Pubkey) -> (r: Result<(), CustomError>)
    ensures
        r == authorize_spec(caller@, entry_owner@),
{
    if pubkey_eq(caller, entry_owner) {
        Result::Ok(())
    } else {
        Result::Err(CustomError::Unauthorized)
    }
}

/// What create yields: a fresh entry owned by the caller, or a validation
/// error when the title cannot be encoded into the address seed.
pub open spec fn create_spec(caller: Seq<u8>, title: Seq<char>, message: Seq<char>) -> Result<
    EntryView,
    CustomError,
> {
    if title_fits(title) {
        Result::Ok(EntryView { owner: caller, title: title, message: message })
    } else {
        Result::Err(CustomError::InvalidBlogEntry)
    }
}

/// Creates a new entry owned by the caller.
///
/// The host guarantees that no live entry occupies the address derived from
/// `(title, caller)` before it invokes this; the handler performs no
/// existence check of its own and never silently overwrites. The only
/// failure is validation: a title too large for the address seed.
pub fn create_entry(caller: &Pubkey, title: String, message: String) -> (r: Result<
    BlogEntryState,
    CustomError,
>)
    ensures
        entry_result_view(r) == create_spec(caller@, title@, message@),
{
    if !check_title_fits(&title) {
        return Result::Err(CustomError::InvalidBlogEntry);
    }
    Result::Ok(BlogEntryState { owner: *caller, title, message })
}

/// What update yields for a slot's current contents: not-found on an empty
/// slot, unauthorized when the caller is not the owner, a validation error
/// when the new title cannot be encoded, and otherwise the entry with its
/// title and message replaced and its owner carried over unchanged.
pub open spec fn update_spec(
    caller: Seq<u8>,
    slot: Option<EntryView>,
    title: Seq<char>,
    message: Seq<char>,
) -> Result<EntryView, CustomError> {
    match slot {
        Option::None => Result::Err(CustomError::BlogEntryNotFound),
        Option::Some(cur) => {
            if cur.owner != caller {
                Result::Err(CustomError::Unauthorized)
            } else if !title_fits(title) {
                Result::Err(CustomError::InvalidBlogEntry)
            } else {
                Result::Ok(EntryView { owner: cur.owner, title: title, message: message })
            }
        },
    }
}

/// Replaces the title and message of the entry living in the resolved slot.
///
/// The host resolves the slot from the address derived from `(title,
/// caller)`, so a successful update keeps the entry at its original address.
/// The guard runs before any replacement: a caller other than the owner gets
/// `Unauthorized` and the entry is left untouched.
pub fn update_entry(
    caller: &Pubkey,
    current: &Option<BlogEntryState>,
    title: String,
    message: String,
) -> (r: Result<BlogEntryState, CustomError>)
    ensures
        entry_result_view(r) == update_spec(caller@, slot_view(*current), title@, message@),
{
    match current {
        Option::None => Result::Err(CustomError::BlogEntryNotFound),
        Option::Some(cur) => {
            if let Result::Err(e) = authorize(caller, &cur.owner) {
                return Result::Err(e);
            }
            if !check_title_fits(&title) {
                return Result::Err(CustomError::InvalidBlogEntry);
            }
            Result::Ok(BlogEntryState { owner: cur.owner, title, message })
        },
    }
}

/// What delete yields for a slot's current contents: not-found on an empty
/// slot, unauthorized when the caller is not the owner, and otherwise the
/// removal directive.
pub open spec fn delete_spec(caller: Seq<u8>, slot: Option<EntryView>) -> Result<
    (),
    CustomError,
> {
    match slot {
        Option::None => Result::Err(CustomError::BlogEntryNotFound),
        Option::Some(cur) => {
            if cur.owner != caller {
                Result::Err(CustomError::Unauthorized)
            } else {
                Result::Ok(())
            }
        },
    }
}

/// Removes the entry living in the resolved slot.
///
/// `title` is the title the slot's address was derived from; the host has
/// already resolved the slot with it, and the handler does not re-derive.
/// `Ok` is the removal directive: the host reclaims the slot and the entry
/// ceases to exist at that address. A caller other than the owner gets
/// `Unauthorized` and the entry stays live.
#[allow(unused_variables)]
pub fn delete_entry(caller: &Pubkey, current: &Option<BlogEntryState>, title: &String) -> (r:
    Result<(), CustomError>)
    ensures
        r == delete_spec(caller@, slot_view(*current)),
{
    match current {
        Option::None => Result::Err(CustomError::BlogEntryNotFound),
        Option::Some(cur) => {
            if let Result::Err(e) = authorize(caller, &cur.owner) {
                return Result::Err(e);
            }
            Result::Ok(())
        },
    }
}

/// Ownership binding: an entry created by a caller is owned by that caller,
/// whatever the other arguments were.
pub proof fn ownership_binding(caller: Seq<u8>, title: Seq<char>, message: Seq<char>)
    requires
        title_fits(title),
    ensures
        create_spec(caller, title, message) is Ok,
        create_spec(caller, title, message)->Ok_0.owner == caller,
{
}

/// Authorization enforcement: against an entry owned by someone else, both
/// update and delete fail with `Unauthorized` — never a silent no-op — and,
/// the handlers being pure, the entry's persisted content is unchanged.
pub proof fn authorization_enforcement(
    caller: Seq<u8>,
    cur: EntryView,
    title: Seq<char>,
    message: Seq<char>,
)
    requires
        caller != cur.owner,
    ensures
        update_spec(caller, Option::Some(cur), title, message) == Result::<
            EntryView,
            CustomError,
        >::Err(CustomError::Unauthorized),
        delete_spec(caller, Option::Some(cur)) == Result::<(), CustomError>::Err(
            CustomError::Unauthorized,
        ),
{
}

/// Content replacement: an update by the owner yields exactly the entry with
/// the supplied title and message and the owner unchanged from before the
/// call — so the address derived from the same title and that owner is the
/// address the entry already lives at.
pub proof fn update_replaces_content(
    caller: Seq<u8>,
    cur: EntryView,
    title: Seq<char>,
    message: Seq<char>,
)
    requires
        caller == cur.owner,
        title_fits(title),
    ensures
        update_spec(caller, Option::Some(cur), title, message) == Result::<
            EntryView,
            CustomError,
        >::Ok(EntryView { owner: cur.owner, title: title, message: message }),
        crate::address::derive_spec(
            crate::address::domain_tag_spec(),
            title,
            update_spec(caller, Option::Some(cur), title, message)->Ok_0.owner,
        ) == crate::address::derive_spec(crate::address::domain_tag_spec(), title, caller),
{
}

} // verus!
