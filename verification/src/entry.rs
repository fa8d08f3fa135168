//! The journal entry record, its mathematical model, and the error catalog.

use crate::identity::Pubkey;
use vstd::prelude::*;

verus! {

/// The mathematical model of a journal entry: its owner's key bytes and the
/// character sequences of its title and message. All contracts speak of
/// entries through this model.
pub ghost struct EntryView {
    pub owner: Seq<u8>,
    pub title: Seq<char>,
    pub message: Seq<char>,
}

/// A live journal entry as the host stores it in an addressed slot.
///
/// `owner` is bound at creation and never changed afterwards; `title` takes
/// part in the address derivation, so replacing it under the same address
/// only makes sense with the title the address was derived from; `message`
/// is free-form and fully replaceable on update.
#[derive(Debug)]
pub struct BlogEntryState {
    pub owner: Pubkey,
    pub title: String,
    pub message: String,
}

impl View for BlogEntryState {
    type V = EntryView;

    open spec fn view(&self) -> EntryView {
        EntryView { owner: self.owner@, title: self.title@, message: self.message@ }
    }
}

/// The model of a slot's contents: `None` while no entry lives at the
/// address, `Some` while one does.
pub open spec fn slot_view(slot: Option<BlogEntryState>) -> Option<EntryView> {
    match slot {
        Option::Some(e) => Option::Some(e@),
        Option::None => Option::None,
    }
}

/// The model of a handler result that carries a new entry on success.
pub open spec fn entry_result_view(r: Result<BlogEntryState, CustomError>) -> Result<
    EntryView,
    CustomError,
> {
    match r {
        Result::Ok(e) => Result::Ok(e@),
        Result::Err(err) => Result::Err(err),
    }
}

/// The error catalog of the journal. Errors are returned, never thrown: a
/// handler that fails leaves the slot's persisted state untouched, and the
/// host reports the error to the caller as its own transaction failure.
#[derive(Clone, Copy, Debug, PartialEq, Eq, Structural)]
pub enum CustomError {
    /// The caller's identity does not match the entry's stored owner.
    Unauthorized,
    /// The entry's content fails validation: the title is too large to be
    /// encoded into the address seed.
    InvalidBlogEntry,
    /// No live entry occupies the slot that update or delete was invoked on.
    BlogEntryNotFound,
}

impl CustomError {
    /// The spec-level text reported for this error.
    pub open spec fn message_spec(&self) -> Seq<char> {
        match *self {
            CustomError::Unauthorized => "No authority to perform this action"@,
            CustomError::InvalidBlogEntry => "Invalid blog entry"@,
            CustomError::BlogEntryNotFound => "Blog entry not found"@,
        }
    }

    /// The human-readable text the host attaches when it reports this error.
    pub fn message_text(&self) -> (r: String)
        ensures
            r@ == self.message_spec(),
    {
        match *self {
            CustomError::Unauthorized => "No authority to perform this action".to_owned(),
            CustomError::InvalidBlogEntry => "Invalid blog entry".to_owned(),
            CustomError::BlogEntryNotFound => "Blog entry not found".to_owned(),
        }
    }
}

} // verus!
