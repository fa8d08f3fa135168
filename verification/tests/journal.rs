use myjournal::address::{check_title_fits, domain_tag, MAX_TITLE_SEED_BYTES};
use myjournal::entry::{BlogEntryState, CustomError};
use myjournal::handlers::{authorize, create_entry, delete_entry, update_entry};
use myjournal::identity::{pubkey_eq, Pubkey};

fn key(b: u8) -> Pubkey {
    Pubkey { bytes: [b; 32] }
}

fn created(owner: &Pubkey, title: &str, message: &str) -> BlogEntryState {
    create_entry(owner, title.to_string(), message.to_string()).unwrap()
}

#[test]
fn create_establishes_owner_and_content() {
    let a = key(1);
    let entry = created(&a, "Day1", "Hello");
    assert_eq!(entry.owner.bytes, a.bytes);
    assert_eq!(entry.title, "Day1");
    assert_eq!(entry.message, "Hello");
}

#[test]
fn create_binds_owner_regardless_of_content() {
    let a = key(9);
    let entry = created(&a, "", "");
    assert_eq!(entry.owner.bytes, a.bytes);
    let entry2 = created(&a, "another title", "a much longer message body");
    assert_eq!(entry2.owner.bytes, a.bytes);
}

#[test]
fn update_by_owner_replaces_message() {
    let a = key(1);
    let entry = created(&a, "Day1", "Hello");
    let updated = update_entry(&a, &Some(entry), "Day1".to_string(), "Edited".to_string())
        .unwrap();
    assert_eq!(updated.owner.bytes, a.bytes);
    assert_eq!(updated.title, "Day1");
    assert_eq!(updated.message, "Edited");
}

#[test]
fn update_by_other_is_unauthorized_and_leaves_entry_unchanged() {
    let a = key(1);
    let b = key(2);
    let entry = created(&a, "Day1", "Hello");
    let slot = Some(entry);
    let r = update_entry(&b, &slot, "Day1".to_string(), "Hack".to_string());
    assert_eq!(r.unwrap_err(), CustomError::Unauthorized);
    let entry = slot.unwrap();
    assert_eq!(entry.owner.bytes, a.bytes);
    assert_eq!(entry.title, "Day1");
    assert_eq!(entry.message, "Hello");
}

#[test]
fn delete_by_owner_then_delete_again_not_found() {
    let a = key(1);
    let entry = created(&a, "Day1", "Hello");
    let title = "Day1".to_string();
    assert!(delete_entry(&a, &Some(entry), &title).is_ok());
    // The host reclaimed the slot: a second delete finds nothing there.
    let r = delete_entry(&a, &None, &title);
    assert_eq!(r.unwrap_err(), CustomError::BlogEntryNotFound);
}

#[test]
fn delete_by_other_is_unauthorized() {
    let a = key(1);
    let b = key(2);
    let entry = created(&a, "Day1", "Hello");
    let r = delete_entry(&b, &Some(entry), &"Day1".to_string());
    assert_eq!(r.unwrap_err(), CustomError::Unauthorized);
}

#[test]
fn recreate_after_delete_is_fresh() {
    let a = key(1);
    let entry = created(&a, "Day1", "Hello");
    assert!(delete_entry(&a, &Some(entry), &"Day1".to_string()).is_ok());
    let fresh = created(&a, "Day1", "Second life");
    assert_eq!(fresh.owner.bytes, a.bytes);
    assert_eq!(fresh.title, "Day1");
    assert_eq!(fresh.message, "Second life");
}

#[test]
fn update_empty_slot_not_found() {
    let a = key(1);
    let r = update_entry(&a, &None, "Day1".to_string(), "Edited".to_string());
    assert_eq!(r.unwrap_err(), CustomError::BlogEntryNotFound);
}

#[test]
fn derive_is_deterministic() {
    let tag = domain_tag();
    let a = key(7);
    let title = "Day1".to_string();
    let addr1 = myjournal::address::derive(&tag, &title, &a);
    let addr2 = myjournal::address::derive(&tag, &title, &a);
    assert_eq!(addr1, addr2);
}

#[test]
fn derive_exact_encoding() {
    let tag = domain_tag();
    let a = key(7);
    let addr = myjournal::address::derive(&tag, &"Day1".to_string(), &a);
    let mut expected: Vec<u8> = Vec::new();
    expected.extend_from_slice(b"BLOG");
    expected.extend_from_slice(b"Day1");
    expected.extend_from_slice(&[7u8; 32]);
    assert_eq!(addr, expected);
}

#[test]
fn derive_distinguishes_titles_and_owners() {
    let tag = domain_tag();
    let a = key(1);
    let b = key(2);
    let addr_a = myjournal::address::derive(&tag, &"Day1".to_string(), &a);
    let addr_b = myjournal::address::derive(&tag, &"Day1".to_string(), &b);
    assert_ne!(addr_a, addr_b);
    let addr_a2 = myjournal::address::derive(&tag, &"Day2".to_string(), &a);
    assert_ne!(addr_a, addr_a2);
}

#[test]
fn domain_tag_is_blog() {
    assert_eq!(domain_tag(), b"BLOG".to_vec());
}

#[test]
fn oversized_title_is_invalid_on_create() {
    let a = key(1);
    let long_title = "a".repeat(MAX_TITLE_SEED_BYTES + 1);
    let r = create_entry(&a, long_title, "Hello".to_string());
    assert_eq!(r.unwrap_err(), CustomError::InvalidBlogEntry);
}

#[test]
fn oversized_title_is_invalid_on_update() {
    let a = key(1);
    let entry = created(&a, "Day1", "Hello");
    let long_title = "a".repeat(MAX_TITLE_SEED_BYTES + 1);
    let r = update_entry(&a, &Some(entry), long_title, "Edited".to_string());
    assert_eq!(r.unwrap_err(), CustomError::InvalidBlogEntry);
}

#[test]
fn title_fits_boundary() {
    let at_cap = "a".repeat(MAX_TITLE_SEED_BYTES);
    assert!(check_title_fits(&at_cap));
    let over_cap = "a".repeat(MAX_TITLE_SEED_BYTES + 1);
    assert!(!check_title_fits(&over_cap));
    // Multibyte characters count in encoded bytes, not characters.
    let multibyte = "é".repeat(MAX_TITLE_SEED_BYTES / 2 + 1);
    assert!(!check_title_fits(&multibyte));
}

#[test]
fn authorize_succeeds_only_for_owner() {
    let a = key(1);
    let a_again = key(1);
    let b = key(2);
    assert!(authorize(&a, &a_again).is_ok());
    assert_eq!(authorize(&b, &a).unwrap_err(), CustomError::Unauthorized);
}

#[test]
fn pubkey_eq_compares_bytes() {
    let a = key(3);
    let a_again = key(3);
    let b = key(4);
    assert!(pubkey_eq(&a, &a_again));
    assert!(!pubkey_eq(&a, &b));
    let mut almost = key(3);
    almost.bytes[31] = 5;
    assert!(!pubkey_eq(&a, &almost));
}

#[test]
fn error_messages() {
    assert_eq!(
        CustomError::Unauthorized.message_text(),
        "No authority to perform this action"
    );
    assert_eq!(CustomError::InvalidBlogEntry.message_text(), "Invalid blog entry");
    assert_eq!(CustomError::BlogEntryNotFound.message_text(), "Blog entry not found");
}
