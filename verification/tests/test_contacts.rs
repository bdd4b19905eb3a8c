use rshare::crypto::signing::SigningKey;
use rshare::dirs::contacts::{normalise_key, ContactList};
use rshare::utils::error::ErrorKind;

fn fingerprint(seed: u8) -> String {
    SigningKey::from_bytes(&[seed; 32]).verifying_key().fingerprint()
}

#[test]
fn test_add_and_find_contacts() {
    let mut list = ContactList::new();
    assert!(list.fingerprint("alice").is_none());
    list.add("alice".to_string(), &fingerprint(1)).unwrap();
    list.add("bob".to_string(), &fingerprint(2)).unwrap();
    assert_eq!(list.fingerprint("alice"), Some(fingerprint(1)));
    assert_eq!(list.fingerprint("bob"), Some(fingerprint(2)));
    assert!(list.fingerprint("carol").is_none());
    assert_eq!(list.contacts.len(), 2);
    assert_eq!(list.contacts[0].name, "alice");
    assert_eq!(list.contacts[1].name, "bob");
}

#[test]
fn test_contact_keys_are_kept_in_lower_case() {
    let mut list = ContactList::new();
    list.add("alice".to_string(), &fingerprint(1).to_uppercase()).unwrap();
    assert_eq!(list.fingerprint("alice"), Some(fingerprint(1)));
    assert_eq!(normalise_key(&fingerprint(3).to_uppercase()).unwrap(), fingerprint(3));
}

#[test]
fn test_contacts_that_are_refused() {
    let mut list = ContactList::new();
    list.add("alice".to_string(), &fingerprint(1)).unwrap();

    let error = list.add("alice".to_string(), &fingerprint(2)).unwrap_err();
    assert_eq!(error.kind(), ErrorKind::InvalidInput);
    assert_eq!(error.message(), "Contact 'alice' already exists");
    assert_eq!(list.fingerprint("alice"), Some(fingerprint(1)));

    let error = list.add(String::new(), &fingerprint(2)).unwrap_err();
    assert_eq!(error.message(), "Invalid contact name");
    let error = list.add("x".repeat(51), &fingerprint(2)).unwrap_err();
    assert_eq!(error.message(), "Invalid contact name");
    assert!(list.add("x".repeat(50), &fingerprint(2)).is_ok());

    let error = list.add("bob".to_string(), "not hex").unwrap_err();
    assert_eq!(error.kind(), ErrorKind::InvalidInput);
    assert_eq!(error.message(), "Invalid public key hex");
    let error = list.add("bob".to_string(), "abcd").unwrap_err();
    assert_eq!(error.message(), "Invalid key length");

    let mut no_point = None;
    for first in 0..=255u8 {
        let mut bytes = [0x5Au8; 32];
        bytes[0] = first;
        if ed25519_dalek::VerifyingKey::from_bytes(&bytes).is_err() {
            no_point = Some(hex::encode(bytes));
            break;
        }
    }
    let error = list.add("bob".to_string(), &no_point.unwrap()).unwrap_err();
    assert_eq!(error.kind(), ErrorKind::InvalidInput);
    assert_eq!(error.message(), "Invalid public key");
    assert_eq!(list.contacts.len(), 2);
}

#[test]
fn test_remove_contacts() {
    let mut list = ContactList::new();
    list.add("alice".to_string(), &fingerprint(1)).unwrap();
    list.add("bob".to_string(), &fingerprint(2)).unwrap();
    list.add("carol".to_string(), &fingerprint(3)).unwrap();

    let removed = list.remove("bob").unwrap();
    assert_eq!(removed.name, "bob");
    assert_eq!(removed.public_key, fingerprint(2));
    assert_eq!(list.contacts.len(), 2);
    assert_eq!(list.contacts[0].name, "alice");
    assert_eq!(list.contacts[1].name, "carol");
    assert!(list.fingerprint("bob").is_none());

    let error = list.remove("bob").unwrap_err();
    assert_eq!(error.kind(), ErrorKind::InvalidInput);
    assert_eq!(error.message(), "Contact 'bob' not found");
    assert_eq!(list.contacts.len(), 2);
}
