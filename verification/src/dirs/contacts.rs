use crate::config::constants::MAX_CONTACT_NAME_LEN;
use crate::crypto::signing::{spec_ed25519_is_point, VerifyingKey};
use crate::utils::encoding::{hex_decode, spec_hex_decode, spec_hex_encode, to_array};
use crate::utils::error::{Error, ErrorKind, Result};
use vstd::prelude::*;
use vstd::string::StringExecFns;

verus! {

/// A trusted contact: a name bound to the fingerprint of an identity.
#[derive(Debug)]
pub struct Contact {
    pub name: String,
    pub public_key: String,
}

/// The trusted contacts of a party, in the order in which they were added.
#[derive(Debug)]
pub struct ContactList {
    pub contacts: Vec<Contact>,
}

impl Clone for Contact {
    fn clone(&self) -> (copy: Self)
        ensures
            copy == *self,
    {
        Contact { name: self.name.clone(), public_key: self.public_key.clone() }
    }
}

/// The index of the first contact called `name`, or the number of contacts
/// where none is.
pub open spec fn spec_index_of_contact(contacts: Seq<Contact>, name: Seq<char>) -> int
    decreases contacts.len(),
{
    if contacts.len() == 0 {
        0
    } else if contacts[0].name@ == name {
        0
    } else {
        1 + spec_index_of_contact(contacts.drop_first(), name)
    }
}

/// Whether no two contacts share a name.
pub open spec fn spec_unique_contacts(contacts: Seq<Contact>) -> bool {
    forall|i: int, j: int|
        0 <= i < j < contacts.len() ==> (#[trigger] contacts[i]).name@ != (
        #[trigger] contacts[j]).name@
}

/// The fingerprint that a key text stands for: the lower-case hexadecimal
/// text of the 32 bytes that it decodes to, where they are a public key; else
/// the text of the error.
pub open spec fn spec_normalised_key(key: Seq<char>) -> std::result::Result<
    Seq<char>,
    Seq<char>,
> {
    match spec_hex_decode(key) {
        None => Err("Invalid public key hex"@),
        Some(bytes) => if bytes.len() != 32 {
            Err("Invalid key length"@)
        } else if !spec_ed25519_is_point(bytes) {
            Err("Invalid public key"@)
        } else {
            Ok(spec_hex_encode(bytes))
        },
    }
}

/// Whether a name can be that of a contact: not empty and not longer than 50
/// characters.
pub open spec fn spec_is_contact_name(name: Seq<char>) -> bool {
    0 < name.len() <= MAX_CONTACT_NAME_LEN
}

/// The text of the error for a contact name that is taken.
pub open spec fn spec_contact_exists_message(name: Seq<char>) -> Seq<char> {
    "Contact '"@ + name + "' already exists"@
}

/// The text of the error for a contact name that is not known.
pub open spec fn spec_contact_missing_message(name: Seq<char>) -> Seq<char> {
    "Contact '"@ + name + "' not found"@
}

/// The first index at which a contact is called `name` is in range exactly
/// where some contact is called so, and no earlier contact is called so.
pub proof fn lemma_index_of_contact(contacts: Seq<Contact>, name: Seq<char>)
    ensures
        0 <= spec_index_of_contact(contacts, name) <= contacts.len(),
        spec_index_of_contact(contacts, name) < contacts.len() ==> contacts[spec_index_of_contact(
            contacts,
            name,
        )].name@ == name,
        forall|i: int|
            0 <= i < spec_index_of_contact(contacts, name) ==> (#[trigger] contacts[i]).name@
                != name,
    decreases contacts.len(),
{
    if contacts.len() > 0 && contacts[0].name@ != name {
        let rest = contacts.drop_first();
        lemma_index_of_contact(rest, name);
        let k = spec_index_of_contact(rest, name);
        assert forall|i: int| 0 <= i < 1 + k implies (#[trigger] contacts[i]).name@ != name by {
            if i > 0 {
                assert(contacts[i] == rest[i - 1]);
            }
        }
        if k < rest.len() {
            assert(contacts[1 + k] == rest[k]);
        }
    }
}

/// The fingerprint that a key text stands for.
pub fn normalise_key(key: &str) -> (result: Result<String>)
    ensures
        match result {
            Ok(fingerprint) => spec_normalised_key(key@) == Ok::<Seq<char>, Seq<char>>(
                fingerprint@,
            ),
            Err(e) => e.spec_kind() == ErrorKind::InvalidInput && spec_normalised_key(key@)
                == Err::<Seq<char>, Seq<char>>(e.spec_message()),
        },
{
    let bytes: Vec<u8> = match hex_decode(key) {
        Some(bytes) => bytes,
        None => {
            return Err(Error::InvalidInput(String::from_str("Invalid public key hex")));
        },
    };
    if bytes.len() != 32 {
        return Err(Error::InvalidInput(String::from_str("Invalid key length")));
    }
    match VerifyingKey::from_bytes(&to_array::<32>(bytes.as_slice())) {
        Ok(verifying_key) => Ok(verifying_key.fingerprint()),
        Err(e) => Err(e),
    }
}

impl ContactList {
    /// Whether the contacts can be told apart by their names.
    pub open spec fn wf(&self) -> bool {
        spec_unique_contacts(self.contacts@)
    }

    /// A list without contacts.
    pub fn new() -> (list: ContactList)
        ensures
            list.contacts@.len() == 0,
            list.wf(),
    {
        ContactList { contacts: Vec::new() }
    }

    /// The index of the first contact called `name`, or the number of
    /// contacts.
    fn index_of(&self, name: &str) -> (index: usize)
        ensures
            index == spec_index_of_contact(self.contacts@, name@),
            index <= self.contacts@.len(),
    {
        let wanted: String = String::from_str(name);
        let mut i: usize = 0;
        assert(self.contacts@.skip(0) =~= self.contacts@);
        while i < self.contacts.len()
            invariant
                i <= self.contacts@.len(),
                wanted@ == name@,
                spec_index_of_contact(self.contacts@, name@) == i + spec_index_of_contact(
                    self.contacts@.skip(i as int),
                    name@,
                ),
            decreases self.contacts@.len() - i,
        {
            let ghost rest = self.contacts@.skip(i as int);
            assert(rest[0] == self.contacts@[i as int]);
            assert(rest.drop_first() =~= self.contacts@.skip(i + 1));
            if self.contacts[i].name == wanted {
                return i;
            }
            i = i + 1;
        }
        assert(self.contacts@.skip(i as int).len() == 0);
        i
    }

    /// The fingerprint of the first contact called `name`.
    pub fn fingerprint(&self, name: &str) -> (fingerprint: Option<String>)
        ensures
            ({
                let i = spec_index_of_contact(self.contacts@, name@);
                match fingerprint {
                    Some(found) => i < self.contacts@.len() && found@
                        == self.contacts@[i].public_key@,
                    None => i == self.contacts@.len(),
                }
            }),
    {
        let i: usize = self.index_of(name);
        if i < self.contacts.len() {
            Some(self.contacts[i].public_key.clone())
        } else {
            None
        }
    }

    /// Adds a contact. The name must be new, not empty and not longer than
    /// 50 characters; the key must be the hexadecimal text of a public key,
    /// and is kept in lower case. A contact that is refused leaves the list
    /// as it was.
    pub fn add(&mut self, name: String, key: &str) -> (result: Result<()>)
        ensures
            old(self).wf() ==> final(self).wf(),
            match result {
                Ok(()) => {
                    &&& spec_is_contact_name(name@)
                    &&& spec_index_of_contact(old(self).contacts@, name@) == old(
                        self,
                    ).contacts@.len()
                    &&& spec_normalised_key(key@) matches Ok(fingerprint)
                    &&& final(self).contacts@.len() == old(self).contacts@.len() + 1
                    &&& final(self).contacts@.drop_last() == old(self).contacts@
                    &&& final(self).contacts@.last().name@ == name@
                    &&& final(self).contacts@.last().public_key@ == fingerprint
                },
                Err(e) => {
                    &&& final(self).contacts@ == old(self).contacts@
                    &&& e.spec_kind() == ErrorKind::InvalidInput
                    &&& e.spec_message() == if !spec_is_contact_name(name@) {
                        "Invalid contact name"@
                    } else if spec_index_of_contact(old(self).contacts@, name@) < old(
                        self,
                    ).contacts@.len() {
                        spec_contact_exists_message(name@)
                    } else {
                        spec_normalised_key(key@)->Err_0
                    }
                    &&& spec_is_contact_name(name@) && spec_index_of_contact(
                        old(self).contacts@,
                        name@,
                    ) == old(self).contacts@.len() ==> spec_normalised_key(key@) is Err
                },
            },
    {
        let len: usize = name.as_str().unicode_len();
        if len == 0 || len > MAX_CONTACT_NAME_LEN {
            return Err(Error::InvalidInput(String::from_str("Invalid contact name")));
        }
        let found: usize = self.index_of(name.as_str());
        if found < self.contacts.len() {
            let message: String = String::from_str("Contact '").concat(name.as_str()).concat(
                "' already exists",
            );
            return Err(Error::InvalidInput(message));
        }
        let public_key: String = normalise_key(key)?;
        proof {
            lemma_index_of_contact(self.contacts@, name@);
        }
        self.contacts.push(Contact { name, public_key });
        proof {
            let before = old(self).contacts@;
            let after = self.contacts@;
            assert(after.drop_last() =~= before);
            if old(self).wf() {
                assert forall|i: int, j: int| 0 <= i < j < after.len() implies (
                #[trigger] after[i]).name@ != (#[trigger] after[j]).name@ by {
                    if j < before.len() {
                        assert(before[i].name@ != before[j].name@);
                    } else {
                        assert(before[i].name@ != name@);
                    }
                }
            }
        }
        Ok(())
    }

    /// Removes the first contact called `name` and returns it.
    pub fn remove(&mut self, name: &str) -> (result: Result<Contact>)
        ensures
            old(self).wf() ==> final(self).wf(),
            ({
                let contacts = old(self).contacts@;
                let i = spec_index_of_contact(contacts, name@);
                match result {
                    Ok(removed) => {
                        &&& i < contacts.len()
                        &&& removed == contacts[i]
                        &&& final(self).contacts@ == contacts.remove(i)
                    },
                    Err(e) => {
                        &&& i == contacts.len()
                        &&& final(self).contacts@ == contacts
                        &&& e.is(ErrorKind::InvalidInput, spec_contact_missing_message(name@))
                    },
                }
            }),
    {
        let found: usize = self.index_of(name);
        if found >= self.contacts.len() {
            let message: String = String::from_str("Contact '").concat(name).concat(
                "' not found",
            );
            return Err(Error::InvalidInput(message));
        }
        let removed: Contact = self.contacts.remove(found);
        proof {
            let before = old(self).contacts@;
            let after = self.contacts@;
            let index = found as int;
            assert(after =~= before.remove(index));
            if old(self).wf() {
                assert forall|a: int, b: int| 0 <= a < b < after.len() implies (
                #[trigger] after[a]).name@ != (#[trigger] after[b]).name@ by {
                    let a0 = if a < index {
                        a
                    } else {
                        a + 1
                    };
                    let b0 = if b < index {
                        b
                    } else {
                        b + 1
                    };
                    assert(before[a0].name@ != before[b0].name@);
                }
            }
        }
        Ok(removed)
    }
}

} // verus!
