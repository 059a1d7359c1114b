//! The registry engine: a single owner, set at construction and immutable
//! thereafter, gates every append; reads are unrestricted and an account that
//! was never written reads as the empty sequence.

use vstd::prelude::*;

use crate::model::{list_fits_codec, passwords_for, str_fits_codec, with_appended};
use crate::storage::{store_get, store_insert, store_new, stored_map};
use near_sdk::collections::UnorderedMap;

verus! {

/// The one error the engine raises: the caller of a mutating operation is not
/// the stored owner. The call then aborts with no state change.
#[derive(Clone, Copy, Debug, PartialEq, Eq, Structural)]
pub enum RegistryError {
    Unauthorized,
}

/// The persistent registry: the owner and a durable map from account
/// identifier to the ordered sequence of values recorded for it.
pub struct Contract {
    owner_id: String,
    passwords_by_account: UnorderedMap<String, Vec<String>>,
}

impl Contract {
    /// The stored owner identifier.
    pub closed spec fn owner(&self) -> Seq<char> {
        self.owner_id@
    }

    /// The stored entries: each account identifier with a recorded sequence,
    /// in the order the values were appended.
    pub closed spec fn entries(&self) -> Map<Seq<char>, Seq<Seq<char>>> {
        stored_map(self.passwords_by_account)
    }

    /// Every recorded value fits the durable store's codec, so that writing
    /// an account's sequence back always succeeds.
    pub closed spec fn wf(&self) -> bool {
        forall|account: Seq<char>|
            self.entries().contains_key(account) ==> list_fits_codec(
                #[trigger] self.entries()[account],
            )
    }

    /// Creates the registry with the given owner and no entries: every
    /// account, whatever its identifier, reads as the empty sequence.
    ///
    /// The entries live in the durable store under a fixed prefix reserved
    /// for them, so a deployment holds exactly one registry: a second one in
    /// the same store would share that prefix.
    pub fn new(owner_id: String) -> (c: Contract)
        ensures
            c.wf(),
            c.owner() == owner_id@,
            c.entries() == Map::<Seq<char>, Seq<Seq<char>>>::empty(),
            forall|account: Seq<char>|
                #[trigger] passwords_for(c.entries(), account) == Seq::<Seq<char>>::empty(),
    {
        let prefix: Vec<u8> = vec!['m' as u8];
        Contract { owner_id, passwords_by_account: store_new(prefix) }
    }

    /// The stored owner identifier.
    pub fn owner_id(&self) -> (r: &String)
        ensures
            r@ == self.owner(),
    {
        &self.owner_id
    }

    /// Appends one value to the given account's sequence. Succeeds exactly
    /// when the caller is the stored owner: the account's sequence then grows
    /// by the value at its end, every prior element and every other account
    /// kept as they were. Any other caller gets `Unauthorized` and the
    /// registry is left untouched. The codec bounds keep the written record
    /// inside the durable store's 32-bit length prefixes.
    pub fn add_password(
        &mut self,
        caller: String,
        account_id: String,
        password_hash: String,
    ) -> (r: Result<(), RegistryError>)
        requires
            old(self).wf(),
            str_fits_codec(account_id@),
            str_fits_codec(password_hash@),
            passwords_for(old(self).entries(), account_id@).len() < 0xFFFF_FFFF,
        ensures
            final(self).wf(),
            final(self).owner() == old(self).owner(),
            r is Ok <==> caller@ == old(self).owner(),
            r is Ok ==> final(self).entries() == with_appended(
                old(self).entries(),
                account_id@,
                password_hash@,
            ),
            r is Err ==> r == Err::<(), RegistryError>(RegistryError::Unauthorized) && *final(self)
                == *old(self),
    {
        if caller != self.owner_id {
            return Err(RegistryError::Unauthorized);
        }
        let mut passwords = match store_get(&self.passwords_by_account, &account_id) {
            Some(v) => v,
            None => Vec::new(),
        };
        let ghost prior = passwords_for(self.entries(), account_id@);
        assert(passwords.deep_view() =~= prior);
        passwords.push(password_hash);
        assert(passwords.deep_view() =~= prior.push(password_hash@));
        store_insert(&mut self.passwords_by_account, &account_id, &passwords);
        Ok(())
    }

    /// Reads the full ordered sequence recorded for the given account, or the
    /// empty sequence when the account was never written. No authorization is
    /// required and nothing changes.
    pub fn get_passwords(&self, account_id: String) -> (r: Vec<String>)
        requires
            str_fits_codec(account_id@),
        ensures
            r.deep_view() == passwords_for(self.entries(), account_id@),
    {
        match store_get(&self.passwords_by_account, &account_id) {
            Some(v) => v,
            None => Vec::new(),
        }
    }
}

} // verus!
