//! The account store: a capability interface over per-client accounts, with
//! an in-memory reference implementation.

use vstd::prelude::*;

use crate::account::{Account, AccountStatement, AccountV, statement_of};
use std::collections::HashMap;

verus! {

broadcast use vstd::std_specs::hash::group_hash_axioms;

/// Storage of accounts, keyed by client id.
///
/// An account comes into being on first reference: `take_account` hands out
/// a fresh zero-balance account for an unseen client. Mutation goes through
/// `take_account` / `put_account` pairs, which move the account out of and
/// back into the store.
pub trait AccountStore: Sized {
    /// The stored accounts, as a map from client id to account model.
    spec fn accounts(&self) -> Map<u16, AccountV>;

    /// Client ids in the order statements are emitted: every client ever
    /// stored, in order of first storage.
    spec fn order(&self) -> Seq<u16>;

    /// The store's internal invariant.
    spec fn inv(&self) -> bool;

    /// What the invariant guarantees about the stored accounts.
    proof fn inv_properties(&self)
        requires
            self.inv(),
        ensures
            self.order().no_duplicates(),
            forall|c: u16|
                #[trigger] self.accounts().contains_key(c) ==> self.order().contains(c)
                    && self.accounts()[c].wf() && self.accounts()[c].client == c,
    ;

    /// Read-only lookup; `None` means no activity yet for that client.
    fn get_account(&self, client_id: u16) -> (r: Option<&Account>)
        requires
            self.inv(),
        ensures
            match r {
                Some(a) => self.accounts().contains_key(client_id) && a@
                    == self.accounts()[client_id],
                None => !self.accounts().contains_key(client_id),
            },
    ;

    /// Moves the account for `client_id` out of the store, creating a
    /// zero-balance account if the client was never seen. This is the only
    /// creation path.
    fn take_account(&mut self, client_id: u16) -> (acc: Account)
        requires
            old(self).inv(),
        ensures
            final(self).inv(),
            acc@.wf(),
            acc@.client == client_id,
            acc@ == if old(self).accounts().contains_key(client_id) {
                old(self).accounts()[client_id]
            } else {
                AccountV::initial(client_id)
            },
            final(self).accounts() == old(self).accounts().remove(client_id),
            final(self).order() == old(self).order(),
    ;

    /// Moves an account back into the store, registering its client in the
    /// statement order on first storage.
    fn put_account(&mut self, acc: Account)
        requires
            old(self).inv(),
            acc@.wf(),
        ensures
            final(self).inv(),
            final(self).accounts() == old(self).accounts().insert(acc@.client, acc@),
            final(self).order() == if old(self).order().contains(acc@.client) {
                old(self).order()
            } else {
                old(self).order().push(acc@.client)
            },
    ;

    /// A statement for every stored account, in storage order.
    fn account_statements(&self) -> (v: Vec<AccountStatement>)
        requires
            self.inv(),
            forall|i: int|
                0 <= i < self.order().len() ==> self.accounts().contains_key(
                    #[trigger] self.order()[i],
                ),
        ensures
            v@.len() == self.order().len(),
            forall|i: int|
                0 <= i < v@.len() ==> v@[i] == statement_of(
                    self.accounts()[#[trigger] self.order()[i]],
                ),
    ;
}

/// In-memory implementation of [`AccountStore`].
pub struct InMemoryStore {
    data: HashMap<u16, Account>,
    clients: Vec<u16>,
}

impl InMemoryStore {
    /// An empty store.
    pub fn new() -> (r: Self)
        ensures
            r.inv(),
            r.accounts() == Map::<u16, AccountV>::empty(),
            r.order() == Seq::<u16>::empty(),
    {
        let r = InMemoryStore { data: HashMap::new(), clients: Vec::new() };
        proof {
            assert(r.accounts() =~= Map::<u16, AccountV>::empty());
        }
        r
    }

    /// A store holding the given accounts, in the given order.
    pub fn new_with_data(accounts: Vec<Account>) -> (r: Self)
        requires
            forall|i: int| 0 <= i < accounts@.len() ==> (#[trigger] accounts@[i])@.wf(),
            forall|i: int, j: int|
                0 <= i < j < accounts@.len() ==> accounts@[i].client != accounts@[j].client,
        ensures
            r.inv(),
            r.order() == accounts@.map_values(|a: Account| a.client),
            forall|i: int|
                0 <= i < accounts@.len() ==> r.accounts().contains_key(
                    #[trigger] accounts@[i].client,
                ) && r.accounts()[accounts@[i].client] == accounts@[i]@,
    {
        let ghost all = accounts@;
        let mut accounts = accounts;
        let mut r = InMemoryStore { data: HashMap::new(), clients: Vec::new() };
        proof {
            assert(all.take(0) =~= Seq::<Account>::empty());
            assert(all.take(0).map_values(|a: Account| a.client) =~= Seq::<u16>::empty());
        }
        while accounts.len() > 0
            invariant
                accounts@.len() <= all.len(),
                accounts@ == all.skip(all.len() - accounts@.len()),
                forall|i: int| 0 <= i < all.len() ==> (#[trigger] all[i])@.wf(),
                forall|i: int, j: int|
                    0 <= i < j < all.len() ==> all[i].client != all[j].client,
                r.clients@ == all.take(all.len() - accounts@.len()).map_values(
                    |a: Account| a.client,
                ),
                forall|c: u16|
                    #[trigger] r.data@.contains_key(c) ==> r.clients@.contains(c)
                        && r.data@[c]@.wf() && r.data@[c].client == c,
                forall|i: int|
                    0 <= i < all.len() - accounts@.len() ==> r.data@.contains_key(
                        #[trigger] all[i].client,
                    ) && r.data@[all[i].client] == all[i],
            decreases accounts@.len(),
        {
            let ghost k = all.len() - accounts@.len();
            let acc = accounts.remove(0);
            proof {
                assert(acc == all[k]);
                assert(accounts@ =~= all.skip(k + 1));
                assert(all.take(k + 1) =~= all.take(k).push(acc));
                assert(all.take(k + 1).map_values(|a: Account| a.client) =~= all.take(
                    k,
                ).map_values(|a: Account| a.client).push(acc.client));
            }
            let client = acc.client;
            let ghost data0 = r.data@;
            let ghost clients0 = r.clients@;
            r.clients.push(client);
            r.data.insert(client, acc);
            proof {
                assert forall|c: u16| #[trigger] r.data@.contains_key(c) implies r.clients@
                    .contains(c) && r.data@[c]@.wf() && r.data@[c].client == c by {
                    if c == client {
                        assert(r.clients@[r.clients@.len() - 1] == client);
                        assert(r.data@[c] == all[k]);
                    } else {
                        assert(data0.contains_key(c));
                        assert(r.data@[c] == data0[c]);
                        let j = choose|j: int| 0 <= j < clients0.len() && clients0[j] == c;
                        assert(r.clients@[j] == c);
                    }
                }
            }
        }
        proof {
            assert(all.take(all.len() as int) =~= all);
            assert(r.clients@.no_duplicates()) by {
                assert forall|i: int, j: int|
                    0 <= i < j < r.clients@.len() implies r.clients@[i] != r.clients@[j] by {
                    assert(r.clients@[i] == all[i].client);
                    assert(r.clients@[j] == all[j].client);
                }
            }
            assert forall|i: int|
                0 <= i < all.len() implies r.accounts().contains_key(#[trigger] all[i].client)
                    && r.accounts()[all[i].client] == all[i]@ by {
                assert(r.data@.contains_key(all[i].client));
            }
        }
        r
    }
}

impl AccountStore for InMemoryStore {
    closed spec fn accounts(&self) -> Map<u16, AccountV> {
        self.data@.map_values(|a: Account| a@)
    }

    closed spec fn order(&self) -> Seq<u16> {
        self.clients@
    }

    closed spec fn inv(&self) -> bool {
        &&& self.clients@.no_duplicates()
        &&& forall|c: u16|
            #[trigger] self.data@.contains_key(c) ==> self.clients@.contains(c)
                && self.data@[c]@.wf() && self.data@[c].client == c
    }

    proof fn inv_properties(&self) {
        assert forall|c: u16| #[trigger] self.accounts().contains_key(c) implies self.order()
            .contains(c) && self.accounts()[c].wf() && self.accounts()[c].client == c by {
            assert(self.data@.contains_key(c));
            assert(self.accounts()[c] == self.data@[c]@);
        }
    }

    fn get_account(&self, client_id: u16) -> (r: Option<&Account>) {
        let r = self.data.get(&client_id);
        proof {
            if self.data@.contains_key(client_id) {
                assert(self.accounts().contains_key(client_id));
                assert(self.accounts()[client_id] == self.data@[client_id]@);
            }
        }
        r
    }

    fn take_account(&mut self, client_id: u16) -> (acc: Account) {
        let taken = self.data.remove(&client_id);
        proof {
            assert(self.data@.map_values(|a: Account| a@) =~= old(self).data@.map_values(
                |a: Account| a@,
            ).remove(client_id));
            if old(self).data@.contains_key(client_id) {
                assert(old(self).accounts().contains_key(client_id));
                assert(old(self).accounts()[client_id] == old(self).data@[client_id]@);
            }
            assert forall|c: u16| #[trigger] self.data@.contains_key(c) implies self.clients@
                .contains(c) && self.data@[c]@.wf() && self.data@[c].client == c by {
                assert(old(self).data@.contains_key(c));
                assert(self.data@[c] == old(self).data@[c]);
            }
        }
        match taken {
            Some(acc) => acc,
            None => Account::new(client_id),
        }
    }

    fn put_account(&mut self, acc: Account) {
        let client = acc.client;
        let mut known = false;
        let n = self.clients.len();
        let mut i: usize = 0;
        while i < n
            invariant
                n == self.clients@.len(),
                0 <= i <= n,
                known == (exists|j: int| 0 <= j < i && #[trigger] self.clients@[j] == client),
            decreases n - i,
        {
            if self.clients[i] == client {
                known = true;
            }
            i = i + 1;
        }
        proof {
            if known {
                let j = choose|j: int| 0 <= j < n && self.clients@[j] == client;
                assert(self.clients@.contains(client));
            } else {
                if self.clients@.contains(client) {
                    let j = choose|j: int|
                        0 <= j < self.clients@.len() && self.clients@[j] == client;
                    assert(false);
                }
            }
        }
        if !known {
            self.clients.push(client);
        }
        self.data.insert(client, acc);
        proof {
            assert(self.data@.map_values(|a: Account| a@) =~= old(self).data@.map_values(
                |a: Account| a@,
            ).insert(client, acc@));
            if !old(self).clients@.contains(client) {
                assert forall|c: u16| #[trigger] self.data@.contains_key(c) implies self.clients@
                    .contains(c) && self.data@[c]@.wf() && self.data@[c].client == c by {
                    if c == client {
                        assert(self.clients@[self.clients@.len() - 1] == client);
                        assert(self.clients@.contains(client));
                    } else {
                        assert(old(self).data@.contains_key(c));
                        assert(self.data@[c] == old(self).data@[c]);
                        let j = choose|j: int|
                            0 <= j < old(self).clients@.len() && old(self).clients@[j] == c;
                        assert(self.clients@[j] == c);
                        assert(self.clients@.contains(c));
                    }
                }
                assert(self.clients@.no_duplicates()) by {
                    assert forall|i: int, j: int|
                        0 <= i < j < self.clients@.len() implies self.clients@[i]
                            != self.clients@[j] by {
                        if j == self.clients@.len() - 1 {
                            assert(old(self).clients@[i] == self.clients@[i]);
                            if self.clients@[i] == client {
                                assert(old(self).clients@.contains(client));
                            }
                        }
                    }
                }
            } else {
                assert forall|c: u16| #[trigger] self.data@.contains_key(c) implies self.clients@
                    .contains(c) && self.data@[c]@.wf() && self.data@[c].client == c by {
                    if c != client {
                        assert(old(self).data@.contains_key(c));
                        assert(self.data@[c] == old(self).data@[c]);
                    }
                }
            }
        }
    }

    fn account_statements(&self) -> (v: Vec<AccountStatement>) {
        let mut v: Vec<AccountStatement> = Vec::new();
        let n = self.clients.len();
        let mut i: usize = 0;
        while i < n
            invariant
                self.inv(),
                forall|j: int|
                    0 <= j < self.order().len() ==> self.accounts().contains_key(
                        #[trigger] self.order()[j],
                    ),
                n == self.order().len(),
                0 <= i <= n,
                v@.len() == i,
                forall|j: int|
                    0 <= j < i ==> v@[j] == statement_of(
                        self.accounts()[#[trigger] self.order()[j]],
                    ),
            decreases n - i,
        {
            let client = self.clients[i];
            proof {
                assert(self.accounts().contains_key(client));
                assert(self.data@.contains_key(client));
                assert(self.accounts()[client] == self.data@[client]@);
            }
            let account = match self.data.get(&client) {
                Some(a) => a,
                None => unreached(),
            };
            v.push(AccountStatement::from_account(account));
            i = i + 1;
        }
        v
    }
}

} // verus!
