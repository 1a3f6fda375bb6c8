//! The refresh token store: the registry of the refresh tokens that can
//! still be redeemed.
//!
//! [`TokenRepository`] is the contract of a store; a datastore-backed store
//! implements it outside this library. [`InMemoryTokenRepository`] is the
//! store held in memory.

use crate::error::StorageError;
use vstd::prelude::*;

verus! {

/// One outstanding refresh token: its identifier, its expiry as seconds
/// since the epoch, and the user it was issued to.
#[derive(Debug, Clone, Copy, PartialEq, Eq)]
pub struct StoredToken {
    pub id: u128,
    pub exp: i64,
    pub user_id: i32,
}

/// The contents of a store: for each token identifier, the expiry and the
/// owning user.
pub type TokenTable = Map<u128, (int, int)>;

/// The record of a token that expires at `exp` and belongs to `user_id`.
pub open spec fn token_entry(exp: int, user_id: int) -> (int, int) {
    (exp, user_id)
}

/// A token can be redeemed while the store holds its identifier.
pub open spec fn redeemable(t: TokenTable, id: u128) -> bool {
    t.contains_key(id)
}

/// The table without the tokens of one user.
pub open spec fn purge_user(t: TokenTable, user_id: int) -> TokenTable {
    Map::new(|id: u128| t.contains_key(id) && t[id].1 != user_id, |id: u128| t[id])
}

/// The table without the tokens whose expiry lies before `now`.
pub open spec fn swept(t: TokenTable, now: int) -> TokenTable {
    Map::new(|id: u128| t.contains_key(id) && t[id].0 >= now, |id: u128| t[id])
}

/// The table after a login of `user_id`: that user's earlier tokens are
/// gone and the new one is in.
pub open spec fn after_login(t: TokenTable, user_id: int, new_id: u128, exp: int) -> TokenTable {
    purge_user(t, user_id).insert(new_id, token_entry(exp, user_id))
}

/// The table after a rotation: the redeemed token is gone and its
/// replacement is in.
pub open spec fn after_rotation(
    t: TokenTable,
    old_id: u128,
    new_id: u128,
    exp: int,
    user_id: int,
) -> TokenTable {
    t.remove(old_id).insert(new_id, token_entry(exp, user_id))
}

/// A store of refresh tokens.
///
/// `tokens` is what the store holds. A store that is `reliable` fails only
/// where its contract says so; one that is not may fail at any call, and
/// then holds what it held before.
pub trait TokenRepository {
    /// What the store holds.
    spec fn tokens(&self) -> TokenTable;

    /// The store's own invariant.
    spec fn valid(&self) -> bool;

    /// The store fails only on an identifier that is already in use.
    spec fn reliable(&self) -> bool;

    /// Records a token. An identifier that is already recorded is refused.
    fn add_token(&mut self, id: u128, exp: i64, user_id: i32) -> (r: Result<(), StorageError>)
        requires
            old(self).valid(),
        ensures
            final(self).valid(),
            final(self).reliable() == old(self).reliable(),
            r is Ok ==> !old(self).tokens().contains_key(id) && final(self).tokens() == old(self).tokens().insert(id, token_entry(exp as int, user_id as int)),
            r is Err ==> final(self).tokens() == old(self).tokens(),
            old(self).reliable() && !old(self).tokens().contains_key(id) ==> r is Ok,
    ;

    /// Removes a token and says whether it was there.
    fn delete_token(&mut self, id: u128) -> (r: Result<bool, StorageError>)
        requires
            old(self).valid(),
        ensures
            final(self).valid(),
            final(self).reliable() == old(self).reliable(),
            r matches Ok(existed) ==> existed == old(self).tokens().contains_key(id) && final(self).tokens() == old(self).tokens().remove(id),
            r is Err ==> final(self).tokens() == old(self).tokens(),
            old(self).reliable() ==> r is Ok,
    ;

    /// Removes every token of one user.
    fn delete_all_for_user(&mut self, user_id: i32) -> (r: Result<(), StorageError>)
        requires
            old(self).valid(),
        ensures
            final(self).valid(),
            final(self).reliable() == old(self).reliable(),
            r is Ok ==> final(self).tokens() == purge_user(old(self).tokens(), user_id as int),
            r is Err ==> final(self).tokens() == old(self).tokens(),
            old(self).reliable() ==> r is Ok,
    ;

    /// Removes every token whose expiry lies before `now` and says how many
    /// went.
    fn sweep_expired(&mut self, now: i64) -> (r: Result<usize, StorageError>)
        requires
            old(self).valid(),
        ensures
            final(self).valid(),
            final(self).reliable() == old(self).reliable(),
            r matches Ok(count) ==> final(self).tokens() == swept(old(self).tokens(), now as int)
                && count == old(self).tokens().len() - final(self).tokens().len(),
            r is Err ==> final(self).tokens() == old(self).tokens(),
            old(self).reliable() ==> r is Ok,
    ;

    /// Whether the store holds a token.
    fn contains_token(&self, id: u128) -> (r: Result<bool, StorageError>)
        requires
            self.valid(),
        ensures
            r matches Ok(held) ==> held == self.tokens().contains_key(id),
            self.reliable() ==> r is Ok,
    ;

    /// Rotates a token as one unit: the token `old_id` leaves and its
    /// replacement `new_id` enters, or nothing changes. The answer says
    /// whether `old_id` was there; where it was not, nothing changes. A
    /// replacement whose identifier is in use, that of the leaving token
    /// included, is refused.
    fn rotate_token(&mut self, old_id: u128, new_id: u128, exp: i64, user_id: i32) -> (r: Result<
        bool,
        StorageError,
    >)
        requires
            old(self).valid(),
        ensures
            final(self).valid(),
            final(self).reliable() == old(self).reliable(),
            r matches Ok(rotated) ==> rotated == old(self).tokens().contains_key(old_id),
            r matches Ok(rotated) ==> rotated ==> !old(self).tokens().contains_key(new_id)
                && final(self).tokens() == after_rotation(
                old(self).tokens(),
                old_id,
                new_id,
                exp as int,
                user_id as int,
            ),
            r matches Ok(rotated) ==> !rotated ==> final(self).tokens() == old(self).tokens(),
            r is Err ==> final(self).tokens() == old(self).tokens(),
            old(self).reliable() && !old(self).tokens().contains_key(new_id) ==> r is Ok,
            old(self).reliable() && !old(self).tokens().contains_key(old_id) ==> r is Ok,
    ;

    /// Replaces the tokens of one user as one unit: every token of
    /// `user_id` leaves and the token `new_id` enters, or nothing changes.
    /// A new token whose identifier is in use is refused.
    fn replace_user_tokens(&mut self, user_id: i32, new_id: u128, exp: i64) -> (r: Result<
        (),
        StorageError,
    >)
        requires
            old(self).valid(),
        ensures
            final(self).valid(),
            final(self).reliable() == old(self).reliable(),
            r is Ok ==> !old(self).tokens().contains_key(new_id) && final(self).tokens()
                == after_login(old(self).tokens(), user_id as int, new_id, exp as int),
            r is Err ==> final(self).tokens() == old(self).tokens(),
            old(self).reliable() && !old(self).tokens().contains_key(new_id) ==> r is Ok,
    ;
}

/// Some record of `s` has the identifier `id`.
pub open spec fn has_id(s: Seq<StoredToken>, id: u128) -> bool {
    exists|i: int| 0 <= i < s.len() && (#[trigger] s[i]).id == id
}

/// The place of a record with the identifier `id`.
pub open spec fn index_of_id(s: Seq<StoredToken>, id: u128) -> int {
    choose|i: int| 0 <= i < s.len() && (#[trigger] s[i]).id == id
}

/// No two records share an identifier.
pub open spec fn distinct_ids(s: Seq<StoredToken>) -> bool {
    forall|i: int, j: int| 0 <= i < j < s.len() ==> (#[trigger] s[i]).id != (#[trigger] s[j]).id
}

/// The table that a list of records stands for.
pub open spec fn table_of(s: Seq<StoredToken>) -> TokenTable {
    Map::new(
        |id: u128| has_id(s, id),
        |id: u128| token_entry(s[index_of_id(s, id)].exp as int, s[index_of_id(s, id)].user_id as int),
    )
}

/// In a list of distinct records, each record is the table's entry for its
/// identifier.
proof fn lemma_table_entry(s: Seq<StoredToken>, i: int)
    requires
        distinct_ids(s),
        0 <= i < s.len(),
    ensures
        table_of(s).contains_key(s[i].id),
        table_of(s)[s[i].id] == token_entry(s[i].exp as int, s[i].user_id as int),
        index_of_id(s, s[i].id) == i,
{
    let id = s[i].id;
    assert(has_id(s, id));
    let j = index_of_id(s, id);
    assert(0 <= j < s.len() && s[j].id == id);
    if j < i {
        assert(s[j].id != s[i].id);
    } else if i < j {
        assert(s[i].id != s[j].id);
    }
}

/// A list of distinct records stands for a finite table with one entry per
/// record.
proof fn lemma_table_len(s: Seq<StoredToken>)
    requires
        distinct_ids(s),
    ensures
        table_of(s).dom().finite(),
        table_of(s).len() == s.len(),
    decreases s.len(),
{
    if s.len() == 0 {
        assert(table_of(s).dom() =~= Set::<u128>::empty());
    } else {
        let front = s.drop_last();
        let last = s.last();
        assert(distinct_ids(front)) by {
            assert forall|i: int, j: int| 0 <= i < j < front.len() implies (#[trigger] front[i]).id
                != (#[trigger] front[j]).id by {
                assert(front[i] == s[i] && front[j] == s[j]);
            }
        }
        lemma_table_len(front);
        assert(!has_id(front, last.id)) by {
            if has_id(front, last.id) {
                let i = index_of_id(front, last.id);
                assert(front[i] == s[i]);
                assert(s[i].id != s[s.len() - 1].id);
            }
        }
        assert(table_of(s).dom() =~= table_of(front).dom().insert(last.id)) by {
            assert forall|id: u128| has_id(s, id) <==> (has_id(front, id) || id == last.id) by {
                if has_id(s, id) {
                    let i = index_of_id(s, id);
                    if i < front.len() {
                        assert(front[i] == s[i]);
                    }
                }
                if has_id(front, id) {
                    let i = index_of_id(front, id);
                    assert(front[i] == s[i]);
                }
                if id == last.id {
                    assert(s[s.len() - 1].id == id);
                }
            }
        }
    }
}

/// A refresh token store held in memory.
pub struct InMemoryTokenRepository {
    records: Vec<StoredToken>,
}

impl InMemoryTokenRepository {
    /// An empty store.
    pub fn new() -> (r: Self)
        ensures
            r.valid(),
            r.reliable(),
            r.tokens() == Map::<u128, (int, int)>::empty(),
    {
        let r = Self { records: Vec::new() };
        assert(table_of(r.records@) =~= Map::<u128, (int, int)>::empty());
        r
    }

    /// The number of tokens held.
    pub fn len(&self) -> (r: usize)
        requires
            self.valid(),
        ensures
            r == self.tokens().len(),
    {
        proof {
            lemma_table_len(self.records@);
        }
        self.records.len()
    }

    /// Whether the token `id` can still be redeemed.
    pub fn contains(&self, id: u128) -> (r: bool)
        requires
            self.valid(),
        ensures
            r == redeemable(self.tokens(), id),
    {
        self.position(id).is_some()
    }

    /// The record of the token `id`, if the store holds it.
    pub fn get(&self, id: u128) -> (r: Option<StoredToken>)
        requires
            self.valid(),
        ensures
            r is Some == self.tokens().contains_key(id),
            r matches Some(t) ==> t.id == id && self.tokens()[id] == token_entry(
                t.exp as int,
                t.user_id as int,
            ),
    {
        match self.position(id) {
            Some(i) => {
                proof {
                    lemma_table_entry(self.records@, i as int);
                }
                Some(self.records[i])
            },
            None => None,
        }
    }

    fn position(&self, id: u128) -> (r: Option<usize>)
        requires
            self.valid(),
        ensures
            r is Some == has_id(self.records@, id),
            r matches Some(i) ==> i < self.records@.len() && self.records@[i as int].id == id,
    {
        let mut i: usize = 0;
        while i < self.records.len()
            invariant
                i <= self.records@.len(),
                forall|j: int| 0 <= j < i ==> (#[trigger] self.records@[j]).id != id,
            decreases self.records@.len() - i,
        {
            if self.records[i].id == id {
                return Some(i);
            }
            i += 1;
        }
        None
    }

    /// Removes the records that are doomed: those of `user_id` where
    /// `by_user` holds, else those that expire before `now`.
    fn remove_doomed(&mut self, by_user: bool, user_id: i32, now: i64)
        requires
            old(self).valid(),
        ensures
            final(self).valid(),
            final(self).records@.len() <= old(self).records@.len(),
            final(self).tokens() == Map::new(
                |id: u128|
                    old(self).tokens().contains_key(id) && !doomed(
                        old(self).tokens()[id],
                        by_user,
                        user_id as int,
                        now as int,
                    ),
                |id: u128| old(self).tokens()[id],
            ),
    {
        let mut kept: Vec<StoredToken> = Vec::new();
        let mut i: usize = 0;
        let ghost all = self.records@;
        while i < self.records.len()
            invariant
                self.records@ == all,
                distinct_ids(all),
                i <= all.len(),
                kept@.len() <= i,
                distinct_ids(kept@),
                forall|k: int|
                    0 <= k < kept@.len() ==> exists|j: int|
                        0 <= j < i && #[trigger] all[j] == #[trigger] kept@[k] && !doomed(
                            token_entry(all[j].exp as int, all[j].user_id as int),
                            by_user,
                            user_id as int,
                            now as int,
                        ),
                forall|j: int|
                    0 <= j < i && !doomed(
                        token_entry((#[trigger] all[j]).exp as int, all[j].user_id as int),
                        by_user,
                        user_id as int,
                        now as int,
                    ) ==> has_id(kept@, all[j].id),
            decreases all.len() - i,
        {
            let record = self.records[i];
            let goes = if by_user {
                record.user_id == user_id
            } else {
                record.exp < now
            };
            if !goes {
                proof {
                    let next = kept@.push(record);
                    assert forall|a: int, b: int| 0 <= a < b < next.len() implies (
                    #[trigger] next[a]).id != (#[trigger] next[b]).id by {
                        if b == kept@.len() {
                            let j = choose|j: int|
                                0 <= j < i && #[trigger] all[j] == kept@[a] && !doomed(
                                    token_entry(all[j].exp as int, all[j].user_id as int),
                                    by_user,
                                    user_id as int,
                                    now as int,
                                );
                            assert(all[j].id != all[i as int].id);
                        } else {
                            assert(next[a] == kept@[a] && next[b] == kept@[b]);
                        }
                    }
                    assert forall|k: int| 0 <= k < next.len() implies exists|j: int|
                        0 <= j < i + 1 && #[trigger] all[j] == #[trigger] next[k] && !doomed(
                            token_entry(all[j].exp as int, all[j].user_id as int),
                            by_user,
                            user_id as int,
                            now as int,
                        ) by {
                        if k == kept@.len() {
                            assert(all[i as int] == next[k]);
                        } else {
                            assert(next[k] == kept@[k]);
                            let j = choose|j: int|
                                0 <= j < i && #[trigger] all[j] == kept@[k] && !doomed(
                                    token_entry(all[j].exp as int, all[j].user_id as int),
                                    by_user,
                                    user_id as int,
                                    now as int,
                                );
                            assert(all[j] == next[k]);
                        }
                    }
                    assert forall|j: int|
                        0 <= j < i + 1 && !doomed(
                            token_entry((#[trigger] all[j]).exp as int, all[j].user_id as int),
                            by_user,
                            user_id as int,
                            now as int,
                        ) implies has_id(next, all[j].id) by {
                        if j == i {
                            assert(next[kept@.len() as int].id == all[j].id);
                        } else {
                            let k = index_of_id(kept@, all[j].id);
                            assert(next[k] == kept@[k]);
                        }
                    }
                }
                kept.push(record);
            }
            i += 1;
        }
        proof {
            let before = table_of(all);
            let wanted = Map::new(
                |id: u128|
                    before.contains_key(id) && !doomed(
                        before[id],
                        by_user,
                        user_id as int,
                        now as int,
                    ),
                |id: u128| before[id],
            );
            assert forall|id: u128| #[trigger] table_of(kept@).contains_key(id) implies wanted.contains_key(id)
                && wanted[id] == table_of(kept@)[id] by {
                let k = index_of_id(kept@, id);
                lemma_table_entry(kept@, k);
                let j = choose|j: int|
                    0 <= j < i && #[trigger] all[j] == kept@[k] && !doomed(
                        token_entry(all[j].exp as int, all[j].user_id as int),
                        by_user,
                        user_id as int,
                        now as int,
                    );
                lemma_table_entry(all, j);
            }
            assert forall|id: u128| #[trigger] wanted.contains_key(id) implies table_of(kept@).contains_key(id) by {
                let j = index_of_id(all, id);
                lemma_table_entry(all, j);
            }
            assert(table_of(kept@) =~= wanted);
        }
        self.records = kept;
    }
}

/// Whether an entry goes in a removal: by owner where `by_user` holds, else
/// by expiry before `now`.
pub open spec fn doomed(entry: (int, int), by_user: bool, user_id: int, now: int) -> bool {
    if by_user {
        entry.1 == user_id
    } else {
        entry.0 < now
    }
}

impl TokenRepository for InMemoryTokenRepository {
    closed spec fn tokens(&self) -> TokenTable {
        table_of(self.records@)
    }

    closed spec fn valid(&self) -> bool {
        distinct_ids(self.records@)
    }

    open spec fn reliable(&self) -> bool {
        true
    }

    fn add_token(&mut self, id: u128, exp: i64, user_id: i32) -> (r: Result<(), StorageError>) {
        if self.position(id).is_some() {
            return Err(StorageError::Database("duplicate token id".to_owned()));
        }
        let record = StoredToken { id, exp, user_id };
        proof {
            let before = self.records@;
            let after = before.push(record);
            assert forall|i: int, j: int| 0 <= i < j < after.len() implies (#[trigger] after[i]).id
                != (#[trigger] after[j]).id by {
                if j == before.len() {
                    assert(after[i] == before[i]);
                } else {
                    assert(after[i] == before[i] && after[j] == before[j]);
                }
            }
            assert forall|k: u128| #[trigger] table_of(after).contains_key(k) implies table_of(
                before,
            ).insert(id, token_entry(exp as int, user_id as int)).contains_key(k) && table_of(
                after,
            )[k] == table_of(before).insert(id, token_entry(exp as int, user_id as int))[k] by {
                let i = index_of_id(after, k);
                lemma_table_entry(after, i);
                if i < before.len() {
                    assert(after[i] == before[i]);
                    lemma_table_entry(before, i);
                }
            }
            assert forall|k: u128| #[trigger]
                table_of(before).insert(id, token_entry(exp as int, user_id as int)).contains_key(
                    k,
                ) implies table_of(after).contains_key(k) by {
                if k == id {
                    assert(after[before.len() as int].id == id);
                } else {
                    let i = index_of_id(before, k);
                    assert(after[i] == before[i]);
                }
            }
            assert(table_of(after) =~= table_of(before).insert(
                id,
                token_entry(exp as int, user_id as int),
            ));
        }
        self.records.push(record);
        Ok(())
    }

    fn delete_token(&mut self, id: u128) -> (r: Result<bool, StorageError>) {
        match self.position(id) {
            Some(i) => {
                proof {
                    let before = self.records@;
                    let after = before.remove(i as int);
                    assert forall|a: int, b: int| 0 <= a < b < after.len() implies (
                    #[trigger] after[a]).id != (#[trigger] after[b]).id by {
                        let a0 = if a < i { a } else { a + 1 };
                        let b0 = if b < i { b } else { b + 1 };
                        assert(after[a] == before[a0] && after[b] == before[b0]);
                    }
                    assert forall|k: u128| #[trigger] table_of(after).contains_key(k) implies table_of(
                        before,
                    ).remove(id).contains_key(k) && table_of(after)[k] == table_of(before).remove(
                        id,
                    )[k] by {
                        let a = index_of_id(after, k);
                        lemma_table_entry(after, a);
                        let a0 = if a < i { a } else { a + 1 };
                        assert(after[a] == before[a0]);
                        lemma_table_entry(before, a0);
                        lemma_table_entry(before, i as int);
                    }
                    assert forall|k: u128| #[trigger]
                        table_of(before).remove(id).contains_key(k) implies table_of(
                        after,
                    ).contains_key(k) by {
                        let b = index_of_id(before, k);
                        let a = if b < i { b } else { b - 1 };
                        assert(after[a] == before[b]);
                    }
                    assert(table_of(after) =~= table_of(before).remove(id));
                }
                self.records.remove(i);
                Ok(true)
            },
            None => {
                assert(table_of(self.records@).remove(id) =~= table_of(self.records@));
                Ok(false)
            },
        }
    }

    fn delete_all_for_user(&mut self, user_id: i32) -> (r: Result<(), StorageError>) {
        self.remove_doomed(true, user_id, 0);
        assert(self.tokens() =~= purge_user(old(self).tokens(), user_id as int));
        Ok(())
    }

    fn sweep_expired(&mut self, now: i64) -> (r: Result<usize, StorageError>) {
        let before = self.records.len();
        proof {
            lemma_table_len(self.records@);
        }
        self.remove_doomed(false, 0, now);
        proof {
            lemma_table_len(self.records@);
            assert(self.tokens() =~= swept(old(self).tokens(), now as int));
        }
        Ok(before - self.records.len())
    }

    fn contains_token(&self, id: u128) -> (r: Result<bool, StorageError>) {
        Ok(self.position(id).is_some())
    }

    fn rotate_token(&mut self, old_id: u128, new_id: u128, exp: i64, user_id: i32) -> (r: Result<
        bool,
        StorageError,
    >) {
        if self.position(old_id).is_none() {
            return Ok(false);
        }
        if self.position(new_id).is_some() {
            return Err(StorageError::Database("duplicate token id".to_owned()));
        }
        match self.delete_token(old_id) {
            Ok(_) => {},
            Err(err) => {
                return Err(err);
            },
        }
        match self.add_token(new_id, exp, user_id) {
            Ok(()) => Ok(true),
            Err(err) => Err(err),
        }
    }

    fn replace_user_tokens(&mut self, user_id: i32, new_id: u128, exp: i64) -> (r: Result<
        (),
        StorageError,
    >) {
        if self.position(new_id).is_some() {
            return Err(StorageError::Database("duplicate token id".to_owned()));
        }
        match self.delete_all_for_user(user_id) {
            Ok(()) => {},
            Err(err) => {
                return Err(err);
            },
        }
        self.add_token(new_id, exp, user_id)
    }
}

} // verus!
