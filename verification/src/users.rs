//! The user directory: who may use the bridge, and with which credentials.
//!
//! The directory is made once, from the records of its users, and only read
//! from then on.

use std::collections::HashMap;
use vstd::prelude::*;

verus! {

broadcast use vstd::std_specs::hash::group_hash_axioms;

/// The credentials of one user.
#[derive(Debug, Clone, PartialEq, Eq)]
pub struct UserData {
    /// The token that authenticates the user to the bookmarking server.
    pub api_token: String,
    /// Whether the user's bookmarks are labelled as saved by the bot.
    pub bot_marked: bool,
}

/// The directory of users, keyed by their numeric identifier.
pub struct Users {
    users: HashMap<u64, UserData>,
}

impl View for Users {
    type V = Map<u64, UserData>;

    /// The directory as a map from identifier to credentials.
    closed spec fn view(&self) -> Map<u64, UserData> {
        self.users@
    }
}

/// The directory that `records` make: each record stands under its
/// identifier, and of two records with one identifier the later one.
pub open spec fn directory_of(records: Seq<(u64, UserData)>) -> Map<u64, UserData>
    decreases records.len(),
{
    if records.len() == 0 {
        Map::empty()
    } else {
        directory_of(records.drop_last()).insert(records.last().0, records.last().1)
    }
}

/// Whether no two of `records` share an identifier.
pub open spec fn distinct_identifiers(records: Seq<(u64, UserData)>) -> bool {
    forall|i: int, j: int|
        0 <= i < j < records.len() ==> (#[trigger] records[i]).0 != (#[trigger] records[j]).0
}

impl Users {
    /// The directory that `records` make.
    pub fn load(records: Vec<(u64, UserData)>) -> (directory: Users)
        ensures
            directory@ == directory_of(records@),
    {
        let mut users: HashMap<u64, UserData> = HashMap::new();
        let mut i: usize = 0;
        while i < records.len()
            invariant
                i <= records.len(),
                users@ == directory_of(records@.take(i as int)),
            decreases records.len() - i,
        {
            let record = &records[i];
            let data = UserData {
                api_token: record.1.api_token.clone(),
                bot_marked: record.1.bot_marked,
            };
            users.insert(record.0, data);
            proof {
                assert(records@.take(i + 1).drop_last() =~= records@.take(i as int));
                assert(records@.take(i + 1).last() == records@[i as int]);
            }
            i += 1;
        }
        assert(records@.take(i as int) =~= records@);
        Users { users }
    }

    /// The number of users in the directory.
    pub fn len(&self) -> (n: usize)
        ensures
            n == self@.len(),
    {
        self.users.len()
    }

    /// The credentials entered under exactly `user_id`, if there are any.
    pub fn find(&self, user_id: u64) -> (found: Option<&UserData>)
        ensures
            found == (if self@.contains_key(user_id) {
                Some(&self@[user_id])
            } else {
                None
            }),
    {
        self.users.get(&user_id)
    }
}

/// The identifiers of a directory are those of its records, and it is
/// finite.
pub proof fn lemma_directory_identifiers(records: Seq<(u64, UserData)>)
    ensures
        directory_of(records).dom().finite(),
        forall|user_id: u64| #[trigger]
            directory_of(records).contains_key(user_id) <==> exists|i: int|
                0 <= i < records.len() && (#[trigger] records[i]).0 == user_id,
    decreases records.len(),
{
    if records.len() > 0 {
        let before = records.drop_last();
        lemma_directory_identifiers(before);
        assert forall|user_id: u64| #[trigger]
            directory_of(records).contains_key(user_id) implies exists|i: int|
            0 <= i < records.len() && (#[trigger] records[i]).0 == user_id by {
            if user_id == records.last().0 {
                assert(records[records.len() - 1].0 == user_id);
            } else {
                assert(directory_of(before).contains_key(user_id));
                let i = choose|i: int| 0 <= i < before.len() && (#[trigger] before[i]).0 == user_id;
                assert(records[i].0 == user_id);
            }
        }
        assert forall|user_id: u64|
            (exists|i: int|
                0 <= i < records.len() && (#[trigger] records[i]).0
                    == user_id) implies #[trigger] directory_of(records).contains_key(user_id) by {
            let i = choose|i: int| 0 <= i < records.len() && (#[trigger] records[i]).0 == user_id;
            if i < records.len() - 1 {
                assert(before[i].0 == user_id);
            }
        }
    }
}

/// Every identifier has an entry of its own: records under identifiers of
/// which no two are the same make a directory with as many entries as
/// there are records, and each record is found, unchanged, under exactly
/// its own identifier and under no other.
pub proof fn lemma_one_entry_per_identifier(records: Seq<(u64, UserData)>)
    requires
        distinct_identifiers(records),
    ensures
        directory_of(records).len() == records.len(),
        forall|i: int|
            0 <= i < records.len() ==> directory_of(records).contains_key(
                (#[trigger] records[i]).0,
            ) && directory_of(records)[records[i].0] == records[i].1,
        forall|user_id: u64| #[trigger]
            directory_of(records).contains_key(user_id) ==> exists|i: int|
                0 <= i < records.len() && (#[trigger] records[i]).0 == user_id,
    decreases records.len(),
{
    lemma_directory_identifiers(records);
    if records.len() > 0 {
        let before = records.drop_last();
        let last = records.last();
        assert forall|i: int, j: int| 0 <= i < j < before.len() implies (#[trigger] before[i]).0
            != (#[trigger] before[j]).0 by {
            assert(before[i] == records[i]);
            assert(before[j] == records[j]);
        }
        lemma_one_entry_per_identifier(before);
        lemma_directory_identifiers(before);
        assert(!directory_of(before).contains_key(last.0)) by {
            if directory_of(before).contains_key(last.0) {
                let i = choose|i: int| 0 <= i < before.len() && (#[trigger] before[i]).0 == last.0;
                assert(records[i].0 == records[records.len() - 1].0);
            }
        }
        assert forall|i: int| 0 <= i < records.len() implies directory_of(records).contains_key(
            (#[trigger] records[i]).0,
        ) && directory_of(records)[records[i].0] == records[i].1 by {
            if i < records.len() - 1 {
                assert(before[i] == records[i]);
                assert(records[i].0 != records[records.len() - 1].0);
            }
        }
    }
}

} // verus!
