use std::collections::HashMap;
use vstd::prelude::*;

verus! {

/// One entry of the user table.
#[derive(Debug, Clone)]
pub struct User {
    pub user_id: String,
    pub first_name: String,
    pub last_name: String,
    pub email: String,
    pub mobile_phone: Option<String>,
    pub attributes: Option<HashMap<String, String>>,
}

/// The user table, in the order in which its entries were listed.
#[derive(Debug)]
pub struct UserDatabase {
    pub users: Vec<User>,
}

/// The position of the first user of `users` whose identifier is `id`, if any.
pub open spec fn first_user_index(users: Seq<User>, id: Seq<char>) -> Option<int>
    decreases users.len(),
{
    if users.len() == 0 {
        None
    } else if users.last().user_id@ == id {
        match first_user_index(users.drop_last(), id) {
            Some(i) => Some(i),
            None => Some(users.len() - 1),
        }
    } else {
        first_user_index(users.drop_last(), id)
    }
}

impl UserDatabase {
    /// The first user whose identifier is `user_id`.
    pub fn find_user(&self, user_id: &str) -> (r: Option<&User>)
        ensures
            match first_user_index(self.users@, user_id@) {
                Some(i) => r == Some(&self.users@[i]),
                None => r is None,
            },
    {
        let wanted = String::from_str(user_id);
        let mut i: usize = 0;
        while i < self.users.len()
            invariant
                0 <= i <= self.users@.len(),
                wanted@ == user_id@,
                first_user_index(self.users@.subrange(0, i as int), user_id@) is None,
            decreases self.users@.len() - i,
        {
            proof {
                lemma_first_user_index_extend(self.users@, user_id@, i as int);
            }
            if self.users[i].user_id == wanted {
                return Some(&self.users[i]);
            }
            i = i + 1;
        }
        proof {
            assert(self.users@.subrange(0, i as int) =~= self.users@);
        }
        None
    }
}

/// Extending a prefix without a match by one user.
proof fn lemma_first_user_index_extend(users: Seq<User>, id: Seq<char>, i: int)
    requires
        0 <= i < users.len(),
        first_user_index(users.subrange(0, i), id) is None,
    ensures
        first_user_index(users.subrange(0, i + 1), id) == (if users[i].user_id@ == id {
            Some(i)
        } else {
            None::<int>
        }),
        users[i].user_id@ == id ==> first_user_index(users, id) == Some(i),
{
    assert(users.subrange(0, i + 1).drop_last() =~= users.subrange(0, i));
    if users[i].user_id@ == id {
        lemma_first_user_index_prefix(users, id, i);
    }
}

/// A match within a prefix is the match of the whole sequence.
proof fn lemma_first_user_index_prefix(users: Seq<User>, id: Seq<char>, i: int)
    requires
        0 <= i < users.len(),
        first_user_index(users.subrange(0, i), id) is None,
        users[i].user_id@ == id,
    ensures
        first_user_index(users, id) == Some(i),
    decreases users.len(),
{
    if users.len() == i + 1 {
        assert(users.drop_last() =~= users.subrange(0, i));
    } else {
        assert(users.drop_last().subrange(0, i) =~= users.subrange(0, i));
        lemma_first_user_index_prefix(users.drop_last(), id, i);
    }
}

} // verus!
