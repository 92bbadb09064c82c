//! Persistent record of which token sub-accounts have been deployed, and at
//! which binary version.
//!
//! Entries are append-only by key: a key is registered at most once and an
//! existing entry is never overwritten, so the recorded version always is
//! the version the sub-account was actually deployed with.

use vstd::prelude::*;

verus! {

/// One deployed token sub-account and the binary version it was deployed
/// with.
pub struct TokenEntry {
    /// Account identity of the token sub-account.
    pub account_id: Vec<u8>,
    /// Binary version stamped at deployment time.
    pub version: u32,
}

/// The token registry: account identity of each deployed sub-account mapped
/// to its deployment-time binary version.
pub struct Registry {
    /// The entries, in registration order, with pairwise distinct keys.
    pub entries: Vec<TokenEntry>,
}

impl Registry {
    /// Keys are pairwise distinct.
    pub open spec fn wf(&self) -> bool {
        forall|i: int, j: int|
            0 <= i < j < self.entries@.len() ==> self.entries@[i].account_id@
                != self.entries@[j].account_id@
    }

    /// Whether some entry carries the key `key`.
    pub open spec fn contains_spec(&self, key: Seq<u8>) -> bool {
        exists|i: int|
            0 <= i < self.entries@.len() && (#[trigger] self.entries@[i]).account_id@ == key
    }

    /// The version recorded for the key `key`.
    pub open spec fn version_of(&self, key: Seq<u8>) -> u32
        recommends
            self.contains_spec(key),
    {
        let i = choose|i: int|
            0 <= i < self.entries@.len() && (#[trigger] self.entries@[i]).account_id@ == key;
        self.entries@[i].version
    }

    /// An empty registry.
    pub fn new() -> (r: Registry)
        ensures
            r.entries@.len() == 0,
            r.wf(),
    {
        Registry { entries: Vec::new() }
    }

    /// How many token sub-accounts are registered.
    pub fn len(&self) -> (r: usize)
        ensures
            r == self.entries@.len(),
    {
        self.entries.len()
    }

    /// Whether the sub-account `key` is already registered.
    pub fn contains(&self, key: &Vec<u8>) -> (r: bool)
        ensures
            r == self.contains_spec(key@),
    {
        let mut i: usize = 0;
        while i < self.entries.len()
            invariant
                i <= self.entries@.len(),
                forall|j: int|
                    0 <= j < i ==> (#[trigger] self.entries@[j]).account_id@ != key@,
            decreases self.entries@.len() - i,
        {
            if self.entries[i].account_id == *key {
                assert(self.entries@[i as int].account_id@ =~= key@);
                return true;
            }
            assert(self.entries@[i as int].account_id@ != key@) by {
                if self.entries@[i as int].account_id@ == key@ {
                    assert(self.entries@[i as int].account_id@ =~= key@);
                }
            }
            i = i + 1;
        }
        false
    }

    /// Records that `account_id` was deployed at `version`. The key must not
    /// be registered yet: an existing entry is never overwritten.
    pub fn register(&mut self, account_id: Vec<u8>, version: u32)
        requires
            old(self).wf(),
            !old(self).contains_spec(account_id@),
        ensures
            final(self).entries@ == old(self).entries@.push(
                (TokenEntry { account_id, version }),
            ),
            final(self).wf(),
            final(self).contains_spec(account_id@),
            final(self).version_of(account_id@) == version,
    {
        let ghost key = account_id@;
        let ghost pre = self.entries@;
        self.entries.push(TokenEntry { account_id, version });
        proof {
            let post = self.entries@;
            assert forall|i: int, j: int| 0 <= i < j < post.len() implies post[i].account_id@
                != post[j].account_id@ by {
                if j < pre.len() {
                    assert(old(self).wf());
                } else {
                    assert(post[i] == pre[i]);
                    if pre[i].account_id@ == key {
                        assert(0 <= i < old(self).entries@.len()
                            && (#[trigger] old(self).entries@[i]).account_id@ == key);
                        assert(false);
                    }
                }
            }
            assert(post[post.len() - 1].account_id@ == key);
            assert(self.contains_spec(key));
            let ci = choose|i: int|
                0 <= i < post.len() && (#[trigger] post[i]).account_id@ == key;
            if ci < post.len() - 1 {
                assert(post[ci].account_id@ == post[post.len() - 1].account_id@);
                assert(false);
            }
            assert(self.version_of(key) == version);
        }
    }
}

} // verus!
