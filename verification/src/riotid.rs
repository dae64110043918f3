//! Player game identities ("riot ids", e.g. `Martige#0123`): the accepted
//! shape, and the per-actor directory the coordinator keeps and persists.
//!
//! An id is accepted when a `#` appears somewhere with a word character
//! (ASCII letter, digit or underscore) directly on each side.

use std::collections::HashMap;

use vstd::prelude::*;

verus! {

broadcast use vstd::std_specs::hash::group_hash_axioms;

/// ASCII word character: letter, digit or underscore.
pub open spec fn is_word_char(c: char) -> bool {
    ('0' <= c && c <= '9') || ('A' <= c && c <= 'Z') || ('a' <= c && c <= 'z') || c == '_'
}

/// The accepted shape: somewhere a `#` with a word character directly
/// before and directly after it.
pub open spec fn has_game_tag(s: Seq<char>) -> bool {
    exists|i: int|
        1 <= i && i + 1 < s.len() && #[trigger] s[i] == '#' && is_word_char(s[i - 1])
            && is_word_char(s[i + 1])
}

/// Word-character test on one character.
fn word_char(c: char) -> (r: bool)
    ensures
        r == is_word_char(c),
{
    let u = c as u32;
    (48 <= u && u <= 57) || (65 <= u && u <= 90) || (97 <= u && u <= 122) || u == 95
}

/// Whether `s` is an acceptable riot id.
pub fn is_valid_riot_id(s: &str) -> (r: bool)
    ensures
        r == has_game_tag(s@),
{
    let n = s.unicode_len();
    if n < 3 {
        proof {
            if has_game_tag(s@) {
                let i = choose|i: int|
                    1 <= i && i + 1 < s@.len() && #[trigger] s@[i] == '#' && is_word_char(
                        s@[i - 1],
                    ) && is_word_char(s@[i + 1]);
            }
        }
        return false;
    }
    let mut k: usize = 1;
    while k < n - 1
        invariant
            1 <= k <= n,
            3 <= n == s@.len(),
            forall|i: int|
                1 <= i < k ==> !(#[trigger] s@[i] == '#' && is_word_char(s@[i - 1]) && is_word_char(
                    s@[i + 1],
                )),
        decreases n - k,
    {
        if s.get_char(k) == '#' && word_char(s.get_char(k - 1)) && word_char(s.get_char(k + 1)) {
            proof {
                assert(1 <= k as int && k as int + 1 < s@.len() && s@[k as int] == '#'
                    && is_word_char(s@[k as int - 1]) && is_word_char(s@[k as int + 1]));
            }
            return true;
        }
        k = k + 1;
    }
    proof {
        if has_game_tag(s@) {
            let i = choose|i: int|
                1 <= i && i + 1 < s@.len() && #[trigger] s@[i] == '#' && is_word_char(s@[i - 1])
                    && is_word_char(s@[i + 1]);
        }
    }
    false
}

/// The directory of riot ids, keyed by actor identity.  The caller
/// persists a snapshot after every accepted update.
pub struct RiotIdDirectory {
    entries: HashMap<u64, String>,
}

impl View for RiotIdDirectory {
    type V = Map<u64, String>;

    closed spec fn view(&self) -> Map<u64, String> {
        self.entries@
    }
}

impl RiotIdDirectory {
    /// An empty directory.
    pub fn new() -> (r: RiotIdDirectory)
        ensures
            r@ == Map::<u64, String>::empty(),
    {
        RiotIdDirectory { entries: HashMap::new() }
    }

    /// Adopt the entries read back from durable storage.
    pub fn load(entries: HashMap<u64, String>) -> (r: RiotIdDirectory)
        ensures
            r@ == entries@,
    {
        RiotIdDirectory { entries }
    }

    /// How many actors have an id on file.
    pub fn len(&self) -> (n: usize)
        ensures
            n == self@.dom().len(),
    {
        self.entries.len()
    }

    /// Record `riot_id` for `actor` if it has the accepted shape; an
    /// update replaces the previous id.  Rejections change nothing.
    pub fn set_riot_id(&mut self, actor: u64, riot_id: String) -> (r: bool)
        ensures
            r == has_game_tag(riot_id@),
            r ==> final(self)@ == old(self)@.insert(actor, riot_id),
            !r ==> final(self)@ == old(self)@,
    {
        if is_valid_riot_id(riot_id.as_str()) {
            self.entries.insert(actor, riot_id);
            true
        } else {
            false
        }
    }

    /// The id on file for `actor`, if any.
    pub fn get_riot_id(&self, actor: u64) -> (r: Option<&String>)
        ensures
            match r {
                Some(s) => self@.contains_key(actor) && *s == self@[actor],
                None => !self@.contains_key(actor),
            },
    {
        self.entries.get(&actor)
    }

    /// The underlying entries, for persistence.
    pub fn entries(&self) -> (r: &HashMap<u64, String>)
        ensures
            r@ == self@,
    {
        &self.entries
    }
}

} // verus!
