//! Finding an identifier among many without comparing it to each: the
//! positions of a list are threaded by the hash of their identifier, so
//! that a search only visits the positions that share the hash sought.

use std::collections::HashMap;
use vstd::prelude::*;
use vstd::string::*;
use vstd::utf8::encode_utf8;
use crate::models::{entry_value, ApiVariable};

verus! {

/// Something that carries an identifier.
pub trait Identified {
    /// The identifier, as text.
    spec fn spec_id(&self) -> Seq<char>;

    /// The identifier.
    fn id(&self) -> (id: &String)
        ensures
            id@ == self.spec_id(),
    ;
}

impl Identified for ApiVariable {
    open spec fn spec_id(&self) -> Seq<char> {
        self.id@
    }

    fn id(&self) -> (id: &String) {
        &self.id
    }
}

impl<V> Identified for (String, V) {
    open spec fn spec_id(&self) -> Seq<char> {
        self.0@
    }

    fn id(&self) -> (id: &String) {
        &self.0
    }
}

/// One step of the hash: the hash so far times 31, plus the next byte,
/// cut down to 64 bits.
pub open spec fn hash_step(h: u64, b: u8) -> u64 {
    ((h as int * 31 + b as int) % 0x1_0000_0000_0000_0000) as u64
}

/// The hash of a sequence of bytes.
pub open spec fn hash_bytes(bytes: Seq<u8>) -> u64
    decreases bytes.len(),
{
    if bytes.len() == 0 {
        0
    } else {
        hash_step(hash_bytes(bytes.drop_last()), bytes.last())
    }
}

/// The hash of a text: that of its bytes in UTF-8.
pub open spec fn spec_hash(text: Seq<char>) -> u64 {
    hash_bytes(encode_utf8(text))
}

/// Computes the hash of a text.
pub fn hash_text(text: &String) -> (h: u64)
    ensures
        h == spec_hash(text@),
{
    let bytes = text.as_str().as_bytes();
    let mut h: u64 = 0;
    let mut k: usize = 0;
    while k < bytes.len()
        invariant
            k <= bytes@.len(),
            h == hash_bytes(bytes@.take(k as int)),
        decreases bytes@.len() - k,
    {
        proof {
            assert(bytes@.take(k + 1).drop_last() =~= bytes@.take(k as int));
        }
        let wide: u128 = (h as u128) * 31 + (bytes[k] as u128);
        h = (wide % 0x1_0000_0000_0000_0000u128) as u64;
        k = k + 1;
    }
    assert(bytes@.take(bytes@.len() as int) =~= bytes@);
    h
}

/// The hash of the identifier at position `k`.
pub open spec fn key_at<T: Identified>(items: Seq<T>, k: int) -> u64 {
    spec_hash(items[k].spec_id())
}

/// The last position of `items` that carries the identifier `id`, if any.
pub open spec fn last_position<T: Identified>(items: Seq<T>, id: Seq<char>) -> Option<int>
    decreases items.len(),
{
    if items.len() == 0 {
        None
    } else if items.last().spec_id() == id {
        Some(items.len() - 1)
    } else {
        last_position(items.drop_last(), id)
    }
}

/// `last_position` gives a position that carries the identifier and after
/// which none does, and gives none only where no position carries it.
pub proof fn lemma_last_position<T: Identified>(items: Seq<T>, id: Seq<char>)
    ensures
        last_position(items, id) matches Some(j) ==> 0 <= j < items.len() && items[j].spec_id()
            == id && forall|k: int| j < k < items.len() ==> (#[trigger] items[k]).spec_id() != id,
        last_position(items, id) is None ==> forall|k: int|
            0 <= k < items.len() ==> (#[trigger] items[k]).spec_id() != id,
    decreases items.len(),
{
    if items.len() > 0 && items.last().spec_id() != id {
        lemma_last_position(items.drop_last(), id);
        let rest = items.drop_last();
        assert forall|k: int| 0 <= k < rest.len() implies rest[k] == items[k] by {}
        match last_position(rest, id) {
            Some(j) => {
                assert forall|k: int| j < k < items.len() implies (#[trigger] items[k]).spec_id()
                    != id by {
                    if k < rest.len() {
                        assert(rest[k].spec_id() != id);
                    }
                }
            },
            None => {
                assert forall|k: int| 0 <= k < items.len() implies (#[trigger] items[k]).spec_id()
                    != id by {
                    if k < rest.len() {
                        assert(rest[k].spec_id() != id);
                    }
                }
            },
        }
    }
}

/// A position that carries the identifier and after which none does is
/// the last position; where no position carries it there is none.
pub proof fn lemma_last_position_is<T: Identified>(
    items: Seq<T>,
    id: Seq<char>,
    found: Option<int>,
)
    requires
        found matches Some(j) ==> 0 <= j < items.len() && items[j].spec_id() == id && forall|
            k: int,
        | j < k < items.len() ==> (#[trigger] items[k]).spec_id() != id,
        found is None ==> forall|k: int|
            0 <= k < items.len() ==> (#[trigger] items[k]).spec_id() != id,
    ensures
        last_position(items, id) == found,
{
    lemma_last_position(items, id);
    match (last_position(items, id), found) {
        (Some(a), Some(b)) => {
            if a < b {
                assert(items[b].spec_id() != id);
            } else if b < a {
                assert(items[a].spec_id() != id);
            }
        },
        (Some(a), None) => {
            assert(items[a].spec_id() != id);
        },
        (None, Some(b)) => {
            assert(items[b].spec_id() != id);
        },
        (None, None) => {},
    }
}

/// Some position carries the identifier exactly when there is a last one
/// that does.
pub proof fn lemma_carried_somewhere<T: Identified>(items: Seq<T>, id: Seq<char>)
    ensures
        last_position(items, id) is Some <==> exists|k: int|
            0 <= k < items.len() && (#[trigger] items[k]).spec_id() == id,
{
    lemma_last_position(items, id);
    if let Some(j) = last_position(items, id) {
        assert(items[j].spec_id() == id);
    }
}

/// What a list of entries gives for an identifier is the value at the
/// last position that carries it.
pub proof fn lemma_entry_value_at_last<V>(entries: Seq<(String, V)>, id: Seq<char>)
    ensures
        entry_value(entries, id) == (match last_position(entries, id) {
            Some(j) => Some(entries[j].1),
            None => None,
        }),
    decreases entries.len(),
{
    if entries.len() > 0 && entries.last().0@ != id {
        lemma_entry_value_at_last(entries.drop_last(), id);
        lemma_last_position(entries.drop_last(), id);
    }
}

/// The positions of a list, threaded by the hash of their identifier:
/// `last` gives, for a hash, the last position that has it, and
/// `previous` leads from a position to the one before it with the same
/// hash.
pub struct IdIndex {
    last: HashMap<u64, usize>,
    previous: Vec<Option<usize>>,
}

impl IdIndex {
    /// The index threads the positions `0..n` of `items`.
    pub closed spec fn threads<T: Identified>(&self, items: Seq<T>, n: int) -> bool {
        &&& self.previous@.len() == n
        &&& n <= items.len()
        &&& forall|h: u64| #[trigger]
            self.last@.contains_key(h) ==> self.last@[h] < n && key_at(items, self.last@[h] as int)
                == h
        &&& forall|k: int|
            0 <= k < n ==> self.last@.contains_key(#[trigger] key_at(items, k)) && k
                <= self.last@[key_at(items, k)]
        &&& forall|j: int, k: int|
            0 <= j < n && 0 <= k < j && #[trigger] key_at(items, k) == #[trigger] key_at(items, j)
                ==> (self.previous@[j] matches Some(i) && k <= i)
        &&& forall|j: int|
            0 <= j < n ==> ((#[trigger] self.previous@[j]) matches Some(i) ==> i < j && key_at(
                items,
                i as int,
            ) == key_at(items, j))
    }

    /// The index threads all of `items`.
    pub open spec fn indexes<T: Identified>(&self, items: Seq<T>) -> bool {
        self.threads(items, items.len() as int)
    }

    /// Threads the positions of `items`.
    pub fn build<T: Identified>(items: &Vec<T>) -> (index: IdIndex)
        ensures
            index.indexes(items@),
    {
        broadcast use vstd::std_specs::hash::group_hash_axioms;

        let mut index = IdIndex { last: HashMap::new(), previous: Vec::new() };
        let mut j: usize = 0;
        while j < items.len()
            invariant
                j <= items@.len(),
                index.threads(items@, j as int),
            decreases items@.len() - j,
        {
            let h = hash_text(items[j].id());
            let before: Option<usize> = match index.last.get(&h) {
                Some(i) => Some(*i),
                None => None,
            };
            let ghost old_last = index.last@;
            let ghost old_previous = index.previous@;
            index.previous.push(before);
            index.last.insert(h, j);
            proof {
                assert(key_at(items@, j as int) == h);
                assert forall|g: u64| #[trigger]
                    index.last@.contains_key(g) implies index.last@[g] < j + 1 && key_at(
                    items@,
                    index.last@[g] as int,
                ) == g by {
                    if g != h {
                        assert(old_last.contains_key(g));
                    }
                }
                assert forall|k: int| 0 <= k < j + 1 implies index.last@.contains_key(
                    #[trigger] key_at(items@, k),
                ) && k <= index.last@[key_at(items@, k)] by {
                    if k < j && key_at(items@, k) != h {
                        assert(old_last.contains_key(key_at(items@, k)));
                    }
                }
                assert forall|a: int, k: int|
                    0 <= a < j + 1 && 0 <= k < a && #[trigger] key_at(items@, k)
                        == #[trigger] key_at(items@, a) implies (index.previous@[a] matches Some(
                    i,
                ) && k <= i) by {
                    if a < j {
                        assert(index.previous@[a] == old_previous[a]);
                    } else {
                        assert(old_last.contains_key(key_at(items@, k)));
                    }
                }
                assert forall|a: int| 0 <= a < j + 1 implies ((
                #[trigger] index.previous@[a]) matches Some(i) ==> i < a && key_at(
                    items@,
                    i as int,
                ) == key_at(items@, a)) by {
                    if a < j {
                        assert(index.previous@[a] == old_previous[a]);
                    }
                }
            }
            j = j + 1;
        }
        index
    }

    /// The last position of `items` that carries the identifier `id`, if
    /// any.
    pub fn find_last<T: Identified>(&self, items: &Vec<T>, id: &String) -> (found: Option<usize>)
        requires
            self.indexes(items@),
        ensures
            found matches Some(j) ==> j < items@.len() && last_position(items@, id@) == Some(
                j as int,
            ),
            found is None ==> last_position(items@, id@) is None,
    {
        broadcast use vstd::std_specs::hash::group_hash_axioms;

        let h = hash_text(id);
        let mut cursor: Option<usize> = match self.last.get(&h) {
            Some(i) => Some(*i),
            None => None,
        };
        proof {
            assert forall|k: int|
                0 <= k < items@.len() && (#[trigger] items@[k]).spec_id() == id@ implies (
            cursor matches Some(c) && k <= c) by {
                assert(key_at(items@, k) == h);
            }
        }
        while cursor.is_some()
            invariant
                self.indexes(items@),
                h == spec_hash(id@),
                cursor matches Some(c) ==> c < items@.len() && key_at(items@, c as int) == h,
                forall|k: int|
                    0 <= k < items@.len() && (#[trigger] items@[k]).spec_id() == id@ ==> (
                    cursor matches Some(c) && k <= c),
            decreases
                    (match cursor {
                        Some(c) => c + 1,
                        None => 0,
                    }),
        {
            let c = cursor.unwrap();
            if *items[c].id() == *id {
                proof {
                    lemma_last_position_is(items@, id@, Some(c as int));
                }
                return Some(c);
            }
            let next = self.previous[c];
            proof {
                assert forall|k: int|
                    0 <= k < items@.len() && (#[trigger] items@[k]).spec_id() == id@ implies (
                next matches Some(i) && k <= i) by {
                    assert(key_at(items@, k) == key_at(items@, c as int));
                    assert(k < c);
                }
            }
            cursor = next;
        }
        proof {
            lemma_last_position_is(items@, id@, None);
        }
        None
    }
}

} // verus!
