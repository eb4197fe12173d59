//! A trie over key sequences. Each node may carry a bound value and has one
//! child per key that continues a known sequence. Sequences are bound and
//! looked up with their keys in normal form, so a binding is found whichever
//! way shift and upper case were reported; the paths of the trie are
//! sequences of keys in that form.

use vstd::prelude::*;
use crate::key_event::{normal_keys, normalized_keys, KeyEvent};

verus! {

/// One node of the trie.
#[derive(Debug, PartialEq)]
pub struct KeyMapNode<T> {
    /// The value bound to the sequence that leads here, if any.
    pub action: Option<T>,
    /// The continuations, in the order they were added. The first entry with
    /// a given key is the child for that key.
    pub children: Vec<(KeyEvent, KeyMapNode<T>)>,
}

/// What one more key made of the pending sequence.
#[derive(Clone, Debug, PartialEq)]
pub enum KeyProcessingResult<T> {
    /// The sequence is bound to this value.
    Complete(T),
    /// The sequence is the start of a longer bound sequence.
    Incomplete,
    /// No bound sequence starts like this.
    Invalid,
}

/// The index of the first entry of a keyed list whose key is `key`, or the
/// length of the list where there is none. The trie finds the child for a
/// key this way, and a list of tries by mode finds the trie for a mode.
pub open spec fn first_match<K, V>(children: Seq<(K, V)>, key: K) -> int
    decreases children.len(),
{
    if children.len() == 0 {
        0
    } else if children[0].0 == key {
        0
    } else {
        1 + first_match(children.drop_first(), key)
    }
}

/// `first_match` is the one index with the key before which no entry has it.
pub proof fn lemma_first_match<K, V>(children: Seq<(K, V)>, key: K, i: int)
    requires
        0 <= i <= children.len(),
        i < children.len() ==> children[i].0 == key,
        forall|j: int| 0 <= j < i ==> (#[trigger] children[j]).0 != key,
    ensures
        first_match(children, key) == i,
    decreases children.len(),
{
    if children.len() > 0 && i > 0 {
        lemma_first_match(children.drop_first(), key, i - 1);
    }
}

/// `first_match` lies within the bounds, names an entry with the key where
/// it names one, and no earlier entry has the key.
pub proof fn lemma_first_match_bounds<K, V>(children: Seq<(K, V)>, key: K)
    ensures
        0 <= first_match(children, key) <= children.len(),
        first_match(children, key) < children.len() ==> children[first_match(children, key)].0
            == key,
        forall|j: int|
            0 <= j < first_match(children, key) ==> (#[trigger] children[j]).0 != key,
    decreases children.len(),
{
    if children.len() > 0 && children[0].0 != key {
        let rest = children.drop_first();
        lemma_first_match_bounds(rest, key);
        assert forall|j: int| 0 <= j < first_match(children, key) implies (#[trigger] children[j]).0
            != key by {
            if j > 0 {
                assert(rest[j - 1] == children[j]);
            }
        }
    }
}

/// Adding an entry at the end keeps every earlier match; a key that had no
/// match gets the new entry if the keys agree.
pub proof fn lemma_first_match_push<K, V>(children: Seq<(K, V)>, entry: (K, V), key: K)
    ensures
        first_match(children.push(entry), key) == if first_match(children, key) < children.len() {
            first_match(children, key)
        } else if entry.0 == key {
            children.len() as int
        } else {
            children.len() as int + 1
        },
{
    lemma_first_match_bounds(children, key);
    let longer = children.push(entry);
    let i = first_match(children, key);
    if i < children.len() {
        lemma_first_match(longer, key, i);
    } else if entry.0 == key {
        lemma_first_match(longer, key, children.len() as int);
    } else {
        lemma_first_match(longer, key, longer.len() as int);
    }
}

/// Replacing the node of an entry, with its key kept, moves no match.
pub proof fn lemma_first_match_replace<K, V>(children: Seq<(K, V)>, i: int, node: V, key: K)
    requires
        0 <= i < children.len(),
    ensures
        first_match(children.update(i, (children[i].0, node)), key) == first_match(children, key),
{
    lemma_first_match_bounds(children, key);
    lemma_first_match(children.update(i, (children[i].0, node)), key, first_match(children, key));
}

/// A path that starts with the first key of a non-empty sequence is a prefix
/// of it exactly when its rest is a prefix of the sequence's rest.
pub proof fn lemma_prefix_step(path: Seq<KeyEvent>, whole: Seq<KeyEvent>)
    requires
        path.len() > 0,
        whole.len() > 0,
    ensures
        path.is_prefix_of(whole) <==> path[0] == whole[0] && path.drop_first().is_prefix_of(
            whole.drop_first(),
        ),
        path == whole <==> path[0] == whole[0] && path.drop_first() == whole.drop_first(),
{
    let p = path.drop_first();
    let w = whole.drop_first();
    if path[0] == whole[0] && p.is_prefix_of(w) {
        assert forall|j: int| 0 <= j < path.len() implies path[j] == whole.subrange(
            0,
            path.len() as int,
        )[j] by {
            if j > 0 {
                assert(p[j - 1] == w.subrange(0, p.len() as int)[j - 1]);
            }
        }
    }
    if path[0] == whole[0] && p == w {
        assert(path =~= whole);
    }
}

/// Two lists of children with the same keys at the same places have the
/// same first match for every key.
pub proof fn lemma_first_match_same_keys<K, V>(left: Seq<(K, V)>, right: Seq<(K, V)>, key: K)
    requires
        left.len() == right.len(),
        forall|j: int| 0 <= j < left.len() ==> (#[trigger] left[j]).0 == right[j].0,
    ensures
        first_match(left, key) == first_match(right, key),
{
    lemma_first_match_bounds(right, key);
    lemma_first_match(left, key, first_match(right, key));
}

impl<T: Clone> KeyMapNode<T> {
    /// Whether `copy` has the paths of `self`, with a clone of each bound
    /// value bound to the same path.
    pub open spec fn copied_as(self, copy: KeyMapNode<T>) -> bool {
        &&& forall|path: Seq<KeyEvent>| #[trigger] copy.has(path) <==> self.has(path)
        &&& forall|path: Seq<KeyEvent>|
            match (self.bound(path), #[trigger] copy.bound(path)) {
                (Some(value), Some(cloned_value)) => cloned(value, cloned_value),
                (None, None) => true,
                _ => false,
            }
    }
}

impl<T: Clone> Clone for KeyMapNode<T> {
    /// A trie with the same paths and a clone of each bound value.
    fn clone(&self) -> (copy: Self)
        ensures
            self.copied_as(copy),
        decreases self,
    {
        let mut children: Vec<(KeyEvent, KeyMapNode<T>)> = Vec::new();
        let mut i: usize = 0;
        while i < self.children.len()
            invariant
                i <= self.children@.len(),
                children@.len() == i,
                forall|j: int|
                    0 <= j < i ==> (#[trigger] children@[j]).0 == self.children@[j].0
                        && self.children@[j].1.copied_as(children@[j].1),
            decreases self.children@.len() - i,
        {
            let child = &self.children[i];
            children.push((child.0, child.1.clone()));
            i += 1;
        }
        let copy = KeyMapNode { action: self.action.clone(), children };
        proof {
            assert forall|path: Seq<KeyEvent>|
                #![trigger copy.has(path)]
                #![trigger copy.bound(path)]
                (copy.has(path) <==> self.has(path)) && match (
                    self.bound(path),
                    copy.bound(path),
                ) {
                    (Some(value), Some(cloned_value)) => cloned(value, cloned_value),
                    (None, None) => true,
                    _ => false,
                } by {
                if path.len() > 0 {
                    lemma_first_match_same_keys(copy.children@, self.children@, path[0]);
                    let m = first_match(self.children@, path[0]);
                    lemma_first_match_bounds(self.children@, path[0]);
                    if m < self.children@.len() {
                        let rest = path.drop_first();
                        assert(copy.children@[m].1.has(rest) <==> self.children@[m].1.has(rest));
                        assert(match (
                            self.children@[m].1.bound(rest),
                            copy.children@[m].1.bound(rest),
                        ) {
                            (Some(value), Some(cloned_value)) => cloned(value, cloned_value),
                            (None, None) => true,
                            _ => false,
                        });
                    }
                }
            }
        }
        copy
    }
}

impl<T> KeyMapNode<T> {
    /// The node reached from here along `path`, if the trie holds it.
    pub open spec fn descend(self, path: Seq<KeyEvent>) -> Option<KeyMapNode<T>>
        decreases path.len(),
    {
        if path.len() == 0 {
            Some(self)
        } else {
            let i = first_match(self.children@, path[0]);
            if i < self.children@.len() {
                self.children@[i].1.descend(path.drop_first())
            } else {
                None
            }
        }
    }

    /// Whether `path` leads to a node: it is a bound sequence or the start
    /// of one.
    pub open spec fn has(self, path: Seq<KeyEvent>) -> bool {
        self.descend(path) is Some
    }

    /// The value bound to exactly `path`, if any.
    pub open spec fn bound(self, path: Seq<KeyEvent>) -> Option<T> {
        match self.descend(path) {
            Some(node) => node.action,
            None => None,
        }
    }

    /// What the trie makes of `sequence`: the value bound to it, a path
    /// with nothing bound at its end, or no path at all.
    pub open spec fn resolve(self, sequence: Seq<KeyEvent>) -> KeyProcessingResult<T> {
        match self.descend(sequence) {
            Some(node) => match node.action {
                Some(action) => KeyProcessingResult::Complete(action),
                None => KeyProcessingResult::Incomplete,
            },
            None => KeyProcessingResult::Invalid,
        }
    }

    /// A trie that holds only its root, with nothing bound.
    pub fn new() -> (node: Self)
        ensures
            node.action is None,
            node.children@.len() == 0,
            forall|path: Seq<KeyEvent>| #[trigger] node.has(path) <==> path.len() == 0,
            forall|path: Seq<KeyEvent>| #[trigger] node.bound(path) is None,
    {
        KeyMapNode { action: None, children: Vec::new() }
    }

    /// The position of the child for `key`, or the number of children where
    /// no child has that key.
    fn find(&self, key: KeyEvent) -> (i: usize)
        ensures
            i == first_match(self.children@, key),
            i <= self.children@.len(),
    {
        let mut i: usize = 0;
        while i < self.children.len()
            invariant
                i <= self.children@.len(),
                forall|j: int| 0 <= j < i ==> (#[trigger] self.children@[j]).0 != key,
            decreases self.children@.len() - i,
        {
            if self.children[i].0 == key {
                proof {
                    lemma_first_match(self.children@, key, i as int);
                }
                return i;
            }
            i += 1;
        }
        proof {
            lemma_first_match(self.children@, key, i as int);
        }
        i
    }

    /// Binds `action` to the keys of `sequence` from position `start` on,
    /// as seen from this node.
    fn insert_from(&mut self, sequence: &Vec<KeyEvent>, start: usize, action: T)
        requires
            start <= sequence@.len(),
        ensures
            forall|path: Seq<KeyEvent>| #[trigger]
                final(self).has(path) <==> old(self).has(path) || path.is_prefix_of(
                    sequence@.skip(start as int),
                ),
            forall|path: Seq<KeyEvent>| #[trigger]
                final(self).bound(path) == if path == sequence@.skip(start as int) {
                    Some(action)
                } else {
                    old(self).bound(path)
                },
        decreases sequence@.len() - start,
    {
        let ghost tail = sequence@.skip(start as int);
        if start == sequence.len() {
            self.action = Some(action);
            proof {
                assert forall|path: Seq<KeyEvent>| #[trigger]
                    self.bound(path) == if path == tail {
                        Some(action)
                    } else {
                        old(self).bound(path)
                    } by {
                    if path.len() == 0 {
                        assert(path =~= tail);
                    }
                }
            }
            return ;
        }
        let key = sequence[start];
        let i = self.find(key);
        if i == self.children.len() {
            self.children.push((key, KeyMapNode::new()));
        }
        let ghost before = *old(self);
        let ghost mid = *self;
        self.children[i].1.insert_from(sequence, start + 1, action);
        proof {
            let child_mid = mid.children@[i as int].1;
            let child = self.children@[i as int].1;
            let rest = sequence@.skip(start + 1);
            assert(tail.drop_first() =~= rest);
            lemma_first_match_bounds(before.children@, key);
            assert forall|path: Seq<KeyEvent>|
                #![trigger self.has(path)]
                #![trigger self.bound(path)]
                (self.has(path) <==> before.has(path) || path.is_prefix_of(tail)) && self.bound(
                    path,
                ) == if path == tail {
                    Some(action)
                } else {
                    before.bound(path)
                } by {
                if path.len() > 0 {
                    let q = path.drop_first();
                    lemma_prefix_step(path, tail);
                    lemma_first_match_push(before.children@, (key, child_mid), path[0]);
                    lemma_first_match_replace(mid.children@, i as int, child, path[0]);
                    lemma_first_match_bounds(before.children@, path[0]);
                    if path[0] == key {
                        assert(child.has(q) <==> child_mid.has(q) || q.is_prefix_of(rest));
                        assert(child.bound(q) == if q == rest {
                            Some(action)
                        } else {
                            child_mid.bound(q)
                        });
                    }
                }
            }
        }
    }

    /// Binds `action` to `sequence`, adding the nodes that the path lacks.
    /// The keys are taken in their normal form. Every start of the sequence
    /// becomes a path of the trie; a value bound to the sequence before is
    /// replaced, and no other binding changes.
    pub fn add_sequence(&mut self, sequence: Vec<KeyEvent>, action: T)
        ensures
            forall|path: Seq<KeyEvent>| #[trigger]
                final(self).has(path) <==> old(self).has(path) || path.is_prefix_of(
                    normal_keys(sequence@),
                ),
            forall|path: Seq<KeyEvent>| #[trigger]
                final(self).bound(path) == if path == normal_keys(sequence@) {
                    Some(action)
                } else {
                    old(self).bound(path)
                },
    {
        let normal = normalized_keys(&sequence);
        assert(normal@.skip(0) =~= normal@);
        self.insert_from(&normal, 0, action);
    }

    /// The node that `sequence` leads to, its keys taken in their normal
    /// form, or `None` where the trie holds no such path.
    pub fn get_node(&self, sequence: &Vec<KeyEvent>) -> (node: Option<&KeyMapNode<T>>)
        ensures
            match node {
                Some(found) => self.descend(normal_keys(sequence@)) == Some(*found),
                None => self.descend(normal_keys(sequence@)) is None,
            },
    {
        let ghost path = normal_keys(sequence@);
        let mut node = self;
        let mut i: usize = 0;
        assert(path.skip(0) =~= path);
        while i < sequence.len()
            invariant
                i <= sequence@.len(),
                path == normal_keys(sequence@),
                self.descend(path) == node.descend(path.skip(i as int)),
            decreases sequence@.len() - i,
        {
            let j = node.find(sequence[i].normalize_case());
            proof {
                assert(path.skip(i as int).drop_first() =~= path.skip(i + 1));
            }
            if j == node.children.len() {
                return None;
            }
            node = &node.children[j].1;
            i += 1;
        }
        Some(node)
    }
}

} // verus!
