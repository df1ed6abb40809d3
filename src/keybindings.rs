use vstd::prelude::*;

use crate::action::{
    action_at, action_index, action_name, action_named, default_keys, lemma_action_order, Action,
    ACTION_COUNT,
};
use crate::key::{key_label, Key};

verus! {

/// The keys of `s` with every repeat dropped: the first occurrence of each key
/// stays, and the order of `s` is kept.
pub open spec fn dedup_keys(s: Seq<Key>) -> Seq<Key>
    decreases s.len(),
{
    if s.len() == 0 {
        s
    } else {
        let d = dedup_keys(s.drop_last());
        if d.contains(s.last()) {
            d
        } else {
            d.push(s.last())
        }
    }
}

/// `r` is what key `k` resolves to in the key lists `t`: the first action, in
/// priority order, whose list holds `k`, or nothing when no list holds it.
pub open spec fn resolves_to(t: Seq<Seq<Key>>, k: Key, r: Option<Action>) -> bool {
    match r {
        Some(a) => {
            &&& t[action_index(a)].contains(k)
            &&& forall|j: int| 0 <= j < action_index(a) ==> !(#[trigger] t[j]).contains(k)
        },
        None => forall|j: int| 0 <= j < t.len() ==> !(#[trigger] t[j]).contains(k),
    }
}

/// The factory key lists, in priority order.
pub open spec fn default_table() -> Seq<Seq<Key>> {
    Seq::new(ACTION_COUNT as nat, |i: int| default_keys(action_at(i)))
}

/// The labels of the keys of `s`, each followed by a space.
pub open spec fn joined_labels(s: Seq<Key>) -> Seq<char>
    decreases s.len(),
{
    if s.len() == 0 {
        Seq::empty()
    } else {
        joined_labels(s.drop_last()) + key_label(s.last()) + " "@
    }
}

pub proof fn lemma_dedup_keys(s: Seq<Key>)
    ensures
        dedup_keys(s).no_duplicates(),
        forall|k: Key| dedup_keys(s).contains(k) <==> s.contains(k),
    decreases s.len(),
{
    if s.len() > 0 {
        let p = s.drop_last();
        lemma_dedup_keys(p);
        assert forall|k: Key| s.contains(k) <==> p.contains(k) || k == s.last() by {
            if s.contains(k) && k != s.last() {
                let i = choose|i: int| 0 <= i < s.len() && s[i] == k;
                assert(p[i] == k);
            }
            if p.contains(k) {
                let i = choose|i: int| 0 <= i < p.len() && p[i] == k;
                assert(s[i] == k);
            }
            if k == s.last() {
                assert(s[s.len() - 1] == k);
            }
        }
        let d = dedup_keys(p);
        if !d.contains(s.last()) {
            let e = d.push(s.last());
            assert forall|k: Key| e.contains(k) <==> d.contains(k) || k == s.last() by {
                if e.contains(k) && k != s.last() {
                    let i = choose|i: int| 0 <= i < e.len() && e[i] == k;
                    assert(d[i] == k);
                }
                if d.contains(k) {
                    let i = choose|i: int| 0 <= i < d.len() && d[i] == k;
                    assert(e[i] == k);
                }
                if k == s.last() {
                    assert(e[e.len() - 1] == k);
                }
            }
            assert forall|i: int, j: int| 0 <= i < e.len() && 0 <= j < e.len() && i != j implies e[i]
                != e[j] by {
                if i == e.len() - 1 {
                    assert(d.contains(e[j]));
                } else if j == e.len() - 1 {
                    assert(d.contains(e[i]));
                }
            }
        }
    }
}

/// Resolution is a function of the table and the key: two answers that both
/// meet its description are the same answer.
pub proof fn lemma_resolve_deterministic(t: Seq<Seq<Key>>, k: Key, a: Option<Action>, b: Option<Action>)
    requires
        t.len() == ACTION_COUNT,
        resolves_to(t, k, a),
        resolves_to(t, k, b),
    ensures
        a == b,
{
    match (a, b) {
        (Some(x), Some(y)) => {
            lemma_action_order(x, 0);
            lemma_action_order(y, 0);
            if action_index(x) < action_index(y) {
                assert(!t[action_index(x)].contains(k));
            } else if action_index(y) < action_index(x) {
                assert(!t[action_index(y)].contains(k));
            }
        },
        (Some(x), None) => {
            lemma_action_order(x, 0);
            assert(!t[action_index(x)].contains(k));
        },
        (None, Some(y)) => {
            lemma_action_order(y, 0);
            assert(!t[action_index(y)].contains(k));
        },
        (None, None) => {},
    }
}

/// Whether `k` is among `keys`.
fn keys_contain(keys: &Vec<Key>, k: Key) -> (r: bool)
    ensures
        r == keys@.contains(k),
{
    let mut i: usize = 0;
    while i < keys.len()
        invariant
            i <= keys@.len(),
            forall|j: int| 0 <= j < i ==> keys@[j] != k,
        decreases keys@.len() - i,
    {
        if keys[i] == k {
            return true;
        }
        i = i + 1;
    }
    false
}

/// `keys` with every repeated key dropped, first occurrences kept in order.
pub fn dedup_key_list(keys: Vec<Key>) -> (r: Vec<Key>)
    ensures
        r@ == dedup_keys(keys@),
        r@.no_duplicates(),
{
    let mut out: Vec<Key> = Vec::new();
    let mut i: usize = 0;
    while i < keys.len()
        invariant
            i <= keys@.len(),
            out@ == dedup_keys(keys@.subrange(0, i as int)),
        decreases keys@.len() - i,
    {
        let k = keys[i];
        proof {
            let p = keys@.subrange(0, i + 1);
            assert(p.drop_last() =~= keys@.subrange(0, i as int));
            assert(p.last() == k);
        }
        if !keys_contain(&out, k) {
            out.push(k);
        }
        i = i + 1;
    }
    proof {
        assert(keys@.subrange(0, keys@.len() as int) =~= keys@);
        lemma_dedup_keys(keys@);
    }
    out
}

/// The bracketed labels of `keys`, each followed by a space.
fn join_labels(keys: &Vec<Key>) -> (r: String)
    ensures
        r@ == joined_labels(keys@),
{
    let mut out = String::new();
    let mut i: usize = 0;
    assert(out@ =~= joined_labels(keys@.subrange(0, 0)));
    while i < keys.len()
        invariant
            i <= keys@.len(),
            out@ == joined_labels(keys@.subrange(0, i as int)),
        decreases keys@.len() - i,
    {
        let label = keys[i].to_display_string();
        proof {
            let p = keys@.subrange(0, i + 1);
            assert(p.drop_last() =~= keys@.subrange(0, i as int));
            assert(p.last() == keys@[i as int]);
        }
        out.append(label.as_str());
        out.append(" ");
        i = i + 1;
    }
    proof {
        assert(keys@.subrange(0, keys@.len() as int) =~= keys@);
    }
    out
}

fn copy_keys(keys: &Vec<Key>) -> (r: Vec<Key>)
    ensures
        r@ == keys@,
{
    let mut out: Vec<Key> = Vec::new();
    let mut i: usize = 0;
    while i < keys.len()
        invariant
            i <= keys@.len(),
            out@ == keys@.subrange(0, i as int),
        decreases keys@.len() - i,
    {
        out.push(keys[i]);
        assert(out@ =~= keys@.subrange(0, i + 1));
        i = i + 1;
    }
    assert(out@ =~= keys@);
    out
}

/// The table that binds each action to an ordered list of keys. No list holds
/// the same key twice; one key may be bound to several actions, in which case
/// the action that comes first in priority order wins.
#[derive(Debug)]
pub struct KeyBindings {
    lists: Vec<Vec<Key>>,
}

impl View for KeyBindings {
    type V = Seq<Seq<Key>>;

    closed spec fn view(&self) -> Seq<Seq<Key>> {
        self.lists@.map_values(|v: Vec<Key>| v@)
    }
}

impl KeyBindings {
    #[verifier::type_invariant]
    closed spec fn well_formed(self) -> bool {
        &&& self.lists@.len() == ACTION_COUNT
        &&& forall|i: int| 0 <= i < self.lists@.len() ==> (#[trigger] self.lists@[i])@.no_duplicates()
    }

    /// The action that `key` triggers, if any.
    pub fn key_to_action(&self, key: Key) -> (r: Option<Action>)
        ensures
            self@.len() == ACTION_COUNT,
            resolves_to(self@, key, r),
    {
        proof {
            use_type_invariant(self);
        }
        let mut i: usize = 0;
        while i < ACTION_COUNT
            invariant
                self.lists@.len() == ACTION_COUNT,
                forall|j: int| 0 <= j < i ==> !(#[trigger] self@[j]).contains(key),
            decreases ACTION_COUNT - i,
        {
            if keys_contain(&self.lists[i], key) {
                let a = Action::from_index(i);
                return Some(a);
            }
            i = i + 1;
        }
        None
    }

    /// The action with the identifier `action`, if any.
    pub fn str_to_action(&self, action: &str) -> (r: Option<Action>)
        ensures
            r == action_named(action@),
    {
        Action::from_name(action)
    }

    /// Replaces the keys of the action named `key` by `keybinding`, repeats
    /// dropped; a name that no action has leaves the table as it was.
    pub fn edit_keybinding(&mut self, key: &str, keybinding: Vec<Key>) -> (r: &mut Self)
        ensures
            r@.len() == ACTION_COUNT,
            match action_named(key@) {
                Some(a) => r@ == old(self)@.update(action_index(a), dedup_keys(keybinding@)),
                None => r@ == old(self)@,
            },
            *final(self) == *final(r),
    {
        proof {
            use_type_invariant(&*self);
        }
        let keys = dedup_key_list(keybinding);
        match Action::from_name(key) {
            Some(a) => self.replace_keys(a, keys),
            None => {},
        }
        self
    }

    fn replace_keys(&mut self, a: Action, keys: Vec<Key>)
        requires
            keys@.no_duplicates(),
        ensures
            final(self)@ == old(self)@.update(action_index(a), keys@),
    {
        proof {
            use_type_invariant(&*self);
        }
        let i = a.index();
        let mut lists: Vec<Vec<Key>> = Vec::new();
        let mut j: usize = 0;
        while j < ACTION_COUNT
            invariant
                self.lists@.len() == ACTION_COUNT,
                i == action_index(a),
                i < ACTION_COUNT,
                keys@.no_duplicates(),
                forall|k: int| 0 <= k < self.lists@.len() ==> (#[trigger] self.lists@[k])@.no_duplicates(),
                j <= ACTION_COUNT,
                lists@.len() == j,
                forall|k: int| 0 <= k < j ==> (#[trigger] lists@[k])@.no_duplicates(),
                forall|k: int|
                    0 <= k < j ==> (#[trigger] lists@[k])@ == old(self)@.update(i as int, keys@)[k],
            decreases ACTION_COUNT - j,
        {
            proof {
                assert(old(self)@[j as int] == self.lists@[j as int]@);
            }
            if j == i {
                lists.push(copy_keys(&keys));
            } else {
                lists.push(copy_keys(&self.lists[j]));
            }
            j = j + 1;
        }
        *self = KeyBindings { lists };
        assert(self@ =~= old(self)@.update(action_index(a), keys@));
    }

    /// The keys bound to the action named `action`, if there is one.
    pub fn get_keybinding(&self, action: &str) -> (r: Option<&Vec<Key>>)
        ensures
            self@.len() == ACTION_COUNT,
            match action_named(action@) {
                Some(a) => r.is_some() && r.unwrap()@ == self@[action_index(a)],
                None => r.is_none(),
            },
    {
        proof {
            use_type_invariant(self);
        }
        match Action::from_name(action) {
            Some(a) => Some(&self.lists[a.index()]),
            None => None,
        }
    }

    /// Restores the factory keys of the action named `action`; a name that no
    /// action has leaves the table as it was.
    pub fn reset_keybinding(&mut self, action: &str)
        ensures
            final(self)@.len() == ACTION_COUNT,
            match action_named(action@) {
                Some(a) => final(self)@ == old(self)@.update(action_index(a), default_keys(a)),
                None => final(self)@ == old(self)@,
            },
    {
        proof {
            use_type_invariant(&*self);
        }
        match Action::from_name(action) {
            Some(a) => self.replace_keys(a, a.default_keys()),
            None => {},
        }
    }

    /// Restores the factory keys of every action.
    pub fn reset_all(&mut self)
        ensures
            final(self)@.len() == ACTION_COUNT,
            final(self)@ == default_table(),
    {
        *self = KeyBindings::default();
    }

    /// Each action's identifier with its keys, in priority order.
    pub fn iter(&self) -> (r: Vec<(&'static str, Vec<Key>)>)
        ensures
            self@.len() == ACTION_COUNT,
            r@.len() == ACTION_COUNT,
            forall|i: int|
                0 <= i < ACTION_COUNT ==> (#[trigger] r@[i]).0@ == action_name(action_at(i))
                    && r@[i].1@ == self@[i],
    {
        proof {
            use_type_invariant(self);
        }
        let mut out: Vec<(&'static str, Vec<Key>)> = Vec::new();
        let mut i: usize = 0;
        while i < ACTION_COUNT
            invariant
                self.lists@.len() == ACTION_COUNT,
                i <= ACTION_COUNT,
                out@.len() == i,
                forall|j: int|
                    0 <= j < i ==> (#[trigger] out@[j]).0@ == action_name(action_at(j))
                        && out@[j].1@ == self@[j],
            decreases ACTION_COUNT - i,
        {
            let name = Action::from_index(i).name();
            out.push((name, copy_keys(&self.lists[i])));
            i = i + 1;
        }
        out
    }

    /// One row per action, in priority order: its identifier, and the labels
    /// of its keys, each followed by a space.
    pub fn to_display_rows(&self) -> (r: Vec<(String, String)>)
        ensures
            self@.len() == ACTION_COUNT,
            r@.len() == ACTION_COUNT,
            forall|i: int|
                0 <= i < ACTION_COUNT ==> (#[trigger] r@[i]).0@ == action_name(action_at(i))
                    && r@[i].1@ == joined_labels(self@[i]),
    {
        proof {
            use_type_invariant(self);
        }
        let mut out: Vec<(String, String)> = Vec::new();
        let mut i: usize = 0;
        while i < ACTION_COUNT
            invariant
                self.lists@.len() == ACTION_COUNT,
                i <= ACTION_COUNT,
                out@.len() == i,
                forall|j: int|
                    0 <= j < i ==> (#[trigger] out@[j]).0@ == action_name(action_at(j))
                        && out@[j].1@ == joined_labels(self@[j]),
            decreases ACTION_COUNT - i,
        {
            let name = String::from_str(Action::from_index(i).name());
            out.push((name, join_labels(&self.lists[i])));
            i = i + 1;
        }
        out
    }
}

impl Default for KeyBindings {
    fn default() -> (r: Self)
        ensures
            r@ == default_table(),
    {
        let mut lists: Vec<Vec<Key>> = Vec::new();
        let mut i: usize = 0;
        while i < ACTION_COUNT
            invariant
                i <= ACTION_COUNT,
                lists@.len() == i,
                forall|j: int|
                    0 <= j < i ==> (#[trigger] lists@[j])@ == default_keys(action_at(j))
                        && lists@[j]@.no_duplicates(),
            decreases ACTION_COUNT - i,
        {
            lists.push(Action::from_index(i).default_keys());
            i = i + 1;
        }
        let r = KeyBindings { lists };
        assert(r@ =~= default_table());
        r
    }
}

impl Clone for KeyBindings {
    fn clone(&self) -> (r: Self)
        ensures
            r@ == self@,
    {
        proof {
            use_type_invariant(self);
        }
        let mut lists: Vec<Vec<Key>> = Vec::new();
        let mut i: usize = 0;
        while i < ACTION_COUNT
            invariant
                self.lists@.len() == ACTION_COUNT,
                forall|k: int| 0 <= k < self.lists@.len() ==> (#[trigger] self.lists@[k])@.no_duplicates(),
                i <= ACTION_COUNT,
                lists@.len() == i,
                forall|k: int| 0 <= k < i ==> (#[trigger] lists@[k])@ == self@[k] && lists@[k]@.no_duplicates(),
            decreases ACTION_COUNT - i,
        {
            proof {
                assert(self@[i as int] == self.lists@[i as int]@);
            }
            lists.push(copy_keys(&self.lists[i]));
            i = i + 1;
        }
        let r = KeyBindings { lists };
        assert(r@ =~= self@);
        r
    }
}

} // verus!
