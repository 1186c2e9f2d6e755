use vstd::prelude::*;

verus! {

/// An item stored under a query type id and a key.
pub struct Keyed<T> {
    pub type_id: u64,
    pub key: u64,
    pub item: T,
}

/// The item at index `i` of `s` is stored under `p`.
pub open spec fn holds<T>(s: Seq<Keyed<T>>, i: int, p: (u64, u64)) -> bool {
    0 <= i < s.len() && s[i].type_id == p.0 && s[i].key == p.1
}

/// No two items of `s` are stored under the same type id and key.
pub open spec fn unique<T>(s: Seq<Keyed<T>>) -> bool {
    forall|i: int, j: int|
        0 <= i < s.len() && 0 <= j < s.len() && #[trigger] s[i].type_id == #[trigger] s[j].type_id
            && s[i].key == s[j].key ==> i == j
}

/// What `s` stores, as a map from (type id, key) to item.
pub open spec fn keyed_map<T>(s: Seq<Keyed<T>>) -> Map<(u64, u64), T> {
    Map::new(
        |p: (u64, u64)| exists|i: int| holds(s, i, p),
        |p: (u64, u64)| s[choose|i: int| holds(s, i, p)].item,
    )
}

pub proof fn lemma_keyed_index<T>(s: Seq<Keyed<T>>, i: int)
    requires
        unique(s),
        0 <= i < s.len(),
    ensures
        keyed_map(s).contains_key((s[i].type_id, s[i].key)),
        keyed_map(s)[(s[i].type_id, s[i].key)] == s[i].item,
{
    let p = (s[i].type_id, s[i].key);
    assert(holds(s, i, p));
    let c = choose|c: int| holds(s, c, p);
    assert(s[c].type_id == s[i].type_id);
}

pub proof fn lemma_keyed_push<T>(s: Seq<Keyed<T>>, x: Keyed<T>)
    requires
        unique(s),
        !keyed_map(s).contains_key((x.type_id, x.key)),
    ensures
        unique(s.push(x)),
        keyed_map(s.push(x)) == keyed_map(s).insert((x.type_id, x.key), x.item),
{
    let t = s.push(x);
    let px = (x.type_id, x.key);
    assert forall|i: int| 0 <= i < s.len() implies !(s[i].type_id == x.type_id && s[i].key == x.key) by {
        if s[i].type_id == x.type_id && s[i].key == x.key {
            assert(holds(s, i, px));
        }
    }
    assert(unique(t)) by {
        assert forall|i: int, j: int|
            0 <= i < t.len() && 0 <= j < t.len() && #[trigger] t[i].type_id == #[trigger] t[j].type_id
                && t[i].key == t[j].key implies i == j by {
            if i < s.len() && j < s.len() {
                assert(s[i].type_id == s[j].type_id);
            }
        }
    }
    let m = keyed_map(s).insert(px, x.item);
    assert forall|p: (u64, u64)| #[trigger] keyed_map(t).contains_key(p) == m.contains_key(p) by {
        if m.contains_key(p) && p != px {
            let i = choose|i: int| holds(s, i, p);
            assert(holds(t, i, p));
        }
        if keyed_map(t).contains_key(p) && p != px {
            let i = choose|i: int| holds(t, i, p);
            assert(holds(s, i, p));
        }
        if p == px {
            assert(holds(t, s.len() as int, p));
        }
    }
    assert forall|p: (u64, u64)| #[trigger] keyed_map(t).contains_key(p) implies keyed_map(t)[p] == m[p] by {
        let i = choose|i: int| holds(t, i, p);
        lemma_keyed_index(t, i);
        if i < s.len() {
            lemma_keyed_index(s, i);
        }
    }
    assert(keyed_map(t) =~= m);
}

pub proof fn lemma_keyed_update<T>(s: Seq<Keyed<T>>, i: int, x: Keyed<T>)
    requires
        unique(s),
        0 <= i < s.len(),
        x.type_id == s[i].type_id,
        x.key == s[i].key,
    ensures
        unique(s.update(i, x)),
        keyed_map(s.update(i, x)) == keyed_map(s).insert((x.type_id, x.key), x.item),
{
    let t = s.update(i, x);
    let px = (x.type_id, x.key);
    assert(unique(t)) by {
        assert forall|a: int, b: int|
            0 <= a < t.len() && 0 <= b < t.len() && #[trigger] t[a].type_id == #[trigger] t[b].type_id
                && t[a].key == t[b].key implies a == b by {
            assert(s[a].type_id == s[b].type_id);
        }
    }
    let m = keyed_map(s).insert(px, x.item);
    assert forall|p: (u64, u64)| #[trigger] keyed_map(t).contains_key(p) == m.contains_key(p) by {
        if m.contains_key(p) && p != px {
            let j = choose|j: int| holds(s, j, p);
            assert(holds(t, j, p));
        }
        if keyed_map(t).contains_key(p) && p != px {
            let j = choose|j: int| holds(t, j, p);
            assert(holds(s, j, p));
        }
        if p == px {
            assert(holds(t, i, p));
        }
    }
    assert forall|p: (u64, u64)| #[trigger] keyed_map(t).contains_key(p) implies keyed_map(t)[p] == m[p] by {
        let j = choose|j: int| holds(t, j, p);
        lemma_keyed_index(t, j);
        if j != i {
            lemma_keyed_index(s, j);
        }
    }
    assert(keyed_map(t) =~= m);
}

pub proof fn lemma_keyed_remove<T>(s: Seq<Keyed<T>>, i: int)
    requires
        unique(s),
        0 <= i < s.len(),
    ensures
        unique(s.remove(i)),
        keyed_map(s.remove(i)) == keyed_map(s).remove((s[i].type_id, s[i].key)),
{
    let t = s.remove(i);
    let pi = (s[i].type_id, s[i].key);
    assert(unique(t)) by {
        assert forall|a: int, b: int|
            0 <= a < t.len() && 0 <= b < t.len() && #[trigger] t[a].type_id == #[trigger] t[b].type_id
                && t[a].key == t[b].key implies a == b by {
            let a2 = if a < i { a } else { a + 1 };
            let b2 = if b < i { b } else { b + 1 };
            assert(t[a] == s[a2]);
            assert(t[b] == s[b2]);
            assert(s[a2].type_id == s[b2].type_id);
        }
    }
    let m = keyed_map(s).remove(pi);
    assert forall|p: (u64, u64)| #[trigger] keyed_map(t).contains_key(p) == m.contains_key(p) by {
        if m.contains_key(p) {
            let j = choose|j: int| holds(s, j, p);
            assert(j != i);
            let j2 = if j < i { j } else { j - 1 };
            assert(t[j2] == s[j]);
            assert(holds(t, j2, p));
        }
        if keyed_map(t).contains_key(p) {
            let j = choose|j: int| holds(t, j, p);
            let j2 = if j < i { j } else { j + 1 };
            assert(t[j] == s[j2]);
            assert(holds(s, j2, p));
            assert(j2 != i);
        }
    }
    assert forall|p: (u64, u64)| #[trigger] keyed_map(t).contains_key(p) implies keyed_map(t)[p] == m[p] by {
        let j = choose|j: int| holds(t, j, p);
        let j2 = if j < i { j } else { j + 1 };
        assert(t[j] == s[j2]);
        lemma_keyed_index(t, j);
        lemma_keyed_index(s, j2);
    }
    assert(keyed_map(t) =~= m);
}

/// The index of the item stored under `(type_id, key)`, if there is one.
pub fn find<T>(v: &Vec<Keyed<T>>, type_id: u64, key: u64) -> (r: Option<usize>)
    requires
        unique(v@),
    ensures
        match r {
            Some(i) => holds(v@, i as int, (type_id, key)),
            None => !keyed_map(v@).contains_key((type_id, key)),
        },
{
    let mut i: usize = 0;
    while i < v.len()
        invariant
            i <= v.len(),
            forall|j: int| 0 <= j < i ==> !holds(v@, j, (type_id, key)),
        decreases v.len() - i,
    {
        if v[i].type_id == type_id && v[i].key == key {
            return Some(i);
        }
        i = i + 1;
    }
    None
}

} // verus!
