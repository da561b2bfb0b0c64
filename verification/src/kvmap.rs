//! Association lists of string keys and values.
//!
//! Cluster labels and template variables are carried as vectors of
//! `(key, value)` pairs. Their mathematical model is the finite map
//! [`map_of`], in which a later pair wins over an earlier pair with the
//! same key. [`merge`] layers several such lists into one list with
//! distinct keys, later layers taking precedence.

use vstd::prelude::*;

verus! {

/// The finite map denoted by an association list: a later pair with the
/// same key overrides an earlier one.
pub open spec fn map_of(s: Seq<(String, String)>) -> Map<Seq<char>, Seq<char>>
    decreases s.len(),
{
    if s.len() == 0 {
        Map::empty()
    } else {
        map_of(s.drop_last()).insert(s.last().0@, s.last().1@)
    }
}

/// No two pairs of the list carry the same key.
pub open spec fn distinct_keys(s: Seq<(String, String)>) -> bool {
    forall|i: int, j: int| 0 <= i < j < s.len() ==> s[i].0@ != s[j].0@
}

/// A key is in the map iff some pair of the list carries it.
pub proof fn lemma_map_of_contains(s: Seq<(String, String)>, k: Seq<char>)
    ensures
        map_of(s).contains_key(k) <==> exists|i: int| 0 <= i < s.len() && s[i].0@ == k,
    decreases s.len(),
{
    if s.len() > 0 {
        lemma_map_of_contains(s.drop_last(), k);
        if map_of(s).contains_key(k) {
            if s.last().0@ == k {
                assert(s[s.len() - 1].0@ == k);
            } else {
                let i = choose|i: int| 0 <= i < s.drop_last().len() && s.drop_last()[i].0@ == k;
                assert(s[i].0@ == k);
            }
        }
        if exists|i: int| 0 <= i < s.len() && s[i].0@ == k {
            let i = choose|i: int| 0 <= i < s.len() && s[i].0@ == k;
            if i < s.len() - 1 {
                assert(s.drop_last()[i].0@ == k);
            }
        }
    }
}

/// Appending a pair inserts its key into the map.
pub proof fn lemma_map_of_push(s: Seq<(String, String)>, p: (String, String))
    ensures
        map_of(s.push(p)) == map_of(s).insert(p.0@, p.1@),
{
    assert(s.push(p).drop_last() =~= s);
    assert(s.push(p).last() == p);
}

/// Removing the only pair that carries a key removes that key from the map.
pub proof fn lemma_map_of_remove(s: Seq<(String, String)>, j: int)
    requires
        distinct_keys(s),
        0 <= j < s.len(),
    ensures
        map_of(s.remove(j)) == map_of(s).remove(s[j].0@),
    decreases s.len(),
{
    let k = s[j].0@;
    if j == s.len() - 1 {
        assert(s.remove(j) =~= s.drop_last());
        lemma_map_of_contains(s.drop_last(), k);
        assert(forall|i: int| 0 <= i < s.drop_last().len() ==> s.drop_last()[i].0@ != k);
        assert(map_of(s.drop_last()).insert(k, s[j].1@).remove(k) =~= map_of(s.drop_last()));
    } else {
        assert(s.remove(j).drop_last() =~= s.drop_last().remove(j));
        assert(s.remove(j).last() == s.last());
        lemma_map_of_remove(s.drop_last(), j);
        assert(s.last().0@ != k);
        assert(map_of(s.drop_last()).remove(k).insert(s.last().0@, s.last().1@) =~= map_of(
            s.drop_last(),
        ).insert(s.last().0@, s.last().1@).remove(k));
    }
}

/// Looks a key up in an association list; the last pair with the key wins,
/// exactly as in the list's map model.
pub fn lookup<'a>(entries: &'a Vec<(String, String)>, key: &String) -> (r: Option<&'a String>)
    ensures
        match r {
            Some(v) => map_of(entries@).contains_key(key@) && map_of(entries@)[key@] == v@,
            None => !map_of(entries@).contains_key(key@),
        },
{
    let ghost full = entries@;
    let mut i: usize = entries.len();
    proof {
        assert(full.take(i as int) =~= full);
    }
    while i > 0
        invariant
            i <= entries@.len(),
            entries@ == full,
            map_of(full).contains_key(key@) == map_of(full.take(i as int)).contains_key(key@),
            map_of(full).contains_key(key@) ==> map_of(full.take(i as int))[key@] == map_of(
                full,
            )[key@],
        decreases i,
    {
        let pair = &entries[i - 1];
        proof {
            assert(full.take(i as int).drop_last() =~= full.take(i as int - 1));
            assert(full.take(i as int).last() == full[i as int - 1]);
        }
        if pair.0 == *key {
            return Some(&pair.1);
        }
        i = i - 1;
    }
    proof {
        assert(full.take(0) =~= Seq::<(String, String)>::empty());
    }
    None
}

/// The map denoted by layering the lists low-to-high: a later layer wins
/// on a key collision.
pub open spec fn spec_merge(layers: Seq<Seq<(String, String)>>) -> Map<Seq<char>, Seq<char>>
    decreases layers.len(),
{
    if layers.len() == 0 {
        Map::empty()
    } else {
        spec_merge(layers.drop_last()).union_prefer_right(map_of(layers.last()))
    }
}

/// Finds the position of a key in an association list.
fn find_key(entries: &Vec<(String, String)>, key: &String) -> (r: Option<usize>)
    ensures
        match r {
            Some(j) => j < entries@.len() && entries@[j as int].0@ == key@,
            None => forall|i: int| 0 <= i < entries@.len() ==> entries@[i].0@ != key@,
        },
{
    let mut i: usize = 0;
    while i < entries.len()
        invariant
            i <= entries@.len(),
            forall|j: int| 0 <= j < i ==> entries@[j].0@ != key@,
        decreases entries@.len() - i,
    {
        if entries[i].0 == *key {
            return Some(i);
        }
        i = i + 1;
    }
    None
}

/// Layers several variable mappings into one resolved mapping, applied
/// low-to-high precedence: on a key collision the later layer wins. The
/// result carries each key once.
pub fn merge(layers: &Vec<&Vec<(String, String)>>) -> (r: Vec<(String, String)>)
    ensures
        distinct_keys(r@),
        map_of(r@) == spec_merge(layers@.map_values(|l: &Vec<(String, String)>| l@)),
{
    let ghost lview = layers@.map_values(|l: &Vec<(String, String)>| l@);
    let mut acc: Vec<(String, String)> = Vec::new();
    let mut li: usize = 0;
    proof {
        assert(lview.take(0) =~= Seq::<Seq<(String, String)>>::empty());
    }
    while li < layers.len()
        invariant
            li <= layers@.len(),
            lview == layers@.map_values(|l: &Vec<(String, String)>| l@),
            distinct_keys(acc@),
            map_of(acc@) == spec_merge(lview.take(li as int)),
        decreases layers@.len() - li,
    {
        let layer = layers[li];
        let ghost m0 = map_of(acc@);
        let mut pi: usize = 0;
        proof {
            assert(layer@.take(0) =~= Seq::<(String, String)>::empty());
            assert(m0.union_prefer_right(map_of(layer@.take(0))) =~= m0);
        }
        while pi < layer.len()
            invariant
                pi <= layer@.len(),
                distinct_keys(acc@),
                map_of(acc@) == m0.union_prefer_right(map_of(layer@.take(pi as int))),
            decreases layer@.len() - pi,
        {
            let key = layer[pi].0.clone();
            let value = layer[pi].1.clone();
            let ghost before = acc@;
            match find_key(&acc, &key) {
                Some(j) => {
                    proof {
                        lemma_map_of_remove(before, j as int);
                    }
                    acc.remove(j);
                    proof {
                        assert forall|a: int, b: int|
                            0 <= a < b < acc@.len() implies acc@[a].0@ != acc@[b].0@ by {
                            assert(acc@[a] == if a < j { before[a] } else { before[a + 1] });
                            assert(acc@[b] == if b < j { before[b] } else { before[b + 1] });
                        }
                    }
                },
                None => {},
            }
            let ghost mid = acc@;
            proof {
                // after the removal (or when the key was absent) the key is
                // carried by no pair of `acc`
                lemma_map_of_contains(mid, key@);
                if exists|i: int| 0 <= i < mid.len() && mid[i].0@ == key@ {
                    let i = choose|i: int| 0 <= i < mid.len() && mid[i].0@ == key@;
                    assert(false);
                }
                lemma_map_of_push(mid, (key, value));
            }
            acc.push((key, value));
            proof {
                assert(distinct_keys(acc@)) by {
                    assert(forall|i: int| 0 <= i < mid.len() ==> mid[i].0@ != acc@[mid.len() as int].0@);
                }
                assert(layer@.take(pi as int + 1).drop_last() =~= layer@.take(pi as int));
                assert(layer@.take(pi as int + 1).last() == layer@[pi as int]);
                assert(map_of(acc@) =~= m0.union_prefer_right(
                    map_of(layer@.take(pi as int + 1)),
                ));
            }
            pi = pi + 1;
        }
        proof {
            assert(layer@.take(layer@.len() as int) =~= layer@);
            assert(lview.take(li as int + 1).drop_last() =~= lview.take(li as int));
            assert(lview.take(li as int + 1).last() == lview[li as int]);
            assert(lview[li as int] == layer@);
        }
        li = li + 1;
    }
    proof {
        assert(lview.take(lview.len() as int) =~= lview);
    }
    acc
}

} // verus!
