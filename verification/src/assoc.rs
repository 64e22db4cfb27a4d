//! String-keyed association sequences: the shared model behind the
//! vault's name index and a material's named properties and textures.
//! Lookup is first-match, scanning left to right.

use vstd::prelude::*;

verus! {

/// Value of the first entry whose key reads `name`.
pub open spec fn assoc_find<V>(s: Seq<(String, V)>, name: Seq<char>) -> Option<V>
    decreases s.len(),
{
    if s.len() == 0 {
        None
    } else if s[0].0@ == name {
        Some(s[0].1)
    } else {
        assoc_find(s.drop_first(), name)
    }
}

pub proof fn lemma_assoc_absent<V>(s: Seq<(String, V)>, name: Seq<char>)
    requires
        forall|k: int| 0 <= k < s.len() ==> (#[trigger] s[k]).0@ != name,
    ensures
        assoc_find(s, name) is None,
    decreases s.len(),
{
    if s.len() > 0 {
        lemma_assoc_absent(s.drop_first(), name);
    }
}

pub proof fn lemma_assoc_present<V>(s: Seq<(String, V)>, name: Seq<char>, k: int)
    requires
        0 <= k < s.len(),
        s[k].0@ == name,
        forall|j: int| 0 <= j < k ==> (#[trigger] s[j]).0@ != name,
    ensures
        assoc_find(s, name) == Some(s[k].1),
    decreases s.len(),
{
    if k > 0 {
        lemma_assoc_present(s.drop_first(), name, k - 1);
    }
}

pub proof fn lemma_assoc_push<V>(s: Seq<(String, V)>, p: (String, V), name: Seq<char>)
    ensures
        assoc_find(s, name) is Some ==> assoc_find(s.push(p), name) == assoc_find(s, name),
        assoc_find(s, name) is None && p.0@ == name ==> assoc_find(s.push(p), name) == Some(p.1),
        assoc_find(s, name) is None && p.0@ != name ==> assoc_find(s.push(p), name) is None,
    decreases s.len(),
{
    if s.len() == 0 {
        assert(s.push(p)[0] == p);
        assert(s.push(p).drop_first() =~= Seq::<(String, V)>::empty());
        assert(assoc_find(s.push(p).drop_first(), name) is None);
    } else {
        assert(s.push(p).drop_first() =~= s.drop_first().push(p));
        lemma_assoc_push(s.drop_first(), p, name);
    }
}

pub proof fn lemma_assoc_remove<V>(s: Seq<(String, V)>, k: int, name: Seq<char>)
    requires
        0 <= k < s.len(),
    ensures
        s[k].0@ != name ==> assoc_find(s.remove(k), name) == assoc_find(s, name),
        (s[k].0@ == name && forall|j: int|
            0 <= j < s.len() && j != k ==> (#[trigger] s[j]).0@ != name) ==> assoc_find(
            s.remove(k),
            name,
        ) is None,
    decreases s.len(),
{
    if k == 0 {
        assert(s.remove(0) =~= s.drop_first());
        if s[0].0@ == name && forall|j: int|
            0 <= j < s.len() && j != 0 ==> (#[trigger] s[j]).0@ != name {
            lemma_assoc_absent(s.drop_first(), name);
        }
    } else {
        assert(s.remove(k).drop_first() =~= s.drop_first().remove(k - 1));
        lemma_assoc_remove(s.drop_first(), k - 1, name);
    }
}

pub proof fn lemma_assoc_update<V>(s: Seq<(String, V)>, k: int, p: (String, V), name: Seq<char>)
    requires
        0 <= k < s.len(),
        s[k].0@ == name,
        p.0@ == name,
        forall|j: int| 0 <= j < k ==> (#[trigger] s[j]).0@ != name,
    ensures
        assoc_find(s.update(k, p), name) == Some(p.1),
        forall|n: Seq<char>| n != name ==> assoc_find(s.update(k, p), n) == assoc_find(s, n),
    decreases s.len(),
{
    if k == 0 {
        assert(s.update(0, p)[0] == p);
        assert(s.update(0, p).drop_first() =~= s.drop_first());
    } else {
        assert(s.update(k, p)[0] == s[0]);
        assert(s.update(k, p).drop_first() =~= s.drop_first().update(k - 1, p));
        lemma_assoc_update(s.drop_first(), k - 1, p, name);
        assert forall|n: Seq<char>| n != name implies assoc_find(s.update(k, p), n) == assoc_find(
            s,
            n,
        ) by {
            assert(assoc_find(s.drop_first().update(k - 1, p), n) == assoc_find(
                s.drop_first(),
                n,
            ));
        }
    }
}

} // verus!
