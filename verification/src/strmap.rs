use vstd::prelude::*;

verus! {

/// The view of a sequence of owned string pairs as pairs of character sequences.
pub open spec fn pair_views(s: Seq<(String, String)>) -> Seq<(Seq<char>, Seq<char>)> {
    s.map(|i: int, p: (String, String)| (p.0@, p.1@))
}

/// The mapping that a sequence of key/value pairs denotes when a later pair
/// with the same key overrides an earlier one.
pub open spec fn last_wins(ps: Seq<(Seq<char>, Seq<char>)>) -> Map<Seq<char>, Seq<char>>
    decreases ps.len(),
{
    if ps.len() == 0 {
        Map::empty()
    } else {
        last_wins(ps.drop_last()).insert(ps.last().0, ps.last().1)
    }
}

/// No two pairs share a key.
pub open spec fn distinct_keys(ps: Seq<(Seq<char>, Seq<char>)>) -> bool {
    forall|i: int, j: int| 0 <= i < j < ps.len() ==> ps[i].0 != ps[j].0
}

/// Appending a pair inserts its key.
pub proof fn lemma_last_wins_push(ps: Seq<(Seq<char>, Seq<char>)>, p: (Seq<char>, Seq<char>))
    ensures
        last_wins(ps.push(p)) == last_wins(ps).insert(p.0, p.1),
{
    assert(ps.push(p).drop_last() =~= ps);
    assert(ps.push(p).last() == p);
}

/// A key is in the mapping exactly when some pair carries it.
pub proof fn lemma_last_wins_dom(ps: Seq<(Seq<char>, Seq<char>)>, k: Seq<char>)
    ensures
        last_wins(ps).dom().contains(k) <==> exists|i: int| 0 <= i < ps.len() && ps[i].0 == k,
    decreases ps.len(),
{
    if ps.len() > 0 {
        lemma_last_wins_dom(ps.drop_last(), k);
        if ps.last().0 == k {
            assert(ps[ps.len() - 1].0 == k);
        } else if last_wins(ps).dom().contains(k) {
            let i = choose|i: int| 0 <= i < ps.drop_last().len() && ps.drop_last()[i].0 == k;
            assert(ps[i].0 == k);
        } else if exists|i: int| 0 <= i < ps.len() && ps[i].0 == k {
            let i = choose|i: int| 0 <= i < ps.len() && ps[i].0 == k;
            assert(ps.drop_last()[i].0 == k);
        }
    }
}

/// With distinct keys, the mapping sends each pair's key to that pair's value.
pub proof fn lemma_last_wins_index(ps: Seq<(Seq<char>, Seq<char>)>, i: int)
    requires
        distinct_keys(ps),
        0 <= i < ps.len(),
    ensures
        last_wins(ps).dom().contains(ps[i].0),
        last_wins(ps)[ps[i].0] == ps[i].1,
    decreases ps.len(),
{
    if i < ps.len() - 1 {
        assert(distinct_keys(ps.drop_last())) by {
            assert(forall|s: int, t: int|
                0 <= s < t < ps.drop_last().len() ==> ps.drop_last()[s].0 == ps[s].0
                    && ps.drop_last()[t].0 == ps[t].0);
        }
        assert(ps.drop_last()[i] == ps[i]);
        lemma_last_wins_index(ps.drop_last(), i);
        assert(ps[i].0 != ps.last().0);
    }
}

/// With distinct keys, overwriting one pair's value rewrites just that key.
pub proof fn lemma_last_wins_update(ps: Seq<(Seq<char>, Seq<char>)>, j: int, v: Seq<char>)
    requires
        distinct_keys(ps),
        0 <= j < ps.len(),
    ensures
        last_wins(ps.update(j, (ps[j].0, v))) == last_wins(ps).insert(ps[j].0, v),
    decreases ps.len(),
{
    let q = ps.update(j, (ps[j].0, v));
    if j == ps.len() - 1 {
        assert(q.drop_last() =~= ps.drop_last());
        assert(q.last() == (ps[j].0, v));
        assert(last_wins(ps.drop_last()).insert(ps[j].0, ps[j].1).insert(ps[j].0, v)
            =~= last_wins(ps.drop_last()).insert(ps[j].0, v));
    } else {
        assert(distinct_keys(ps.drop_last())) by {
            assert(forall|s: int, t: int|
                0 <= s < t < ps.drop_last().len() ==> ps.drop_last()[s].0 == ps[s].0
                    && ps.drop_last()[t].0 == ps[t].0);
        }
        lemma_last_wins_update(ps.drop_last(), j, v);
        assert(q.drop_last() =~= ps.drop_last().update(j, (ps[j].0, v)));
        assert(q.last() == ps.last());
        assert(ps[j].0 != ps.last().0);
        assert(last_wins(ps.drop_last()).insert(ps[j].0, v).insert(ps.last().0, ps.last().1)
            =~= last_wins(ps.drop_last()).insert(ps.last().0, ps.last().1).insert(ps[j].0, v));
    }
}

/// A string-to-string mapping held as key/value pairs with no repeated key,
/// seen in contracts as a finite map over character sequences.
pub struct StrMap {
    entries: Vec<(String, String)>,
}

impl View for StrMap {
    type V = Map<Seq<char>, Seq<char>>;

    closed spec fn view(&self) -> Map<Seq<char>, Seq<char>> {
        last_wins(pair_views(self.entries@))
    }
}

impl StrMap {
    /// The pairs carry pairwise distinct keys.
    pub closed spec fn wf(&self) -> bool {
        distinct_keys(pair_views(self.entries@))
    }

    pub fn new() -> (r: StrMap)
        ensures
            r@ == Map::<Seq<char>, Seq<char>>::empty(),
            r.wf(),
    {
        StrMap { entries: Vec::new() }
    }

    /// Binds the key to the value; an earlier binding of the same key is dropped.
    #[verifier::loop_isolation(false)]
    pub fn insert(&mut self, k: String, v: String)
        requires
            old(self).wf(),
        ensures
            final(self).wf(),
            final(self)@ == old(self)@.insert(k@, v@),
    {
        let ghost ps0 = pair_views(self.entries@);
        let ghost kv = (k@, v@);
        let mut i: usize = 0;
        while i < self.entries.len()
            invariant
                i <= self.entries@.len(),
                self == old(self),
                forall|t: int| 0 <= t < i ==> pair_views(self.entries@)[t].0 != k@,
            decreases self.entries@.len() - i,
        {
            if self.entries[i].0 == k {
                let pair = (k, v);
                self.entries.set(i, pair);
                proof {
                    assert(pair_views(self.entries@) =~= ps0.update(i as int, (ps0[i as int].0, kv.1)));
                    lemma_last_wins_update(ps0, i as int, kv.1);
                    assert(distinct_keys(pair_views(self.entries@))) by {
                        assert(forall|s: int, t: int|
                            0 <= s < t < ps0.len() ==> pair_views(self.entries@)[s].0 == ps0[s].0
                                && pair_views(self.entries@)[t].0 == ps0[t].0);
                    }
                }
                return;
            }
            i += 1;
        }
        self.entries.push((k, v));
        proof {
            assert(pair_views(self.entries@) =~= ps0.push(kv));
            lemma_last_wins_push(ps0, kv);
            assert(distinct_keys(pair_views(self.entries@))) by {
                assert(forall|t: int| 0 <= t < ps0.len() ==> pair_views(self.entries@)[t].0 == ps0[t].0);
                assert(pair_views(self.entries@)[ps0.len() as int].0 == kv.0);
            }
        }
    }

    /// The mapping built from the pairs in order, a later pair overriding an earlier one.
    #[verifier::loop_isolation(false)]
    pub fn from_pairs(pairs: Vec<(String, String)>) -> (r: StrMap)
        ensures
            r.wf(),
            r@ == last_wins(pair_views(pairs@)),
    {
        let ghost ps = pair_views(pairs@);
        let mut m = StrMap::new();
        let mut i: usize = 0;
        while i < pairs.len()
            invariant
                i <= pairs@.len(),
                m.wf(),
                m@ == last_wins(ps.take(i as int)),
                ps == pair_views(pairs@),
            decreases pairs@.len() - i,
        {
            let k = pairs[i].0.clone();
            let v = pairs[i].1.clone();
            proof {
                assert(ps.take(i as int + 1) =~= ps.take(i as int).push(ps[i as int]));
                lemma_last_wins_push(ps.take(i as int), ps[i as int]);
                assert(ps[i as int] == (k@, v@));
            }
            m.insert(k, v);
            i += 1;
        }
        proof {
            assert(ps.take(pairs@.len() as int) =~= ps);
        }
        m
    }

    /// The value bound to the key, if the key is bound.
    #[verifier::loop_isolation(false)]
    pub fn get(&self, k: &String) -> (r: Option<&String>)
        requires
            self.wf(),
        ensures
            match r {
                Some(v) => self@.dom().contains(k@) && self@[k@] == v@,
                None => !self@.dom().contains(k@),
            },
    {
        let mut i: usize = 0;
        while i < self.entries.len()
            invariant
                i <= self.entries@.len(),
                self.wf(),
                forall|t: int| 0 <= t < i ==> pair_views(self.entries@)[t].0 != k@,
            decreases self.entries@.len() - i,
        {
            if self.entries[i].0 == *k {
                proof {
                    lemma_last_wins_index(pair_views(self.entries@), i as int);
                }
                return Some(&self.entries[i].1);
            }
            i += 1;
        }
        proof {
            lemma_last_wins_dom(pair_views(self.entries@), k@);
        }
        None
    }

    /// How many keys are bound.
    pub fn len(&self) -> (n: usize)
        requires
            self.wf(),
        ensures
            n == 0 <==> self@ == Map::<Seq<char>, Seq<char>>::empty(),
            n == self@.dom().len(),
            self@.dom().finite(),
    {
        proof {
            lemma_distinct_dom_len(pair_views(self.entries@));
            if self.entries@.len() > 0 {
                lemma_last_wins_index(pair_views(self.entries@), 0);
                assert(self@ != Map::<Seq<char>, Seq<char>>::empty());
            }
        }
        self.entries.len()
    }

    /// The pairs themselves, distinct keys, denoting the same mapping.
    pub fn pairs(&self) -> (r: &Vec<(String, String)>)
        requires
            self.wf(),
        ensures
            distinct_keys(pair_views(r@)),
            last_wins(pair_views(r@)) == self@,
    {
        &self.entries
    }
}

/// With distinct keys the mapping has exactly one key per pair.
pub proof fn lemma_distinct_dom_len(ps: Seq<(Seq<char>, Seq<char>)>)
    requires
        distinct_keys(ps),
    ensures
        last_wins(ps).dom().finite(),
        last_wins(ps).dom().len() == ps.len(),
    decreases ps.len(),
{
    if ps.len() > 0 {
        assert(distinct_keys(ps.drop_last())) by {
            assert(forall|s: int, t: int|
                0 <= s < t < ps.drop_last().len() ==> ps.drop_last()[s].0 == ps[s].0
                    && ps.drop_last()[t].0 == ps[t].0);
        }
        lemma_distinct_dom_len(ps.drop_last());
        lemma_last_wins_dom(ps.drop_last(), ps.last().0);
        assert(forall|i: int| 0 <= i < ps.drop_last().len() ==> ps.drop_last()[i] == ps[i]);
        assert(!last_wins(ps.drop_last()).dom().contains(ps.last().0));
        assert(last_wins(ps).dom() =~= last_wins(ps.drop_last()).dom().insert(ps.last().0));
        vstd::set::axiom_set_insert_len(last_wins(ps.drop_last()).dom(), ps.last().0);
    }
}

} // verus!
