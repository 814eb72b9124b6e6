use vstd::prelude::*;

verus! {

/// A set of display names, kept without repeats.
pub struct Names {
    items: Vec<String>,
}

/// The set of texts held by a list of strings.
pub open spec fn text_set(v: Seq<String>) -> Set<Seq<char>> {
    Set::new(|t: Seq<char>| exists|i: int| 0 <= i < v.len() && (#[trigger] v[i])@ == t)
}

impl View for Names {
    type V = Set<Seq<char>>;

    closed spec fn view(&self) -> Set<Seq<char>> {
        text_set(self.items@)
    }
}

proof fn lemma_text_set_push(v: Seq<String>, s: String)
    ensures
        text_set(v.push(s)) == text_set(v).insert(s@),
{
    let w = v.push(s);
    assert forall|t: Seq<char>| text_set(w).contains(t) implies text_set(v).insert(s@).contains(t) by {
        let i = choose|i: int| 0 <= i < w.len() && (#[trigger] w[i])@ == t;
        if i < v.len() {
            assert(v[i]@ == t);
        }
    }
    assert forall|t: Seq<char>| text_set(v).insert(s@).contains(t) implies text_set(w).contains(t) by {
        if t == s@ {
            assert(w[v.len() as int]@ == t);
        } else {
            let i = choose|i: int| 0 <= i < v.len() && (#[trigger] v[i])@ == t;
            assert(w[i]@ == t);
        }
    }
    assert(text_set(w) =~= text_set(v).insert(s@));
}

impl Names {
    pub fn new() -> (r: Names)
        ensures
            r@ == Set::<Seq<char>>::empty(),
    {
        let r = Names { items: Vec::new() };
        assert(r@ =~= Set::<Seq<char>>::empty());
        r
    }

    pub fn contains(&self, name: &String) -> (r: bool)
        ensures
            r == self@.contains(name@),
    {
        let mut i: usize = 0;
        while i < self.items.len()
            invariant
                0 <= i <= self.items@.len(),
                forall|j: int| 0 <= j < i ==> (#[trigger] self.items@[j])@ != name@,
            decreases self.items@.len() - i,
        {
            if self.items[i].eq(name) {
                assert(text_set(self.items@).contains(name@)) by {
                    assert(self.items@[i as int]@ == name@);
                }
                return true;
            }
            i = i + 1;
        }
        false
    }

    /// Adds one name.
    pub fn insert(&mut self, name: String)
        ensures
            final(self)@ == old(self)@.insert(name@),
    {
        if !self.contains(&name) {
            proof {
                lemma_text_set_push(self.items@, name);
            }
            self.items.push(name);
        } else {
            assert(old(self)@.insert(name@) =~= old(self)@);
        }
    }

    /// Adds every name of `other`.
    pub fn extend(&mut self, other: Names)
        ensures
            final(self)@ == old(self)@.union(other@),
    {
        let mut items = other.items;
        let ghost all = items@;
        let mut k: usize = items.len();
        while k > 0
            invariant
                k == items@.len(),
                k <= all.len(),
                items@ == all.subrange(0, k as int),
                self@ == old(self)@.union(text_set(all.subrange(k as int, all.len() as int))),
            decreases k,
        {
            let s = items.pop().unwrap();
            proof {
                let tail = all.subrange(k as int, all.len() as int);
                let tail2 = all.subrange(k - 1, all.len() as int);
                assert forall|t: Seq<char>| text_set(tail2).contains(t) <==> (text_set(tail).contains(t) || t == s@) by {
                    if text_set(tail2).contains(t) {
                        let i = choose|i: int| 0 <= i < tail2.len() && (#[trigger] tail2[i])@ == t;
                        if i > 0 {
                            assert(tail[i - 1]@ == t);
                        }
                    }
                    if text_set(tail).contains(t) {
                        let i = choose|i: int| 0 <= i < tail.len() && (#[trigger] tail[i])@ == t;
                        assert(tail2[i + 1]@ == t);
                    }
                    if t == s@ {
                        assert(tail2[0]@ == t);
                    }
                }
                assert(text_set(tail2) =~= text_set(tail).insert(s@));
            }
            self.insert(s);
            k = k - 1;
            assert(self@ =~= old(self)@.union(text_set(all.subrange(k as int, all.len() as int))));
        }
        assert(all.subrange(0, all.len() as int) =~= all);
    }

    /// Builds the set of the given names.
    pub fn from_vec(v: Vec<String>) -> (r: Names)
        ensures
            r@ == text_set(v@),
    {
        let mut r = Names::new();
        let other = Names { items: v };
        r.extend(other);
        assert(r@ =~= text_set(v@));
        r
    }

    /// The names, each once.
    pub fn to_vec(&self) -> (r: Vec<String>)
        ensures
            text_set(r@) == self@,
    {
        let mut out: Vec<String> = Vec::new();
        let mut i: usize = 0;
        while i < self.items.len()
            invariant
                0 <= i <= self.items@.len(),
                text_set(out@) == text_set(self.items@.subrange(0, i as int)),
            decreases self.items@.len() - i,
        {
            let s = self.items[i].clone();
            proof {
                lemma_text_set_push(out@, s);
                lemma_text_set_push(self.items@.subrange(0, i as int), self.items@[i as int]);
                assert(self.items@.subrange(0, i as int).push(self.items@[i as int])
                    =~= self.items@.subrange(0, i + 1));
            }
            out.push(s);
            i = i + 1;
        }
        assert(self.items@.subrange(0, self.items@.len() as int) =~= self.items@);
        out
    }
}

impl Clone for Names {
    fn clone(&self) -> (r: Self)
        ensures
            r@ == self@,
    {
        Names::from_vec(self.to_vec())
    }
}

} // verus!
