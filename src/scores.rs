//! A table of scores keyed by name, and the lines of the high scores in it.
use vstd::prelude::*;

use crate::decimal::{int_text, push_int};

verus! {

/// The map that a list of (name, score) entries with distinct names stands for.
pub open spec fn map_of(s: Seq<(Seq<char>, i32)>) -> Map<Seq<char>, i32> {
    Map::new(
        |k: Seq<char>| exists|i: int| 0 <= i < s.len() && s[i].0 == k,
        |k: Seq<char>| s[choose|i: int| 0 <= i < s.len() && s[i].0 == k].1,
    )
}

/// No two entries share a name.
pub open spec fn names_distinct(s: Seq<(Seq<char>, i32)>) -> bool {
    forall|i: int, j: int| 0 <= i < s.len() && 0 <= j < s.len() && i != j ==> s[i].0 != s[j].0
}

/// The display line of one score: `"{name}: {score}"`.
pub open spec fn score_line(name: Seq<char>, score: i32) -> Seq<char> {
    name + seq![':', ' '] + int_text(score as int)
}

/// `lines` holds, in some order and once each, the line of every name whose
/// score in `m` is at least `threshold`, and nothing else.
pub open spec fn high_score_lines(
    m: Map<Seq<char>, i32>,
    threshold: i32,
    lines: Seq<Seq<char>>,
) -> bool {
    exists|names: Seq<Seq<char>>|
        {
            &&& names.len() == lines.len()
            &&& names.no_duplicates()
            &&& forall|i: int|
                0 <= i < names.len() ==> {
                    &&& m.contains_key(#[trigger] names[i])
                    &&& m[names[i]] >= threshold
                    &&& lines[i] == score_line(names[i], m[names[i]])
                }
            &&& forall|k: Seq<char>|
                m.contains_key(k) && m[k] >= threshold ==> #[trigger] names.contains(k)
        }
}

/// With distinct names, each entry's name maps to that entry's score.
pub proof fn lemma_map_of_entry(s: Seq<(Seq<char>, i32)>, i: int)
    requires
        names_distinct(s),
        0 <= i < s.len(),
    ensures
        map_of(s).contains_key(s[i].0),
        map_of(s)[s[i].0] == s[i].1,
{
    let k = s[i].0;
    assert(exists|j: int| 0 <= j < s.len() && s[j].0 == k);
    let j = choose|j: int| 0 <= j < s.len() && s[j].0 == k;
    assert(j == i);
}

/// Scores keyed by name; each name has at most one score.
pub struct ScoreMap {
    entries: Vec<(String, i32)>,
}

impl View for ScoreMap {
    type V = Map<Seq<char>, i32>;

    /// The scores, by name.
    closed spec fn view(&self) -> Map<Seq<char>, i32> {
        map_of(self.entries())
    }
}

impl ScoreMap {
    /// The entries, as plain values.
    pub closed spec fn entries(&self) -> Seq<(Seq<char>, i32)> {
        self.entries@.map_values(|e: (String, i32)| (e.0@, e.1))
    }

    /// Names are unique among the entries.
    pub closed spec fn wf(&self) -> bool {
        names_distinct(self.entries())
    }

    /// An empty table.
    pub fn new() -> (r: ScoreMap)
        ensures
            r.wf(),
            r@ == Map::<Seq<char>, i32>::empty(),
    {
        let r = ScoreMap { entries: Vec::new() };
        assert(r@ =~= Map::<Seq<char>, i32>::empty());
        r
    }

    /// Sets the score of `name` to `score`, replacing any earlier one.
    pub fn insert(&mut self, name: &str, score: i32)
        requires
            old(self).wf(),
        ensures
            final(self).wf(),
            final(self)@ == old(self)@.insert(name@, score),
    {
        let key = name.to_owned();
        let ghost s = self.entries();
        let mut i: usize = 0;
        while i < self.entries.len()
            invariant
                0 <= i <= self.entries@.len(),
                self.entries() == s,
                s == old(self).entries(),
                names_distinct(s),
                key@ == name@,
                forall|j: int| 0 <= j < i ==> s[j].0 != name@,
            decreases self.entries@.len() - i,
        {
            if self.entries[i].0 == key {
                assert(s[i as int].0 == name@);
                self.entries[i] = (key, score);
                proof {
                    let t = self.entries();
                    assert(t =~= s.update(i as int, (name@, score)));
                    assert(names_distinct(t));
                    assert(map_of(t) =~= map_of(s).insert(name@, score)) by {
                        assert forall|k: Seq<char>| #[trigger]
                            map_of(t).contains_key(k) implies k == name@ || map_of(s).contains_key(k)
                        by {
                            let j = choose|j: int| 0 <= j < t.len() && t[j].0 == k;
                            if j != i {
                                assert(s[j].0 == k);
                            }
                        }
                        assert forall|k: Seq<char>| #[trigger]
                            map_of(s).contains_key(k) implies map_of(t).contains_key(k)
                        by {
                            let j = choose|j: int| 0 <= j < s.len() && s[j].0 == k;
                            assert(t[j].0 == k);
                        }
                        assert(t[i as int].0 == name@);
                        assert forall|k: Seq<char>| #[trigger]
                            map_of(t).contains_key(k) implies map_of(t)[k]
                            == map_of(s).insert(name@, score)[k]
                        by {
                            let j = choose|j: int| 0 <= j < t.len() && t[j].0 == k;
                            if k != name@ {
                                let js = choose|j: int| 0 <= j < s.len() && s[j].0 == k;
                                assert(s[j].0 == k);
                                assert(js == j);
                            }
                        }
                    }
                }
                return;
            }
            i += 1;
        }
        self.entries.push((key, score));
        proof {
            let t = self.entries();
            assert(t =~= s.push((name@, score)));
            assert(names_distinct(t));
            assert(map_of(t) =~= map_of(s).insert(name@, score)) by {
                assert forall|k: Seq<char>| #[trigger]
                    map_of(t).contains_key(k) implies k == name@ || map_of(s).contains_key(k)
                by {
                    let j = choose|j: int| 0 <= j < t.len() && t[j].0 == k;
                    if j < s.len() {
                        assert(s[j].0 == k);
                    }
                }
                assert forall|k: Seq<char>| #[trigger]
                    map_of(s).contains_key(k) implies map_of(t).contains_key(k)
                by {
                    let j = choose|j: int| 0 <= j < s.len() && s[j].0 == k;
                    assert(t[j].0 == k);
                }
                assert(t[s.len() as int].0 == name@);
                assert forall|k: Seq<char>| #[trigger]
                    map_of(t).contains_key(k) implies map_of(t)[k]
                    == map_of(s).insert(name@, score)[k]
                by {
                    let j = choose|j: int| 0 <= j < t.len() && t[j].0 == k;
                    if k != name@ {
                        let js = choose|j: int| 0 <= j < s.len() && s[j].0 == k;
                        assert(s[js].0 == k);
                        assert(t[js].0 == k);
                        assert(js == j);
                    } else {
                        assert(j == s.len());
                    }
                }
            }
        }
    }

    /// The line `"{name}: {score}"` of each name whose score is at least
    /// `threshold`, each once, in no promised order.
    pub fn high_scores(&self, threshold: i32) -> (r: Vec<String>)
        requires
            self.wf(),
        ensures
            high_score_lines(self@, threshold, r@.map_values(|l: String| l@)),
    {
        let ghost s = self.entries();
        let ghost m = self@;
        let ghost mut names: Seq<Seq<char>> = Seq::empty();
        let mut r: Vec<String> = Vec::new();
        let mut i: usize = 0;
        while i < self.entries.len()
            invariant
                0 <= i <= s.len(),
                s == self.entries(),
                m == map_of(s),
                names_distinct(s),
                names.len() == r@.len(),
                names.no_duplicates(),
                forall|j: int|
                    0 <= j < names.len() ==> {
                        &&& m.contains_key(#[trigger] names[j])
                        &&& m[names[j]] >= threshold
                        &&& r@[j]@ == score_line(names[j], m[names[j]])
                    },
                forall|j: int|
                    0 <= j < names.len() ==> exists|e: int|
                        0 <= e < i && s[e].0 == #[trigger] names[j],
                forall|e: int| 0 <= e < i && s[e].1 >= threshold ==> names.contains(#[trigger] s[e].0),
            decreases s.len() - i,
        {
            let score = self.entries[i].1;
            if score >= threshold {
                let mut line = self.entries[i].0.clone();
                proof { reveal_strlit(": "); }
                line.append(": ");
                push_int(&mut line, score as i64);
                proof {
                    lemma_map_of_entry(s, i as int);
                    assert(line@ =~= score_line(s[i as int].0, score));
                    assert forall|j: int| 0 <= j < names.len() implies names[j] != s[i as int].0 by {
                        let e = choose|e: int| 0 <= e < i && s[e].0 == names[j];
                    }
                    let prev = names;
                    names = names.push(s[i as int].0);
                    assert forall|j: int| 0 <= j < names.len() implies exists|e: int|
                        0 <= e < i + 1 && s[e].0 == #[trigger] names[j] by {
                        if j == names.len() - 1 {
                            assert(s[i as int].0 == names[j]);
                        } else {
                            let e = choose|e: int| 0 <= e < i && s[e].0 == names[j];
                        }
                    }
                    assert forall|e: int| 0 <= e < i + 1 && s[e].1 >= threshold implies names.contains(
                        #[trigger] s[e].0) by {
                        if e == i {
                            assert(names[names.len() - 1] == s[e].0);
                        } else {
                            assert(prev.contains(s[e].0));
                            let j = choose|j: int| 0 <= j < prev.len() && prev[j] == s[e].0;
                            assert(names[j] == s[e].0);
                        }
                    }
                }
                r.push(line);
            }
            i += 1;
        }
        proof {
            assert forall|k: Seq<char>| m.contains_key(k) && m[k] >= threshold implies #[trigger] names.contains(k) by {
                let e = choose|e: int| 0 <= e < s.len() && s[e].0 == k;
                lemma_map_of_entry(s, e);
            }
        }
        r
    }

}

} // verus!
