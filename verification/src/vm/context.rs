use vstd::prelude::*;

use crate::util::bytes_equal;

verus! {

/// The state of writing one output file: the number of the next instruction,
/// and for each instruction text the numbers at which it was written.
#[derive(Debug)]
pub struct WriteFileContext {
    pointer: usize,
    pointer_map: Vec<(Vec<u8>, Vec<usize>)>,
}

/// The keys of the entries of a position table.
pub open spec fn entry_keys(s: Seq<(Vec<u8>, Vec<usize>)>) -> Seq<Seq<u8>> {
    s.map_values(|e: (Vec<u8>, Vec<usize>)| e.0@)
}

/// A position table by its view.
pub open spec fn entries_map(s: Seq<(Vec<u8>, Vec<usize>)>) -> Map<Seq<u8>, Seq<usize>> {
    Map::new(
        |k: Seq<u8>| exists|i: int| 0 <= i < s.len() && #[trigger] s[i].0@ == k,
        |k: Seq<u8>| {
            let i = choose|i: int| 0 <= i < s.len() && #[trigger] s[i].0@ == k;
            s[i].1@
        },
    )
}

/// No instruction text has two entries.
pub open spec fn keys_unique(s: Seq<(Vec<u8>, Vec<usize>)>) -> bool {
    forall|i: int, j: int| 0 <= i < j < s.len() ==> #[trigger] s[i].0@ != #[trigger] s[j].0@
}

impl WriteFileContext {
    /// The number of the next instruction.
    pub closed spec fn pointer(&self) -> usize {
        self.pointer
    }

    /// For each instruction text, the numbers at which it was written.
    pub closed spec fn positions(&self) -> Map<Seq<u8>, Seq<usize>> {
        entries_map(self.pointer_map@)
    }

    pub closed spec fn wf(&self) -> bool {
        keys_unique(self.pointer_map@)
    }

    pub fn new() -> (r: Self)
        ensures
            r.wf(),
            r.pointer() == 0,
            r.positions() == Map::<Seq<u8>, Seq<usize>>::empty(),
    {
        let r = Self { pointer: 0, pointer_map: Vec::new() };
        assert(r.positions() =~= Map::<Seq<u8>, Seq<usize>>::empty());
        r
    }

    /// The number of the next instruction.
    pub fn global_instruction_number(&self) -> (r: usize)
        ensures
            r == self.pointer(),
    {
        self.pointer
    }

    /// Moves on to the next instruction.
    pub fn incr(&mut self)
        requires
            old(self).pointer() < usize::MAX,
        ensures
            final(self).pointer() == old(self).pointer() + 1,
            final(self).positions() == old(self).positions(),
            final(self).wf() == old(self).wf(),
    {
        self.pointer = self.pointer + 1;
    }

    /// Records that `instruction` is written at the current number.
    pub fn set_intruction(&mut self, instruction: Vec<u8>)
        requires
            old(self).wf(),
        ensures
            final(self).wf(),
            final(self).pointer() == old(self).pointer(),
            final(self).positions() == old(self).positions().insert(
                instruction@,
                if old(self).positions().contains_key(instruction@) {
                    old(self).positions()[instruction@].push(old(self).pointer())
                } else {
                    seq![old(self).pointer()]
                },
            ),
    {
        let ghost old_map = self.positions();
        let ghost s0 = self.pointer_map@;
        let mut i: usize = 0;
        while i < self.pointer_map.len()
            invariant
                i <= self.pointer_map@.len(),
                self.pointer_map@ == s0,
                s0 == old(self).pointer_map@,
                self.pointer == old(self).pointer,
                old_map == old(self).positions(),
                keys_unique(s0),
                forall|j: int| 0 <= j < i ==> #[trigger] s0[j].0@ != instruction@,
            decreases self.pointer_map@.len() - i,
        {
            if bytes_equal(self.pointer_map[i].0.as_slice(), instruction.as_slice()) {
                let p = self.pointer;
                let ghost e0 = s0[i as int];
                {
                    let entry = &mut self.pointer_map[i];
                    entry.1.push(p);
                }
                proof {
                    let s1 = self.pointer_map@;
                    assert(s1[i as int].0@ == instruction@);
                    assert(s0[i as int].0@ == instruction@);
                    assert forall|a: int, b: int| 0 <= a < b < s1.len() implies #[trigger] s1[a].0@
                        != #[trigger] s1[b].0@ by {
                        assert(s1[a].0@ == s0[a].0@);
                        assert(s1[b].0@ == s0[b].0@);
                    }
                    assert(old_map.contains_key(instruction@));
                    assert(old_map[instruction@] == e0.1@) by {
                        let c = choose|c: int| 0 <= c < s0.len() && #[trigger] s0[c].0@ == instruction@;
                        assert(c == i);
                    }
                    assert forall|k: Seq<u8>| #[trigger] self.positions().contains_key(k)
                        == old_map.insert(instruction@, e0.1@.push(p)).contains_key(k) by {
                        if old_map.contains_key(k) {
                            let c = choose|c: int| 0 <= c < s0.len() && #[trigger] s0[c].0@ == k;
                            assert(s1[c].0@ == k);
                        }
                        if self.positions().contains_key(k) {
                            let c = choose|c: int| 0 <= c < s1.len() && #[trigger] s1[c].0@ == k;
                            assert(s0[c].0@ == k);
                        }
                    }
                    assert forall|k: Seq<u8>| #[trigger] self.positions().contains_key(k) implies self.positions()[k]
                        == old_map.insert(instruction@, e0.1@.push(p))[k] by {
                        let c = choose|c: int| 0 <= c < s1.len() && #[trigger] s1[c].0@ == k;
                        if k == instruction@ {
                            assert(c == i);
                        } else {
                            let c0 = choose|c: int| 0 <= c < s0.len() && #[trigger] s0[c].0@ == k;
                            assert(s1[c0].0@ == k);
                            assert(c0 == c);
                        }
                    }
                    assert(self.positions() =~= old_map.insert(instruction@, e0.1@.push(p)));
                }
                return;
            }
            i = i + 1;
        }
        let p = self.pointer;
        let mut v: Vec<usize> = Vec::new();
        v.push(p);
        self.pointer_map.push((instruction, v));
        proof {
            let s1 = self.pointer_map@;
            let n = s0.len() as int;
            assert(s1[n].0@ == instruction@);
            assert(!old_map.contains_key(instruction@));
            assert forall|a: int, b: int| 0 <= a < b < s1.len() implies #[trigger] s1[a].0@
                != #[trigger] s1[b].0@ by {
                assert(s1[a].0@ == s0[a].0@ || a == n);
            }
            assert forall|k: Seq<u8>| #[trigger] self.positions().contains_key(k)
                == old_map.insert(instruction@, seq![p]).contains_key(k) by {
                if old_map.contains_key(k) {
                    let c = choose|c: int| 0 <= c < s0.len() && #[trigger] s0[c].0@ == k;
                    assert(s1[c].0@ == k);
                }
                if self.positions().contains_key(k) && k != instruction@ {
                    let c = choose|c: int| 0 <= c < s1.len() && #[trigger] s1[c].0@ == k;
                    assert(s0[c].0@ == k);
                }
            }
            assert forall|k: Seq<u8>| #[trigger] self.positions().contains_key(k) implies self.positions()[k]
                == old_map.insert(instruction@, seq![p])[k] by {
                let c = choose|c: int| 0 <= c < s1.len() && #[trigger] s1[c].0@ == k;
                if k == instruction@ {
                    assert(c == n);
                    assert(s1[n].1@ =~= seq![p]);
                } else {
                    let c0 = choose|c: int| 0 <= c < s0.len() && #[trigger] s0[c].0@ == k;
                    assert(s1[c0].0@ == k);
                    assert(c0 == c);
                }
            }
            assert(self.positions() =~= old_map.insert(instruction@, seq![p]));
        }
    }

    /// The numbers at which `instruction` was written, if it was.
    pub fn positions_of(&self, instruction: &[u8]) -> (r: Option<&Vec<usize>>)
        requires
            self.wf(),
        ensures
            r is Some == self.positions().contains_key(instruction@),
            r matches Some(v) ==> v@ == self.positions()[instruction@],
    {
        let mut i: usize = 0;
        while i < self.pointer_map.len()
            invariant
                i <= self.pointer_map@.len(),
                keys_unique(self.pointer_map@),
                forall|j: int| 0 <= j < i ==> #[trigger] self.pointer_map@[j].0@ != instruction@,
            decreases self.pointer_map@.len() - i,
        {
            if bytes_equal(self.pointer_map[i].0.as_slice(), instruction) {
                proof {
                    let s = self.pointer_map@;
                    assert(s[i as int].0@ == instruction@);
                    let c = choose|c: int| 0 <= c < s.len() && #[trigger] s[c].0@ == instruction@;
                    assert(c == i);
                }
                return Some(&self.pointer_map[i].1);
            }
            i = i + 1;
        }
        None
    }
}

/// The options of a translation: whether comments are written.
#[derive(Clone, Copy, Debug)]
pub struct TranslateOpts {
    pub comments: bool,
}

impl TranslateOpts {
    pub fn new() -> (r: Self)
        ensures
            r.comments,
    {
        Self { comments: true }
    }

    /// Sets whether comments are written.
    pub fn set_comments(&mut self, v: bool) -> (r: &mut Self)
        ensures
            r.comments == v,
            final(self).comments == final(r).comments,
    {
        self.comments = v;
        self
    }
}

} // verus!
