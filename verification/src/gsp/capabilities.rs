//! Capability negotiation (`CAPABILITIES_ADVERTISE`).
//!
//! Every member tells the group which optional features it supports; the
//! group's effective set is the intersection of all advertisements, so a
//! feature outside it is unsafe to use. Each member's tokens are kept as an
//! ordered set: strictly ascending in the order of `str`.

use vstd::prelude::*;
use crate::gsp::token_set::{
    insert_sorted, lemma_filter_sorted, lemma_sorted_insert, sorted, sorted_insert, strs,
};
use crate::keyed::KeyedMap;
use crate::vocab::bounded::no_dups;
use crate::vocab::conformance::{ConformanceClass, class_from_tokens, class_rank, class_tokens, str_views};
use crate::vocab::ids::MemberId;

verus! {

/// `base` with each element of `ts` inserted at its place in ascending
/// order, a token already present kept once.
pub open spec fn add_missing(base: Seq<Seq<char>>, ts: Seq<Seq<char>>) -> Seq<Seq<char>>
    decreases ts.len(),
{
    if ts.len() == 0 {
        base
    } else {
        sorted_insert(add_missing(base, ts.drop_last()), ts.last())
    }
}

proof fn lemma_add_missing(base: Seq<Seq<char>>, ts: Seq<Seq<char>>)
    requires
        sorted(base),
    ensures
        sorted(add_missing(base, ts)),
        forall|x: Seq<char>| #[trigger] add_missing(base, ts).contains(x) <==> base.contains(x) || ts.contains(x),
    decreases ts.len(),
{
    if ts.len() > 0 {
        lemma_add_missing(base, ts.drop_last());
        let a = add_missing(base, ts.drop_last());
        lemma_sorted_insert(a, ts.last());
        assert forall|x: Seq<char>| #[trigger] add_missing(base, ts).contains(x) <==> base.contains(x)
            || ts.contains(x) by {
            if ts.drop_last().contains(x) {
                let i = choose|i: int| 0 <= i < ts.drop_last().len() && ts.drop_last()[i] == x;
                assert(ts[i] == x);
            }
            if ts.contains(x) && x != ts.last() {
                let i = choose|i: int| 0 <= i < ts.len() && ts[i] == x;
                assert(i < ts.len() - 1);
                assert(ts.drop_last()[i] == x);
            }
            assert(ts[ts.len() - 1] == ts.last());
        }
    }
}

/// The union of the sets of `sets`, in ascending order.
pub open spec fn union_fold(sets: Seq<Seq<Seq<char>>>) -> Seq<Seq<char>>
    decreases sets.len(),
{
    if sets.len() == 0 {
        Seq::empty()
    } else {
        add_missing(union_fold(sets.drop_last()), sets.last())
    }
}

/// The union holds each token of any of the sets, in ascending order.
pub proof fn lemma_union_fold(sets: Seq<Seq<Seq<char>>>)
    ensures
        sorted(union_fold(sets)),
        forall|x: Seq<char>| #[trigger] union_fold(sets).contains(x) <==> exists|i: int|
            0 <= i < sets.len() && #[trigger] sets[i].contains(x),
    decreases sets.len(),
{
    if sets.len() > 0 {
        let d = sets.drop_last();
        lemma_union_fold(d);
        lemma_add_missing(union_fold(d), sets.last());
        assert forall|x: Seq<char>| #[trigger] union_fold(sets).contains(x) <==> exists|i: int|
            0 <= i < sets.len() && #[trigger] sets[i].contains(x) by {
            if union_fold(d).contains(x) {
                let i = choose|i: int| 0 <= i < d.len() && #[trigger] d[i].contains(x);
                assert(sets[i] == d[i]);
            }
            if sets.last().contains(x) {
                assert(sets[sets.len() - 1].contains(x));
            }
            if exists|i: int| 0 <= i < sets.len() && #[trigger] sets[i].contains(x) {
                let i = choose|i: int| 0 <= i < sets.len() && #[trigger] sets[i].contains(x);
                if i < sets.len() - 1 {
                    assert(d[i] == sets[i]);
                }
            }
        }
    } else {
        assert(union_fold(sets) =~= Seq::<Seq<char>>::empty());
    }
}

/// Per-member sets of advertised capability tokens.
pub struct CapabilitiesNegotiator {
    advertised: KeyedMap<Vec<String>>,
}

impl View for CapabilitiesNegotiator {
    type V = Map<u32, Seq<Seq<char>>>;

    /// Each advertising member's tokens.
    closed spec fn view(&self) -> Map<u32, Seq<Seq<char>>> {
        self.advertised@.map_values(|v: Vec<String>| strs(v@))
    }
}

/// `cap` is advertised by every member of `m`.
pub open spec fn everyone_has(m: Map<u32, Seq<Seq<char>>>, cap: Seq<char>) -> bool {
    forall|k: u32| #[trigger] m.contains_key(k) ==> m[k].contains(cap)
}

fn contains_str(set: &Vec<String>, cap: &str) -> (r: bool)
    ensures
        r == strs(set@).contains(cap@),
{
    let mut i: usize = 0;
    while i < set.len()
        invariant
            0 <= i <= set@.len(),
            forall|j: int| 0 <= j < i ==> (#[trigger] set@[j])@ != cap@,
        decreases set@.len() - i,
    {
        if set[i].as_str().to_owned() == cap.to_owned() {
            assert(strs(set@)[i as int] == cap@);
            return true;
        }
        i = i + 1;
    }
    proof {
        if strs(set@).contains(cap@) {
            let j = choose|j: int| 0 <= j < strs(set@).len() && strs(set@)[j] == cap@;
            assert(set@[j]@ == cap@);
        }
    }
    false
}

fn push_missing(set: &mut Vec<String>, s: &str)
    ensures
        strs(final(set)@) == add_missing(strs(old(set)@), seq![s@]),
{
    assert(seq![s@].drop_last() =~= Seq::<Seq<char>>::empty());
    assert(add_missing(strs(set@), Seq::<Seq<char>>::empty()) == strs(set@));
    assert(seq![s@].last() == s@);
    insert_sorted(set, s);
}

proof fn lemma_add_missing_step(base: Seq<Seq<char>>, ts: Seq<Seq<char>>, i: int)
    requires
        0 <= i < ts.len(),
    ensures
        add_missing(base, ts.take(i + 1)) == add_missing(add_missing(base, ts.take(i)), seq![ts[i]]),
{
    assert(ts.take(i + 1).drop_last() =~= ts.take(i));
    assert(ts.take(i + 1).last() == ts[i]);
    assert(seq![ts[i]].drop_last() =~= Seq::<Seq<char>>::empty());
    assert(seq![ts[i]].last() == ts[i]);
    let a = add_missing(base, ts.take(i));
    assert(add_missing(a, Seq::<Seq<char>>::empty()) == a);
}

fn add_all(set: &mut Vec<String>, ts: &[&str])
    ensures
        strs(final(set)@) == add_missing(strs(old(set)@), str_views(ts@)),
{
    let ghost base = strs(set@);
    let ghost views = str_views(ts@);
    let mut i: usize = 0;
    while i < ts.len()
        invariant
            0 <= i <= ts@.len(),
            views == str_views(ts@),
            strs(set@) == add_missing(base, views.take(i as int)),
        decreases ts@.len() - i,
    {
        proof {
            lemma_add_missing_step(base, views, i as int);
        }
        push_missing(set, ts[i]);
        i = i + 1;
    }
    assert(views.take(ts@.len() as int) =~= views);
}

impl CapabilitiesNegotiator {
    /// The members in the order they first advertised.
    pub closed spec fn members(&self) -> Seq<u32> {
        self.advertised.key_order()
    }

    /// The member order lists exactly the advertising members, each once;
    /// every member's tokens are strictly ascending.
    pub closed spec fn wf(&self) -> bool {
        &&& self.advertised.wf()
        &&& forall|k: u32| #[trigger] self.advertised@.contains_key(k) ==> sorted(strs(self.advertised@[k]@))
    }

    proof fn lemma_members(&self)
        requires
            self.wf(),
        ensures
            no_dups(self.members()),
            forall|k: u32| #[trigger] self@.contains_key(k) <==> self.members().contains(k),
            self@.dom().len() == self.members().len(),
    {
        self.advertised.lemma_wf();
        assert(self@.dom() =~= self.advertised@.dom());
    }

    proof fn lemma_view_at(&self, k: u32)
        requires
            self.advertised@.contains_key(k),
        ensures
            self@.contains_key(k),
            self@[k] == strs(self.advertised@[k]@),
    {
    }

    proof fn lemma_member_key(&self, k: u32)
        requires
            self.wf(),
            self.members().contains(k),
        ensures
            self.advertised@.contains_key(k),
            self@.contains_key(k),
            self@[k] == strs(self.advertised@[k]@),
    {
        self.advertised.lemma_wf();
    }

    /// A negotiator where nobody advertised yet.
    pub fn new() -> (r: Self)
        ensures
            r.wf(),
            r@ == Map::<u32, Seq<Seq<char>>>::empty(),
    {
        let r = CapabilitiesNegotiator { advertised: KeyedMap::new() };
        assert(r@ =~= Map::<u32, Seq<Seq<char>>>::empty());
        r
    }

    fn set_of(&mut self, member: MemberId, set: Vec<String>)
        requires
            old(self).wf(),
            sorted(strs(set@)),
        ensures
            final(self).wf(),
            final(self)@ == old(self)@.insert(member, strs(set@)),
    {
        let ghost s = strs(set@);
        self.advertised.insert(member, set);
        assert(self@ =~= old(self)@.insert(member, s));
    }

    /// Records `member`'s advertisement, replacing any earlier one; the
    /// tokens are kept in ascending order, a token given twice once.
    pub fn advertise(&mut self, member: MemberId, capabilities: &[&str])
        requires
            old(self).wf(),
        ensures
            final(self).wf(),
            final(self)@ == old(self)@.insert(
                member,
                add_missing(Seq::empty(), str_views(capabilities@)),
            ),
    {
        let mut set: Vec<String> = Vec::new();
        assert(strs(set@) =~= Seq::<Seq<char>>::empty());
        add_all(&mut set, capabilities);
        proof {
            lemma_add_missing(Seq::empty(), str_views(capabilities@));
        }
        self.set_of(member, set);
    }

    /// Removes `member`'s advertisement (e.g. after `LEAVE`).
    pub fn forget(&mut self, member: MemberId)
        requires
            old(self).wf(),
        ensures
            final(self).wf(),
            final(self)@ == old(self)@.remove(member),
    {
        self.advertised.remove(member);
        assert(self@ =~= old(self)@.remove(member));
    }

    /// The current advertisement of `member`.
    pub fn capabilities_of(&self, member: MemberId) -> (r: Option<&Vec<String>>)
        ensures
            match r {
                Some(v) => self@.contains_key(member) && strs(v@) == self@[member],
                None => !self@.contains_key(member),
            },
            self.wf() ==> (r matches Some(v) ==> sorted(strs(v@))),
    {
        self.advertised.get(member)
    }

    /// `true` if somebody advertised and every member supports `cap`.
    pub fn group_supports(&self, cap: &str) -> (r: bool)
        requires
            self.wf(),
        ensures
            r == (self@.dom().len() > 0 && everyone_has(self@, cap@)),
    {
        proof {
            self.lemma_members();
        }
        let n = self.advertised.len();
        if n == 0 {
            return false;
        }
        let mut i: usize = 0;
        while i < n
            invariant
                0 <= i <= n,
                n == self.members().len(),
                self.wf(),
                forall|k: u32| #[trigger] self@.contains_key(k) <==> self.members().contains(k),
                forall|j: int| 0 <= j < i ==> self@[#[trigger] self.members()[j]].contains(cap@),
            decreases n - i,
        {
            let k = self.advertised.key_at(i);
            assert(self.members()[i as int] == k);
            assert(self.members().contains(k));
            proof {
                self.lemma_member_key(k);
            }
            let found = match self.advertised.get(k) {
                Some(set) => contains_str(set, cap),
                None => false,
            };
            if !found {
                assert(self@.contains_key(k) && !self@[k].contains(cap@));
                return false;
            }
            i = i + 1;
        }
        proof {
            assert forall|k: u32| #[trigger] self@.contains_key(k) implies self@[k].contains(cap@) by {
                assert(self.members().contains(k));
                let j = choose|j: int| 0 <= j < self.members().len() && self.members()[j] == k;
                assert(self@[self.members()[j]].contains(cap@));
            }
        }
        true
    }

    fn in_all(&self, cap: &str) -> (r: bool)
        requires
            self.wf(),
        ensures
            r == everyone_has(self@, cap@),
    {
        proof {
            self.lemma_members();
        }
        if self.advertised.len() == 0 {
            assert forall|k: u32| #[trigger] self@.contains_key(k) implies self@[k].contains(cap@) by {
                assert(self.members().contains(k));
            }
            return true;
        }
        self.group_supports(cap)
    }

    /// The tokens every member advertises (the safe-to-use set), in
    /// ascending order; empty when nobody advertised.
    pub fn intersection(&self) -> (r: Vec<String>)
        requires
            self.wf(),
        ensures
            self@.dom().len() == 0 ==> r@.len() == 0,
            self@.dom().len() > 0 ==> strs(r@) == self@[self.members()[0]].filter(
                |c: Seq<char>| everyone_has(self@, c),
            ),
            sorted(strs(r@)),
    {
        proof {
            self.lemma_members();
        }
        let mut out: Vec<String> = Vec::new();
        if self.advertised.len() == 0 {
            assert(strs(out@) =~= Seq::<Seq<char>>::empty());
            return out;
        }
        let first_key = self.advertised.key_at(0);
        assert(self.members()[0] == first_key);
        assert(self.members().contains(first_key));
        proof {
            self.lemma_member_key(first_key);
        }
        let first = match self.advertised.get(first_key) {
            Some(v) => v,
            None => {
                return out;
            },
        };
        let ghost fs = strs(first@);
        let ghost pred = |c: Seq<char>| everyone_has(self@, c);
        let mut i: usize = 0;
        while i < first.len()
            invariant
                0 <= i <= first@.len(),
                self.wf(),
                fs == strs(first@),
                pred == (|c: Seq<char>| everyone_has(self@, c)),
                strs(out@) == fs.take(i as int).filter(pred),
            decreases first@.len() - i,
        {
            let c = first[i].as_str();
            let keep = self.in_all(c);
            proof {
                assert(fs.take(i + 1).drop_last() =~= fs.take(i as int));
                assert(fs.take(i + 1).last() == fs[i as int]);
                assert(fs[i as int] == c@);
                reveal(Seq::filter);
            }
            if keep {
                let ghost before = strs(out@);
                out.push(c.to_owned());
                assert(strs(out@) =~= before.push(c@));
            }
            i = i + 1;
        }
        assert(fs.take(first@.len() as int) =~= fs);
        proof {
            lemma_filter_sorted(fs, pred);
        }
        out
    }

    /// Every token advertised by any member, each once, in ascending order.
    pub fn union(&self) -> (r: Vec<String>)
        requires
            self.wf(),
        ensures
            strs(r@) == union_fold(self.members().map_values(|k: u32| self@[k])),
            sorted(strs(r@)),
            forall|x: Seq<char>| #[trigger] strs(r@).contains(x) <==> exists|k: u32|
                #[trigger] self@.contains_key(k) && self@[k].contains(x),
    {
        proof {
            self.lemma_members();
        }
        let ghost sets = self.members().map_values(|k: u32| self@[k]);
        let n = self.advertised.len();
        let mut acc: Vec<String> = Vec::new();
        assert(strs(acc@) =~= Seq::<Seq<char>>::empty());
        let mut i: usize = 0;
        while i < n
            invariant
                0 <= i <= n,
                n == self.members().len(),
                self.wf(),
                forall|k: u32| #[trigger] self@.contains_key(k) <==> self.members().contains(k),
                sets == self.members().map_values(|k: u32| self@[k]),
                strs(acc@) == union_fold(sets.take(i as int)),
            decreases n - i,
        {
            let k = self.advertised.key_at(i);
            assert(self.members()[i as int] == k);
            assert(self.members().contains(k));
            proof {
                assert(sets.take(i + 1).drop_last() =~= sets.take(i as int));
                assert(sets.take(i + 1).last() == self@[k]);
            }
            proof {
                self.lemma_member_key(k);
            }
            match self.advertised.get(k) {
                Some(set) => {
                    let ghost base = strs(acc@);
                    let ghost ts = strs(set@);
                    let mut j: usize = 0;
                    while j < set.len()
                        invariant
                            0 <= j <= set@.len(),
                            ts == strs(set@),
                            strs(acc@) == add_missing(base, ts.take(j as int)),
                        decreases set@.len() - j,
                    {
                        proof {
                            lemma_add_missing_step(base, ts, j as int);
                        }
                        push_missing(&mut acc, set[j].as_str());
                        j = j + 1;
                    }
                    assert(ts.take(set@.len() as int) =~= ts);
                },
                None => {},
            }
            i = i + 1;
        }
        assert(sets.take(n as int) =~= sets);
        proof {
            lemma_union_fold(sets);
            assert forall|x: Seq<char>| #[trigger] strs(acc@).contains(x) <==> exists|k: u32|
                #[trigger] self@.contains_key(k) && self@[k].contains(x) by {
                if strs(acc@).contains(x) {
                    let i = choose|i: int| 0 <= i < sets.len() && sets[i].contains(x);
                    let k = self.members()[i];
                    assert(self.members().contains(k));
                    assert(self@.contains_key(k) && self@[k].contains(x));
                }
                if exists|k: u32| #[trigger] self@.contains_key(k) && self@[k].contains(x) {
                    let k = choose|k: u32| #[trigger] self@.contains_key(k) && self@[k].contains(x);
                    assert(self.members().contains(k));
                    let i = choose|i: int| 0 <= i < self.members().len() && self.members()[i] == k;
                    assert(sets[i] == self@[k]);
                }
            }
        }
        acc
    }

    /// The members that did not advertise `cap`, in advertising order.
    pub fn missing(&self, cap: &str) -> (r: Vec<MemberId>)
        requires
            self.wf(),
        ensures
            r@ == self.members().filter(|k: u32| !self@[k].contains(cap@)),
    {
        proof {
            self.lemma_members();
        }
        let ghost pred = |k: u32| !self@[k].contains(cap@);
        let ghost ms = self.members();
        let n = self.advertised.len();
        let mut out: Vec<MemberId> = Vec::new();
        let mut i: usize = 0;
        while i < n
            invariant
                0 <= i <= n,
                n == ms.len(),
                ms == self.members(),
                self.wf(),
                forall|k: u32| #[trigger] self@.contains_key(k) <==> self.members().contains(k),
                pred == (|k: u32| !self@[k].contains(cap@)),
                out@ == ms.take(i as int).filter(pred),
            decreases n - i,
        {
            let k = self.advertised.key_at(i);
            assert(ms[i as int] == k);
            assert(ms.contains(k));
            proof {
                self.lemma_member_key(k);
            }
            let found = match self.advertised.get(k) {
                Some(set) => contains_str(set, cap),
                None => false,
            };
            proof {
                assert(ms.take(i + 1).drop_last() =~= ms.take(i as int));
                assert(ms.take(i + 1).last() == k);
                reveal(Seq::filter);
            }
            if !found {
                out.push(k);
            }
            i = i + 1;
        }
        assert(ms.take(n as int) =~= ms);
        out
    }

    /// Number of members that advertised.
    pub fn len(&self) -> (r: usize)
        requires
            self.wf(),
        ensures
            r == self@.dom().len(),
    {
        proof {
            self.lemma_members();
        }
        self.advertised.len()
    }

    /// `true` if nobody advertised.
    pub fn is_empty(&self) -> (r: bool)
        requires
            self.wf(),
        ensures
            r == (self@.dom().len() == 0),
    {
        proof {
            self.lemma_members();
        }
        self.advertised.len() == 0
    }

    /// Declares `member`'s conformance class by adding the tokens of that
    /// class and of every lower class to its advertisement (created empty
    /// when absent).
    pub fn declare_class(&mut self, member: MemberId, class: ConformanceClass)
        requires
            old(self).wf(),
        ensures
            final(self).wf(),
            final(self)@ == old(self)@.insert(
                member,
                add_missing(
                    if old(self)@.contains_key(member) {
                        old(self)@[member]
                    } else {
                        Seq::empty()
                    },
                    class_tokens(class),
                ),
            ),
    {
        let mut set: Vec<String> = Vec::new();
        match self.advertised.get(member) {
            Some(v) => {
                proof {
                    self.lemma_view_at(member);
                }
                let mut i: usize = 0;
                while i < v.len()
                    invariant
                        0 <= i <= v@.len(),
                        strs(set@) == strs(v@).take(i as int),
                    decreases v@.len() - i,
                {
                    let ghost before = strs(set@);
                    set.push(v[i].clone());
                    assert(strs(set@) =~= before.push(v@[i as int]@));
                    i = i + 1;
                    assert(strs(set@) =~= strs(v@).take(i as int));
                }
                assert(strs(v@).take(v@.len() as int) =~= strs(v@));
            },
            None => {
                assert(strs(set@) =~= Seq::<Seq<char>>::empty());
            },
        }
        let tokens = class.tokens();
        add_all(&mut set, tokens.as_slice());
        proof {
            let base = if old(self)@.contains_key(member) {
                old(self)@[member]
            } else {
                Seq::empty()
            };
            lemma_add_missing(base, class_tokens(class));
        }
        self.set_of(member, set);
    }

    /// The highest class every advertising member supports: `None` when
    /// nobody advertised or some member's tokens name no class, else the
    /// lowest of the members' classes.
    pub fn group_class(&self) -> (r: Option<ConformanceClass>)
        requires
            self.wf(),
        ensures
            r is None <==> self@.dom().len() == 0 || exists|k: u32|
                #[trigger] self@.contains_key(k) && class_from_tokens(self@[k]) is None,
            r matches Some(c) ==> {
                &&& exists|k: u32| #[trigger] self@.contains_key(k) && class_from_tokens(self@[k]) == Some(c)
                &&& forall|k: u32| #[trigger] self@.contains_key(k) ==> (class_from_tokens(self@[k]) matches Some(d)
                    && class_rank(c) <= class_rank(d))
            },
    {
        proof {
            self.lemma_members();
        }
        let n = self.advertised.len();
        if n == 0 {
            return None;
        }
        let mut acc: Option<ConformanceClass> = None;
        let mut i: usize = 0;
        while i < n
            invariant
                0 <= i <= n,
                n == self.members().len(),
                n > 0,
                self.wf(),
                forall|k: u32| #[trigger] self@.contains_key(k) <==> self.members().contains(k),
                (i == 0) == (acc is None),
                forall|j: int| 0 <= j < i ==> class_from_tokens(self@[#[trigger] self.members()[j]]) is Some,
                acc matches Some(c) ==> {
                    &&& exists|j: int| 0 <= j < i && class_from_tokens(self@[#[trigger] self.members()[j]]) == Some(c)
                    &&& forall|j: int| 0 <= j < i ==> (class_from_tokens(self@[#[trigger] self.members()[j]]) matches Some(d)
                        && class_rank(c) <= class_rank(d))
                },
            decreases n - i,
        {
            let k = self.advertised.key_at(i);
            assert(self.members()[i as int] == k);
            assert(self.members().contains(k));
            proof {
                self.lemma_member_key(k);
            }
            let mc = match self.advertised.get(k) {
                Some(set) => {
                    let mut toks: Vec<&str> = Vec::new();
                    let mut j: usize = 0;
                    while j < set.len()
                        invariant
                            0 <= j <= set@.len(),
                            str_views(toks@) == strs(set@).take(j as int),
                        decreases set@.len() - j,
                    {
                        let ghost before = str_views(toks@);
                        toks.push(set[j].as_str());
                        assert(str_views(toks@) =~= before.push(set@[j as int]@));
                        j = j + 1;
                        assert(str_views(toks@) =~= strs(set@).take(j as int));
                    }
                    assert(strs(set@).take(set@.len() as int) =~= strs(set@));
                    ConformanceClass::from_tokens(toks.as_slice())
                },
                None => None,
            };
            match mc {
                None => {
                    assert(self@.contains_key(k) && class_from_tokens(self@[k]) is None);
                    return None;
                },
                Some(m) => {
                    let next = match acc {
                        None => m,
                        Some(c) => lower(c, m),
                    };
                    acc = Some(next);
                },
            }
            i = i + 1;
        }
        proof {
            let c = acc->0;
            assert forall|k: u32| #[trigger] self@.contains_key(k) implies (class_from_tokens(self@[k]) matches Some(d)
                && class_rank(c) <= class_rank(d)) by {
                assert(self.members().contains(k));
                let j = choose|j: int| 0 <= j < self.members().len() && self.members()[j] == k;
                assert(class_from_tokens(self@[self.members()[j]]) is Some);
            }
            let j = choose|j: int| 0 <= j < n && class_from_tokens(self@[#[trigger] self.members()[j]]) == Some(c);
            assert(self@.contains_key(self.members()[j]));
        }
        acc
    }

    /// Drops every advertisement (on epoch advance).
    pub fn reset_for_epoch(&mut self)
        ensures
            final(self).wf(),
            final(self)@ == Map::<u32, Seq<Seq<char>>>::empty(),
    {
        self.advertised.clear();
        assert(self@ =~= Map::<u32, Seq<Seq<char>>>::empty());
    }
}

/// Every member's advertisement is an ordered set: its tokens are strictly
/// ascending, so none occurs twice.
pub proof fn lemma_advertisements_sorted(n: &CapabilitiesNegotiator, k: u32)
    requires
        n.wf(),
        n@.contains_key(k),
    ensures
        sorted(n@[k]),
{
}

/// The lower of two classes.
fn lower(a: ConformanceClass, b: ConformanceClass) -> (r: ConformanceClass)
    ensures
        class_rank(r) <= class_rank(a),
        class_rank(r) <= class_rank(b),
        r == a || r == b,
{
    match (a, b) {
        (ConformanceClass::A, _) => a,
        (_, ConformanceClass::A) => b,
        (ConformanceClass::B, _) => a,
        (_, ConformanceClass::B) => b,
        _ => a,
    }
}

/// Declaring a class adds each of that class's tokens to the member's
/// advertisement, keeping every token it held, in ascending order.
pub proof fn lemma_declared_tokens_held(base: Seq<Seq<char>>, c: ConformanceClass, t: Seq<char>)
    requires
        sorted(base),
    ensures
        sorted(add_missing(base, class_tokens(c))),
        class_tokens(c).contains(t) ==> add_missing(base, class_tokens(c)).contains(t),
        base.contains(t) ==> add_missing(base, class_tokens(c)).contains(t),
{
    lemma_add_missing(base, class_tokens(c));
}

impl Default for CapabilitiesNegotiator {
    /// A negotiator with no advertisement.
    fn default() -> (r: Self)
        ensures
            r.wf(),
            r@ == Map::<u32, Seq<Seq<char>>>::empty(),
    {
        Self::new()
    }
}

} // verus!
