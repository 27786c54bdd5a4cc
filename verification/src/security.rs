//! The subject that a request acts as: a principal and what it may do.

use vstd::prelude::*;
use vstd::string::StringExecFns;

verus! {

/// Whether one of `list` reads `wanted`.
pub open spec fn holds(list: Seq<String>, wanted: Seq<char>) -> bool {
    exists|k: int| 0 <= k < list.len() && (#[trigger] list[k])@ == wanted
}

/// Whether no two of `list` read the same.
pub open spec fn distinct(list: Seq<String>) -> bool {
    forall|i: int, j: int|
        0 <= i < j < list.len() ==> (#[trigger] list[i])@ != (#[trigger] list[j])@
}

/// Whether one of `list` reads as `wanted` does.
fn contains(list: &Vec<String>, wanted: &String) -> (found: bool)
    ensures
        found == holds(list@, wanted@),
{
    let mut i: usize = 0;
    while i < list.len()
        invariant
            i <= list.len(),
            !holds(list@.subrange(0, i as int), wanted@),
        decreases list.len() - i,
    {
        if list[i] == *wanted {
            assert(list@[i as int]@ == wanted@);
            return true;
        }
        proof {
            let before = list@.subrange(0, i as int);
            let after = list@.subrange(0, i + 1);
            assert forall|k: int| 0 <= k < after.len() implies (#[trigger] after[k])@
                != wanted@ by {
                if k < i {
                    assert(before[k] == after[k]);
                }
            }
        }
        i += 1;
    }
    proof {
        assert(list@.subrange(0, list.len() as int) =~= list@);
    }
    false
}

/// A principal and the set of its authorities.
#[derive(Debug)]
pub struct SecuritySubject {
    principal: String,
    authorities: Vec<String>,
}

/// A subject as contracts see it.
pub struct SecuritySubjectView {
    pub principal: Seq<char>,
    pub authorities: Set<Seq<char>>,
}

impl View for SecuritySubject {
    type V = SecuritySubjectView;

    closed spec fn view(&self) -> SecuritySubjectView {
        SecuritySubjectView {
            principal: self.principal@,
            authorities: Set::new(|a: Seq<char>| holds(self.authorities@, a)),
        }
    }
}

impl SecuritySubject {
    /// Each authority is kept once.
    #[verifier::type_invariant]
    spec fn well_formed(&self) -> bool {
        distinct(self.authorities@)
    }

    /// The subject `principal` with the given authorities; one named more
    /// than once counts once.
    pub fn new(principal: &str, authorities: Vec<String>) -> (subject: Self)
        ensures
            subject@.principal == principal@,
            forall|a: Seq<char>|
                subject@.authorities.contains(a) <==> holds(authorities@, a),
    {
        let mut kept: Vec<String> = Vec::new();
        let mut i: usize = 0;
        while i < authorities.len()
            invariant
                i <= authorities.len(),
                distinct(kept@),
                forall|a: Seq<char>|
                    #![trigger holds(kept@, a)]
                    #![trigger holds(authorities@.subrange(0, i as int), a)]
                    holds(kept@, a) <==> holds(authorities@.subrange(0, i as int), a),
            decreases authorities.len() - i,
        {
            let ghost seen = authorities@.subrange(0, i as int);
            let ghost before = kept@;
            let known = contains(&kept, &authorities[i]);
            if !known {
                kept.push(authorities[i].clone());
            }
            proof {
                let next = authorities@.subrange(0, i + 1);
                let this = authorities@[i as int]@;
                assert(next[i as int]@ == this);
                assert forall|a: Seq<char>| holds(kept@, a) <==> holds(next, a) by {
                    if holds(kept@, a) {
                        let k = choose|k: int| 0 <= k < kept@.len() && (#[trigger] kept@[k])@ == a;
                        if k < before.len() {
                            assert(before[k]@ == a);
                            assert(holds(before, a));
                            let m = choose|m: int| 0 <= m < seen.len() && (#[trigger] seen[m])@ == a;
                            assert(next[m] == seen[m]);
                        } else {
                            assert(a == this);
                        }
                    }
                    if holds(next, a) {
                        let m = choose|m: int| 0 <= m < next.len() && (#[trigger] next[m])@ == a;
                        if m < i {
                            assert(seen[m] == next[m]);
                            assert(holds(seen, a));
                            assert(holds(before, a));
                            let k = choose|k: int|
                                0 <= k < before.len() && (#[trigger] before[k])@ == a;
                            assert(kept@[k] == before[k]);
                        } else {
                            if known {
                                let k = choose|k: int|
                                    0 <= k < before.len() && (#[trigger] before[k])@ == this;
                                assert(kept@[k]@ == a);
                            } else {
                                assert(kept@[before.len() as int]@ == a);
                            }
                        }
                    }
                }
                assert(distinct(kept@)) by {
                    if !known {
                        assert forall|x: int, y: int| 0 <= x < y < kept@.len() implies (
                        #[trigger] kept@[x])@ != (#[trigger] kept@[y])@ by {
                            if y < before.len() {
                                assert(kept@[x] == before[x]);
                                assert(kept@[y] == before[y]);
                            } else {
                                assert(kept@[x] == before[x]);
                                assert(kept@[y]@ == this);
                            }
                        }
                    }
                }
            }
            i += 1;
        }
        proof {
            assert(authorities@.subrange(0, authorities.len() as int) =~= authorities@);
        }
        SecuritySubject { principal: String::from_str(principal), authorities: kept }
    }

    /// The subject's principal.
    pub fn principal(&self) -> (name: &str)
        ensures
            name@ == self@.principal,
    {
        self.principal.as_str()
    }

    /// The subject's authorities, each once.
    pub fn authorities(&self) -> (list: &Vec<String>)
        ensures
            distinct(list@),
            forall|a: Seq<char>| self@.authorities.contains(a) <==> holds(list@, a),
    {
        proof {
            use_type_invariant(self);
        }
        &self.authorities
    }

    /// Whether the subject holds `authority`.
    pub fn has_authority(&self, authority: &str) -> (held: bool)
        ensures
            held == self@.authorities.contains(authority@),
    {
        let wanted = String::from_str(authority);
        contains(&self.authorities, &wanted)
    }
}

impl Clone for SecuritySubject {
    fn clone(&self) -> (copy: Self)
        ensures
            copy@ == self@,
    {
        proof {
            use_type_invariant(self);
        }
        let mut authorities: Vec<String> = Vec::new();
        let mut i: usize = 0;
        while i < self.authorities.len()
            invariant
                i <= self.authorities.len(),
                authorities@ == self.authorities@.subrange(0, i as int),
            decreases self.authorities.len() - i,
        {
            authorities.push(self.authorities[i].clone());
            proof {
                assert(authorities@ =~= self.authorities@.subrange(0, i + 1));
            }
            i += 1;
        }
        proof {
            assert(self.authorities@.subrange(0, self.authorities.len() as int)
                =~= self.authorities@);
        }
        let copy = SecuritySubject { principal: self.principal.clone(), authorities };
        proof {
            assert(copy@.authorities =~= self@.authorities);
        }
        copy
    }
}

/// The subject of one request, and whether a handler has changed it since
/// the request came in.
#[derive(Debug)]
pub struct SecurityContext {
    subject: Option<SecuritySubject>,
    changed: bool,
}

/// A security context as contracts see it.
pub struct SecurityContextView {
    pub subject: Option<SecuritySubjectView>,
    pub changed: bool,
}

impl View for SecurityContext {
    type V = SecurityContextView;

    closed spec fn view(&self) -> SecurityContextView {
        SecurityContextView {
            subject: match self.subject {
                Some(subject) => Some(subject@),
                None => None,
            },
            changed: self.changed,
        }
    }
}

impl SecurityContext {
    /// The context of a request that came in as `s`; unchanged.
    pub fn new(s: Option<SecuritySubject>) -> (context: Self)
        ensures
            context@.changed == false,
            match s {
                Some(given) => context@.subject == Some(given@),
                None => context@.subject.is_none(),
            },
    {
        SecurityContext { subject: s, changed: false }
    }

    /// The current subject.
    pub fn subject(&self) -> (current: Option<SecuritySubject>)
        ensures
            match current {
                Some(subject) => self@.subject == Some(subject@),
                None => self@.subject.is_none(),
            },
    {
        match &self.subject {
            Some(subject) => Some(subject.clone()),
            None => None,
        }
    }

    /// Whether the subject was set or dropped since the request came in.
    pub fn is_changed(&self) -> (changed: bool)
        ensures
            changed == self@.changed,
    {
        self.changed
    }

    /// The current principal, if there is a subject.
    pub fn principal(&self) -> (name: Option<String>)
        ensures
            match name {
                Some(text) => self@.subject matches Some(subject) && subject.principal == text@,
                None => self@.subject.is_none(),
            },
    {
        match &self.subject {
            Some(subject) => Some(String::from_str(subject.principal())),
            None => None,
        }
    }

    /// Whether there is a subject and it holds `authority`.
    pub fn check_authority(&self, authority: &str) -> (held: bool)
        ensures
            held == (self@.subject matches Some(subject) && subject.authorities.contains(
                authority@,
            )),
    {
        match &self.subject {
            Some(subject) => subject.has_authority(authority),
            None => false,
        }
    }

    /// Makes the subject `principal` with the given authorities the current
    /// one and marks the context changed.
    pub fn remember(&mut self, principal: &str, authorities: Vec<String>)
        ensures
            final(self)@.changed,
            final(self)@.subject matches Some(subject) && subject.principal == principal@ && (
            forall|a: Seq<char>| subject.authorities.contains(a) <==> holds(authorities@, a)),
    {
        self.subject = Some(SecuritySubject::new(principal, authorities));
        self.changed = true;
    }

    /// Drops the current subject. A context without one stays as it is;
    /// otherwise it is marked changed.
    pub fn forget(&mut self)
        ensures
            final(self)@.subject.is_none(),
            final(self)@.changed == (old(self)@.changed || old(self)@.subject.is_some()),
    {
        if self.subject.is_some() {
            self.subject = None;
            self.changed = true;
        }
    }
}

} // verus!
