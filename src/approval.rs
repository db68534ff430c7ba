//! Session-scoped memory of review decisions. A key is prompted at most once
//! at a time: later requesters of a key whose prompt is still open join it
//! and read its outcome, and a for-session grant answers every later request
//! for its key until the session is torn down.
use vstd::prelude::*;
use crate::policy::ReviewDecision;

verus! {

/// Fingerprint of what a approver is asked to allow.
#[derive(Clone, Debug)]
pub enum ApprovalKey {
    Shell { command: Vec<String>, cwd: String, escalated: bool },
    ApplyPatch { patch: String, cwd: String },
}

/// The characters that make up a key.
pub enum ApprovalKeyView {
    Shell { command: Seq<Seq<char>>, cwd: Seq<char>, escalated: bool },
    ApplyPatch { patch: Seq<char>, cwd: Seq<char> },
}

impl View for ApprovalKey {
    type V = ApprovalKeyView;

    open spec fn view(&self) -> ApprovalKeyView {
        match self {
            ApprovalKey::Shell { command, cwd, escalated } => ApprovalKeyView::Shell {
                command: command@.map_values(|s: String| s@),
                cwd: cwd@,
                escalated: *escalated,
            },
            ApprovalKey::ApplyPatch { patch, cwd } => ApprovalKeyView::ApplyPatch {
                patch: patch@,
                cwd: cwd@,
            },
        }
    }
}

fn same_strings(a: &Vec<String>, b: &Vec<String>) -> (r: bool)
    ensures
        r == (a@.map_values(|s: String| s@) == b@.map_values(|s: String| s@)),
{
    if a.len() != b.len() {
        proof {
            assert(a@.map_values(|s: String| s@).len() != b@.map_values(|s: String| s@).len());
        }
        return false;
    }
    let mut i: usize = 0;
    while i < a.len()
        invariant
            i <= a.len(),
            a.len() == b.len(),
            forall|j: int| 0 <= j < i ==> a@[j]@ == b@[j]@,
        decreases a.len() - i,
    {
        if a[i] != b[i] {
            proof {
                assert(a@.map_values(|s: String| s@)[i as int] != b@.map_values(|s: String| s@)[i as int]);
            }
            return false;
        }
        i = i + 1;
    }
    assert(a@.map_values(|s: String| s@) =~= b@.map_values(|s: String| s@));
    true
}

impl ApprovalKey {
    /// Whether two keys ask for the same thing.
    pub fn same_key(&self, other: &ApprovalKey) -> (r: bool)
        ensures
            r == (self@ == other@),
    {
        match (self, other) {
            (
                ApprovalKey::Shell { command: c1, cwd: d1, escalated: e1 },
                ApprovalKey::Shell { command: c2, cwd: d2, escalated: e2 },
            ) => *e1 == *e2 && *d1 == *d2 && same_strings(c1, c2),
            (
                ApprovalKey::ApplyPatch { patch: p1, cwd: d1 },
                ApprovalKey::ApplyPatch { patch: p2, cwd: d2 },
            ) => *d1 == *d2 && *p1 == *p2,
            _ => false,
        }
    }
}

impl ApprovalKey {
    /// A copy with the same characters.
    pub fn copy_key(&self) -> (r: ApprovalKey)
        ensures
            r@ == self@,
    {
        match self {
            ApprovalKey::Shell { command, cwd, escalated } => {
                let c = crate::request::clone_strings(command);
                ApprovalKey::Shell { command: c, cwd: cwd.clone(), escalated: *escalated }
            },
            ApprovalKey::ApplyPatch { patch, cwd } => ApprovalKey::ApplyPatch {
                patch: patch.clone(),
                cwd: cwd.clone(),
            },
        }
    }
}

/// How a request for a key is answered.
#[derive(Clone, Copy, Debug, PartialEq, Eq, Structural)]
pub enum ApprovalLookup {
    /// A for-session grant answers it; nobody is asked.
    Cached(ReviewDecision),
    /// A prompt for the same key is open: wait for the outcome of this ticket.
    Join(usize),
    /// Nobody is asking yet: prompt, and report the decision under this ticket.
    Prompt(usize),
}

/// One prompt issued in the session, and its outcome once known.
struct PromptRecord {
    key: ApprovalKey,
    outcome: Option<ReviewDecision>,
}

/// Review decisions of one session.
pub struct ApprovalStore {
    grants: Vec<ApprovalKey>,
    prompts: Vec<PromptRecord>,
}

impl ApprovalStore {
    /// A for-session grant for `k` is held.
    pub closed spec fn granted(self, k: ApprovalKeyView) -> bool {
        exists|i: int| 0 <= i < self.grants@.len() && #[trigger] self.grants@[i]@ == k
    }

    /// The prompt with ticket `t` asks about `k` and has no outcome yet.
    pub closed spec fn pending(self, k: ApprovalKeyView, t: int) -> bool {
        0 <= t < self.prompts@.len() && self.prompts@[t].outcome is None && self.prompts@[t].key@ == k
    }

    /// Some prompt about `k` is open.
    pub open spec fn asking(self, k: ApprovalKeyView) -> bool {
        exists|t: int| #[trigger] self.pending(k, t)
    }

    /// What the prompt with ticket `t` was answered, if it was.
    pub closed spec fn outcome_of(self, t: int) -> Option<ReviewDecision> {
        if 0 <= t < self.prompts@.len() {
            self.prompts@[t].outcome
        } else {
            None
        }
    }

    /// Tickets handed out so far.
    pub closed spec fn issued(self) -> int {
        self.prompts@.len() as int
    }

    /// At most one open prompt per key, and none for a key granted for the
    /// session.
    pub closed spec fn wf(self) -> bool {
        &&& forall|i: int|
            #![trigger self.prompts@[i]]
            0 <= i < self.prompts@.len() && self.prompts@[i].outcome is None
                ==> !self.granted(self.prompts@[i].key@)
        &&& forall|i: int, j: int|
            #![trigger self.prompts@[i], self.prompts@[j]]
            0 <= i < self.prompts@.len() && 0 <= j < self.prompts@.len() && i != j
                && self.prompts@[i].outcome is None && self.prompts@[j].outcome is None
                ==> self.prompts@[i].key@ != self.prompts@[j].key@
    }

    /// What `begin` does: a for-session grant answers at once; an open prompt
    /// for the key is joined; otherwise a new prompt is opened under the next
    /// ticket. Nothing else changes.
    pub open spec fn begin_post(s0: ApprovalStore, k: ApprovalKeyView, s1: ApprovalStore, r: ApprovalLookup) -> bool {
        if s0.granted(k) {
            r == ApprovalLookup::Cached(ReviewDecision::ApprovedForSession) && s1 == s0
        } else if s0.asking(k) {
            &&& r is Join
            &&& s0.pending(k, r->Join_0 as int)
            &&& s1 == s0
        } else {
            &&& r is Prompt
            &&& r->Prompt_0 as int == s0.issued()
            &&& s1.issued() == s0.issued() + 1
            &&& s1.pending(k, s0.issued())
            &&& forall|k2: ApprovalKeyView| #[trigger] s1.granted(k2) == s0.granted(k2)
            &&& forall|k2: ApprovalKeyView, t: int| t != s0.issued() ==> #[trigger] s1.pending(k2, t) == s0.pending(k2, t)
            &&& forall|t: int| #[trigger] s1.outcome_of(t) == s0.outcome_of(t)
        }
    }

    /// What `finish` does: the prompt of ticket `t`, about `k`, is closed
    /// with decision `d`; a for-session grant is remembered for `k`.
    pub open spec fn finish_post(s0: ApprovalStore, k: ApprovalKeyView, t: int, d: ReviewDecision, s1: ApprovalStore) -> bool {
        &&& s1.issued() == s0.issued()
        &&& s1.outcome_of(t) == Some(d)
        &&& !s1.asking(k)
        &&& forall|t2: int| t2 != t ==> #[trigger] s1.outcome_of(t2) == s0.outcome_of(t2)
        &&& forall|k2: ApprovalKeyView, t2: int| t2 != t ==> #[trigger] s1.pending(k2, t2) == s0.pending(k2, t2)
        &&& forall|k2: ApprovalKeyView| #[trigger] s1.granted(k2) == (s0.granted(k2) || (k2 == k && d == ReviewDecision::ApprovedForSession))
    }

    /// An empty store for a new session.
    pub fn new() -> (r: ApprovalStore)
        ensures
            r.wf(),
            r.issued() == 0,
            forall|k: ApprovalKeyView| !#[trigger] r.granted(k),
            forall|k: ApprovalKeyView| !#[trigger] r.asking(k),
    {
        ApprovalStore { grants: Vec::new(), prompts: Vec::new() }
    }

    fn find_grant(&self, key: &ApprovalKey) -> (r: bool)
        ensures
            r == self.granted(key@),
    {
        let mut i: usize = 0;
        while i < self.grants.len()
            invariant
                i <= self.grants@.len(),
                forall|j: int| 0 <= j < i ==> self.grants@[j]@ != key@,
            decreases self.grants.len() - i,
        {
            if self.grants[i].same_key(key) {
                return true;
            }
            i = i + 1;
        }
        false
    }

    fn find_open(&self, key: &ApprovalKey) -> (r: Option<usize>)
        ensures
            r is Some <==> self.asking(key@),
            r is Some ==> self.pending(key@, r->Some_0 as int),
    {
        let mut i: usize = 0;
        while i < self.prompts.len()
            invariant
                i <= self.prompts@.len(),
                forall|j: int| 0 <= j < i ==> !self.pending(key@, j),
            decreases self.prompts.len() - i,
        {
            if self.prompts[i].outcome.is_none() && self.prompts[i].key.same_key(key) {
                assert(self.pending(key@, i as int));
                return Some(i);
            }
            i = i + 1;
        }
        None
    }

    /// Looks a key up before prompting.
    pub fn begin(&mut self, key: &ApprovalKey) -> (r: ApprovalLookup)
        requires
            old(self).wf(),
        ensures
            final(self).wf(),
            Self::begin_post(*old(self), key@, *final(self), r),
    {
        if self.find_grant(key) {
            return ApprovalLookup::Cached(ReviewDecision::ApprovedForSession);
        }
        match self.find_open(key) {
            Some(t) => ApprovalLookup::Join(t),
            None => {
                let t = self.prompts.len();
                let ghost s0 = *self;
                self.prompts.push(PromptRecord { key: key.copy_key(), outcome: None });
                proof {
                    let s1 = *self;
                    assert(s1.prompts@ == s0.prompts@.push(s1.prompts@[t as int]));
                    assert(s1.pending(key@, t as int));
                    assert forall|k2: ApprovalKeyView, t2: int| t2 != t implies #[trigger] s1.pending(k2, t2) == s0.pending(k2, t2) by {
                        if 0 <= t2 < t {
                            assert(s1.prompts@[t2] == s0.prompts@[t2]);
                        }
                    }
                    assert forall|t2: int| #[trigger] s1.outcome_of(t2) == s0.outcome_of(t2) by {
                        if 0 <= t2 < t {
                            assert(s1.prompts@[t2] == s0.prompts@[t2]);
                        }
                    }
                    assert forall|k2: ApprovalKeyView| #[trigger] s1.granted(k2) == s0.granted(k2) by {
                        assert(s1.grants@ == s0.grants@);
                    }
                    assert forall|i: int|
                        #![trigger s1.prompts@[i]]
                        0 <= i < s1.prompts@.len() && s1.prompts@[i].outcome is None
                            implies !s1.granted(s1.prompts@[i].key@) by {
                        if i < t {
                            assert(s1.prompts@[i] == s0.prompts@[i]);
                        }
                    }
                    assert forall|i: int, j: int|
                        #![trigger s1.prompts@[i], s1.prompts@[j]]
                        0 <= i < s1.prompts@.len() && 0 <= j < s1.prompts@.len() && i != j
                            && s1.prompts@[i].outcome is None && s1.prompts@[j].outcome is None
                            implies s1.prompts@[i].key@ != s1.prompts@[j].key@ by {
                        if i == t {
                            assert(!s0.pending(key@, j));
                        } else if j == t {
                            assert(!s0.pending(key@, i));
                        } else {
                            assert(s1.prompts@[i] == s0.prompts@[i]);
                            assert(s1.prompts@[j] == s0.prompts@[j]);
                        }
                    }
                }
                ApprovalLookup::Prompt(t)
            },
        }
    }

    /// Reports the decision of the prompt with ticket `t`.
    pub fn finish(&mut self, t: usize, d: ReviewDecision)
        requires
            old(self).wf(),
            exists|k: ApprovalKeyView| old(self).pending(k, t as int),
        ensures
            final(self).wf(),
            forall|k: ApprovalKeyView| old(self).pending(k, t as int) ==> Self::finish_post(*old(self), k, t as int, d, *final(self)),
    {
        let ghost s0 = *self;
        let key = self.prompts[t].key.copy_key();
        if d == ReviewDecision::ApprovedForSession {
            self.grants.push(key.copy_key());
        }
        self.prompts.set(t, PromptRecord { key, outcome: Some(d) });
        proof {
            let s1 = *self;
            let k = s0.prompts@[t as int].key@;
            assert forall|k2: ApprovalKeyView, t2: int| t2 != t implies #[trigger] s1.pending(k2, t2) == s0.pending(k2, t2) by {
                if 0 <= t2 < s0.prompts@.len() {
                    assert(s1.prompts@[t2] == s0.prompts@[t2]);
                }
            }
            assert forall|t2: int| t2 != t implies #[trigger] s1.outcome_of(t2) == s0.outcome_of(t2) by {
                if 0 <= t2 < s0.prompts@.len() {
                    assert(s1.prompts@[t2] == s0.prompts@[t2]);
                }
            }
            assert(s1.outcome_of(t as int) == Some(d));
            assert forall|t2: int| !#[trigger] s1.pending(k, t2) by {
                if 0 <= t2 < s0.prompts@.len() && t2 != t {
                    assert(s1.prompts@[t2] == s0.prompts@[t2]);
                    assert(s0.prompts@[t as int] == s0.prompts@[t as int]);
                }
            }
            assert forall|k2: ApprovalKeyView| #[trigger] s1.granted(k2) == (s0.granted(k2) || (k2 == k && d == ReviewDecision::ApprovedForSession)) by {
                if d == ReviewDecision::ApprovedForSession {
                    assert(s1.grants@ == s0.grants@.push(s1.grants@.last()));
                    if k2 == k {
                        assert(s1.grants@[s0.grants@.len() as int]@ == k2);
                    }
                    if s1.granted(k2) {
                        let i = choose|i: int| 0 <= i < s1.grants@.len() && #[trigger] s1.grants@[i]@ == k2;
                        if i < s0.grants@.len() {
                            assert(s0.grants@[i] == s1.grants@[i]);
                        }
                    }
                    if s0.granted(k2) {
                        let i = choose|i: int| 0 <= i < s0.grants@.len() && #[trigger] s0.grants@[i]@ == k2;
                        assert(s0.grants@[i] == s1.grants@[i]);
                    }
                } else {
                    assert(s1.grants@ == s0.grants@);
                }
            }
            assert forall|i: int|
                #![trigger s1.prompts@[i]]
                0 <= i < s1.prompts@.len() && s1.prompts@[i].outcome is None
                    implies !s1.granted(s1.prompts@[i].key@) by {
                assert(s1.prompts@[i] == s0.prompts@[i]);
                assert(s0.prompts@[t as int] == s0.prompts@[t as int]);
            }
            assert forall|i: int, j: int|
                #![trigger s1.prompts@[i], s1.prompts@[j]]
                0 <= i < s1.prompts@.len() && 0 <= j < s1.prompts@.len() && i != j
                    && s1.prompts@[i].outcome is None && s1.prompts@[j].outcome is None
                    implies s1.prompts@[i].key@ != s1.prompts@[j].key@ by {
                assert(s1.prompts@[i] == s0.prompts@[i]);
                assert(s1.prompts@[j] == s0.prompts@[j]);
            }
            assert forall|k2: ApprovalKeyView| old(self).pending(k2, t as int) implies Self::finish_post(s0, k2, t as int, d, s1) by {
                assert(k2 == k);
            }
        }
    }

    /// The decision reported under ticket `t`, once there is one.
    pub fn outcome(&self, t: usize) -> (r: Option<ReviewDecision>)
        ensures
            r == self.outcome_of(t as int),
    {
        if t < self.prompts.len() {
            self.prompts[t].outcome
        } else {
            None
        }
    }
}

/// Concurrent requesters of one key that no grant answers: the first is told
/// to prompt, the second joins that same prompt, and once its decision is
/// reported both read that one decision.
pub proof fn lemma_one_prompt_per_key(
    s0: ApprovalStore,
    s1: ApprovalStore,
    s2: ApprovalStore,
    s3: ApprovalStore,
    k: ApprovalKeyView,
    r1: ApprovalLookup,
    r2: ApprovalLookup,
    d: ReviewDecision,
)
    requires
        s0.wf(),
        !s0.granted(k),
        !s0.asking(k),
        ApprovalStore::begin_post(s0, k, s1, r1),
        ApprovalStore::begin_post(s1, k, s2, r2),
        ApprovalStore::finish_post(s2, k, s0.issued(), d, s3),
    ensures
        r1 is Prompt,
        r2 is Join,
        r1->Prompt_0 == r2->Join_0,
        r1->Prompt_0 as int == s0.issued(),
        s3.outcome_of(r1->Prompt_0 as int) == Some(d),
        s3.outcome_of(r2->Join_0 as int) == Some(d),
{
    assert(s1.pending(k, s0.issued()));
    assert(s1.asking(k));
    assert(!s1.granted(k));
    let t = r2->Join_0 as int;
    assert(s1.pending(k, t));
    assert(s0.issued() == s1.prompts@.len() - 1);
    if t != s0.issued() {
        assert(s1.pending(k, t) == s0.pending(k, t));
        assert(s0.asking(k));
    }
}

/// While a prompt for a key is open, every further request for that key
/// joins it.
pub proof fn lemma_open_prompt_is_joined(s0: ApprovalStore, k: ApprovalKeyView, t: int, s1: ApprovalStore, r: ApprovalLookup)
    requires
        s0.wf(),
        s0.pending(k, t),
        ApprovalStore::begin_post(s0, k, s1, r),
    ensures
        r == ApprovalLookup::Join(t as usize),
        s1 == s0,
{
    assert(s0.prompts@[t] == s0.prompts@[t]);
    assert(s0.asking(k));
    let t2 = r->Join_0 as int;
    if t2 != t {
        assert(s0.prompts@[t2] == s0.prompts@[t2]);
    }
}

/// A for-session grant for `k` answers every later request for `k` without a
/// prompt, and no request or reported decision takes it away.
pub proof fn lemma_session_grant_not_reprompted(
    s0: ApprovalStore,
    k: ApprovalKeyView,
    k2: ApprovalKeyView,
    s1: ApprovalStore,
    r: ApprovalLookup,
    t: int,
    d: ReviewDecision,
    s2: ApprovalStore,
)
    requires
        s0.granted(k),
        ApprovalStore::begin_post(s0, k2, s1, r),
        ApprovalStore::finish_post(s1, k2, t, d, s2),
    ensures
        k2 == k ==> r == ApprovalLookup::Cached(ReviewDecision::ApprovedForSession),
        s1.granted(k),
        s2.granted(k),
{
}

} // verus!
