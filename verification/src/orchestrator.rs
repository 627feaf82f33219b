use vstd::prelude::*;

use vstd::string::StringExecFns;

verus! {

/// Whether every recorded result is a success.
pub open spec fn all_true(s: Seq<bool>) -> bool {
    forall|i: int| 0 <= i < s.len() ==> s[i]
}

pub proof fn lemma_all_true_push(s: Seq<bool>, b: bool)
    ensures
        all_true(s.push(b)) == (all_true(s) && b),
{
    if all_true(s) && b {
        assert forall|i: int| 0 <= i < s.push(b).len() implies s.push(b)[i] by {
            if i < s.len() {
                assert(s.push(b)[i] == s[i]);
            } else {
                assert(s.push(b)[i] == b);
            }
        }
    }
    if all_true(s.push(b)) {
        assert forall|i: int| 0 <= i < s.len() implies s[i] by {
            assert(s.push(b)[i] == s[i]);
        }
        assert(s.push(b)[s.len() as int] == b);
    }
}

/// Law: the overall result is false exactly when at least one recorded
/// account x game pair failed, wherever in the order the failures lie.
pub proof fn lemma_overall_false_iff_any_failure(s: Seq<bool>)
    ensures
        !all_true(s) <==> exists|i: int| 0 <= i < s.len() && !s[i],
{
}

/// Accumulates the per-pair results of one run into the overall success
/// flag. Every account x game pair gets recorded; a failure never suppresses
/// later attempts, it only pins the flag to false.
pub struct RunAggregator {
    pub overall: bool,
    pub recorded: Ghost<Seq<bool>>,
}

impl RunAggregator {
    /// The flag always equals the conjunction of everything recorded so far.
    pub open spec fn inv(self) -> bool {
        self.overall == all_true(self.recorded@)
    }

    pub fn new() -> (r: RunAggregator)
        ensures
            r.inv(),
            r.recorded@ =~= Seq::<bool>::empty(),
            r.overall,
    {
        RunAggregator { overall: true, recorded: Ghost(Seq::empty()) }
    }

    /// Records one pair's result.
    pub fn record(&mut self, result: bool)
        requires
            old(self).inv(),
        ensures
            final(self).recorded@ == old(self).recorded@.push(result),
            final(self).overall == (old(self).overall && result),
            final(self).inv(),
    {
        if !result {
            self.overall = false;
        }
        let ghost rec = self.recorded@.push(result);
        self.recorded = Ghost(rec);
        proof {
            lemma_all_true_push(old(self).recorded@, result);
        }
    }

    pub fn overall(&self) -> (b: bool)
        ensures
            b == self.overall,
    {
        self.overall
    }
}

/// The health-check URL for a finished run: the base URL itself on overall
/// success, its /fail variant otherwise, and nothing when no URL is
/// configured.
pub open spec fn spec_healthcheck_target(healthcheck: Option<String>, ok: bool) -> Option<
    Seq<char>,
> {
    match healthcheck {
        Some(base) => if ok {
            Some(base@)
        } else {
            Some(base@ + "/fail"@)
        },
        None => None,
    }
}

/// Picks the one URL the best-effort health-check notification should hit,
/// or none when the notification is not configured.
pub fn healthcheck_target(healthcheck: &Option<String>, ok: bool) -> (r: Option<String>)
    ensures
        r is Some <==> healthcheck is Some,
        r matches Some(u) ==> spec_healthcheck_target(*healthcheck, ok) == Some(u@),
        ok ==> (healthcheck matches Some(base) ==> (r matches Some(u) && u@ == base@)),
        !ok ==> (healthcheck matches Some(base) ==> (r matches Some(u) && u@ == base@
            + "/fail"@)),
{
    match healthcheck {
        Some(base) => {
            if ok {
                Some(base.clone())
            } else {
                Some(base.clone().concat("/fail"))
            }
        },
        None => None,
    }
}

} // verus!
