//! The shared name registry: a mapping from session token to display name.
//! Registration checks uniqueness and inserts in one atomic step, so two
//! racing registrations of the same name can never both succeed.

use vstd::prelude::*;
use crate::text::eq_str;

verus! {

/// The outcome of a registration attempt.
#[derive(Clone, Copy, Debug, PartialEq, Eq, Structural)]
pub enum RegisterOutcome {
    /// The name was free and is now held by the calling session.
    Accepted,
    /// The name is already held by a live session.
    Rejected,
}

/// A registry entry at the model level: token and name.
pub open spec fn entry_model(e: (u64, String)) -> (u64, Seq<char>) {
    (e.0, e.1@)
}

/// Whether some entry of `m` holds the name `n`.
pub open spec fn spec_has_name(m: Seq<(u64, Seq<char>)>, n: Seq<char>) -> bool {
    exists|i: int| 0 <= i < m.len() && m[i].1 == n
}

/// Whether some entry of `m` belongs to token `t`.
pub open spec fn spec_has_token(m: Seq<(u64, Seq<char>)>, t: u64) -> bool {
    exists|i: int| 0 <= i < m.len() && m[i].0 == t
}

/// The shared mapping of session token to display name.
pub struct NameRegistry {
    pub entries: Vec<(u64, String)>,
}

impl NameRegistry {
    /// The registry as a sequence of (token, name) pairs, in insertion order.
    pub open spec fn model(self) -> Seq<(u64, Seq<char>)> {
        self.entries@.map_values(|e: (u64, String)| entry_model(e))
    }

    /// The registered names, in insertion order.
    pub open spec fn names(self) -> Seq<Seq<char>> {
        self.model().map_values(|e: (u64, Seq<char>)| e.1)
    }

    /// Registry invariant: live entries have pairwise distinct tokens and
    /// pairwise distinct names (case-sensitive, exact match).
    pub open spec fn wf(self) -> bool {
        forall|i: int, j: int|
            0 <= i < j < self.model().len() ==> self.model()[i].0 != self.model()[j].0
                && self.model()[i].1 != self.model()[j].1
    }

    /// A fresh, empty registry.
    pub fn new() -> (r: NameRegistry)
        ensures
            r.wf(),
            r.model() == Seq::<(u64, Seq<char>)>::empty(),
    {
        let r = NameRegistry { entries: Vec::new() };
        proof {
            assert(r.model() =~= Seq::<(u64, Seq<char>)>::empty());
        }
        r
    }

    /// Whether any live entry holds exactly the name `name`.
    pub fn contains_name(&self, name: &str) -> (r: bool)
        ensures
            r == spec_has_name(self.model(), name@),
    {
        let n = self.entries.len();
        let mut i: usize = 0;
        while i < n
            invariant
                n == self.entries@.len(),
                0 <= i <= n,
                forall|j: int| 0 <= j < i ==> self.model()[j].1 != name@,
            decreases n - i,
        {
            let e = &self.entries[i];
            if eq_str(e.1.as_str(), name) {
                assert(self.model()[i as int].1 == name@);
                return true;
            }
            i = i + 1;
        }
        false
    }

    /// Whether token `token` has a live entry.
    pub fn contains_token(&self, token: u64) -> (r: bool)
        ensures
            r == spec_has_token(self.model(), token),
    {
        let n = self.entries.len();
        let mut i: usize = 0;
        while i < n
            invariant
                n == self.entries@.len(),
                0 <= i <= n,
                forall|j: int| 0 <= j < i ==> self.model()[j].0 != token,
            decreases n - i,
        {
            if self.entries[i].0 == token {
                assert(self.model()[i as int].0 == token);
                return true;
            }
            i = i + 1;
        }
        false
    }

    /// Atomically checks that `name` is free and claims it for `token`.
    /// Accepts exactly when no live entry already holds the name; on
    /// acceptance the entry is appended, on rejection nothing changes.
    pub fn try_register(&mut self, token: u64, name: &str) -> (r: RegisterOutcome)
        requires
            old(self).wf(),
            !spec_has_token(old(self).model(), token),
        ensures
            final(self).wf(),
            (r == RegisterOutcome::Accepted) <==> !spec_has_name(old(self).model(), name@),
            r == RegisterOutcome::Accepted ==> final(self).model() == old(self).model().push(
                (token, name@),
            ),
            r == RegisterOutcome::Rejected ==> *final(self) == *old(self),
    {
        if self.contains_name(name) {
            RegisterOutcome::Rejected
        } else {
            let ghost old_model = self.model();
            self.entries.push((token, String::from_str(name)));
            proof {
                assert(self.model() =~= old_model.push((token, name@)));
                assert forall|i: int, j: int|
                    0 <= i < j < self.model().len() implies (self.model()[i].0 != self.model()[j].0
                    && self.model()[i].1 != self.model()[j].1) by {
                    if j == self.model().len() - 1 {
                        assert(!spec_has_token(old_model, token));
                        assert(!spec_has_name(old_model, name@));
                    }
                }
            }
            RegisterOutcome::Accepted
        }
    }

    /// Removes the entry of `token` if present; idempotent, nothing happens
    /// when the token has no entry.
    pub fn unregister(&mut self, token: u64)
        requires
            old(self).wf(),
        ensures
            final(self).wf(),
            !spec_has_token(final(self).model(), token),
            spec_has_token(old(self).model(), token) ==> exists|i: int|
                0 <= i < old(self).model().len() && old(self).model()[i].0 == token
                    && final(self).model() == old(self).model().remove(i),
            !spec_has_token(old(self).model(), token) ==> *final(self) == *old(self),
    {
        let n = self.entries.len();
        let mut i: usize = 0;
        while i < n
            invariant
                n == self.entries@.len(),
                0 <= i <= n,
                self.wf(),
                *self == *old(self),
                forall|j: int| 0 <= j < i ==> self.model()[j].0 != token,
            decreases n - i,
        {
            if self.entries[i].0 == token {
                let ghost old_model = self.model();
                let ghost idx = i as int;
                self.entries.remove(i);
                proof {
                    assert(self.model() =~= old_model.remove(idx));
                    assert(old_model[idx].0 == token);
                    assert(0 <= idx < old(self).model().len() && old(self).model()[idx].0 == token
                        && self.model() == old(self).model().remove(idx));
                    assert forall|a: int, b: int|
                        0 <= a < b < self.model().len() implies (self.model()[a].0
                        != self.model()[b].0 && self.model()[a].1 != self.model()[b].1) by {
                        let a0 = if a < idx {
                            a
                        } else {
                            a + 1
                        };
                        let b0 = if b < idx {
                            b
                        } else {
                            b + 1
                        };
                        assert(self.model()[a] == old_model[a0]);
                        assert(self.model()[b] == old_model[b0]);
                    }
                    assert forall|k: int|
                        0 <= k < self.model().len() implies self.model()[k].0 != token by {
                        let k0 = if k < idx {
                            k
                        } else {
                            k + 1
                        };
                        assert(self.model()[k] == old_model[k0]);
                    }
                }
                return ;
            }
            i = i + 1;
        }
    }

    /// All currently registered names.  Consumers must not rely on the
    /// order, which happens to be insertion order here.
    pub fn snapshot(&self) -> (r: Vec<String>)
        ensures
            r.deep_view() == self.names(),
    {
        let n = self.entries.len();
        let mut r: Vec<String> = Vec::new();
        proof {
            assert(r.deep_view() =~= self.names().take(0));
        }
        let mut i: usize = 0;
        while i < n
            invariant
                n == self.entries@.len(),
                0 <= i <= n,
                r.deep_view() == self.names().take(i as int),
            decreases n - i,
        {
            let ghost old_dv = r.deep_view();
            r.push(self.entries[i].1.clone());
            proof {
                assert(r.deep_view() =~= old_dv.push(self.names()[i as int]));
                assert(self.names().take(i + 1) =~= self.names().take(i as int).push(
                    self.names()[i as int],
                ));
            }
            i = i + 1;
        }
        proof {
            assert(self.names().take(n as int) =~= self.names());
        }
        r
    }
}

/// Uniqueness, as an invariant: under `wf` no two live entries hold the same
/// name, so at most one of any set of racing registrations can be live.
pub proof fn lemma_names_pairwise_distinct(r: NameRegistry, i: int, j: int)
    requires
        r.wf(),
        0 <= i < r.model().len(),
        0 <= j < r.model().len(),
        i != j,
    ensures
        r.model()[i].1 != r.model()[j].1,
{
}

/// Uniqueness, as exclusion: once a registration of `n` is accepted (the
/// registry grew by the entry `(t, n)`), the registry holds `n`, so every
/// later `try_register` of `n` — by its contract — returns `Rejected`.
/// In any serialized sequence of attempts racing on one free name, exactly
/// the first succeeds.
pub proof fn lemma_register_excludes(m: Seq<(u64, Seq<char>)>, t: u64, n: Seq<char>)
    ensures
        spec_has_name(m.push((t, n)), n),
{
    assert(m.push((t, n))[m.len() as int].1 == n);
}

/// One serialized registration attempt at the model level, exactly as
/// `try_register`'s contract describes it: the registry grows by the entry
/// precisely when the name is free, and is untouched otherwise.
pub open spec fn register_step(m: Seq<(u64, Seq<char>)>, t: u64, n: Seq<char>) -> Seq<
    (u64, Seq<char>),
> {
    if spec_has_name(m, n) {
        m
    } else {
        m.push((t, n))
    }
}

/// The acceptance outcomes of a serialized sequence of registration
/// attempts all racing on the name `n`, one attempt per token in `tokens`:
/// an attempt is accepted exactly when `n` is free at its turn, as
/// `try_register`'s contract says of each call.
pub open spec fn race_outcomes(m: Seq<(u64, Seq<char>)>, tokens: Seq<u64>, n: Seq<char>) -> Seq<
    bool,
>
    decreases tokens.len(),
{
    if tokens.len() == 0 {
        Seq::empty()
    } else {
        seq![!spec_has_name(m, n)] + race_outcomes(register_step(m, tokens[0], n), tokens.skip(1), n)
    }
}

proof fn lemma_race_all_rejected(m: Seq<(u64, Seq<char>)>, tokens: Seq<u64>, n: Seq<char>)
    requires
        spec_has_name(m, n),
    ensures
        race_outcomes(m, tokens, n).len() == tokens.len(),
        forall|i: int| 0 <= i < tokens.len() ==> !race_outcomes(m, tokens, n)[i],
    decreases tokens.len(),
{
    if tokens.len() > 0 {
        assert(register_step(m, tokens[0], n) == m);
        lemma_race_all_rejected(m, tokens.skip(1), n);
        assert forall|i: int| 0 <= i < tokens.len() implies !race_outcomes(m, tokens, n)[i] by {
            if i > 0 {
                assert(race_outcomes(m, tokens, n)[i] == race_outcomes(m, tokens.skip(1), n)[i
                    - 1]);
            }
        }
    }
}

/// Uniqueness, over a whole race: for any serialized sequence of
/// `try_register` calls racing on one name — `k >= 1` attempts with
/// arbitrary tokens, starting from a registry in which the name is free —
/// exactly one attempt is accepted: the first; every later attempt is
/// rejected.
pub proof fn lemma_race_exactly_one(m: Seq<(u64, Seq<char>)>, tokens: Seq<u64>, n: Seq<char>)
    requires
        !spec_has_name(m, n),
        tokens.len() >= 1,
    ensures
        race_outcomes(m, tokens, n).len() == tokens.len(),
        race_outcomes(m, tokens, n)[0],
        forall|i: int| 1 <= i < tokens.len() ==> !race_outcomes(m, tokens, n)[i],
{
    let taken = register_step(m, tokens[0], n);
    lemma_register_excludes(m, tokens[0], n);
    lemma_race_all_rejected(taken, tokens.skip(1), n);
    assert forall|i: int| 1 <= i < tokens.len() implies !race_outcomes(m, tokens, n)[i] by {
        assert(race_outcomes(m, tokens, n)[i] == race_outcomes(taken, tokens.skip(1), n)[i - 1]);
    }
}

/// Reuse after release: when the session holding entry `i` ends and its
/// entry is removed, its name is free again, so a subsequent `try_register`
/// with that exact name — by its contract — returns `Accepted`.
pub proof fn lemma_reuse_after_release(r: NameRegistry, i: int)
    requires
        r.wf(),
        0 <= i < r.model().len(),
    ensures
        !spec_has_name(r.model().remove(i), r.model()[i].1),
{
    let m = r.model();
    let removed = m.remove(i);
    assert forall|k: int| 0 <= k < removed.len() implies removed[k].1 != m[i].1 by {
        let k0 = if k < i {
            k
        } else {
            k + 1
        };
        assert(removed[k] == m[k0]);
        lemma_names_pairwise_distinct(r, k0, i);
    }
}

} // verus!
