use vstd::prelude::*;

use crate::action::{Action, ActionV};
use crate::config::{contains_key, seq_contains_str};

verus! {

/// A dry-run model of the target filesystem: the paths that exist, as an
/// unordered multiset held in a vector.  Only the preconditions the
/// routines themselves depend on are modeled: a file can only be appended
/// to, moved from, substituted in, or handed over if it exists, and a
/// repository can only be cloned into a path that does not exist yet.
/// Services, shells, packages and extensions are outside the model.
///
/// The model makes failures observable without touching a real system —
/// in particular that re-running the alternate-shell routine is *not*
/// idempotent: its clone destinations exist after the first run, so the
/// first clone of a second run fails.
pub struct FsModel {
    pub existing: Vec<String>,
}

/// Whether the model lets `a` succeed.
pub open spec fn model_allows(existing: Seq<Seq<char>>, a: ActionV) -> bool {
    match a {
        ActionV::AppendFile { path, data } => seq_contains_str(existing, path),
        ActionV::MoveFile { from, to } => seq_contains_str(existing, from),
        ActionV::CreateDirAll { path } => true,
        ActionV::SubstituteSecrets { path, server, password } => seq_contains_str(existing, path),
        ActionV::EnableService { service } => true,
        ActionV::ChangeShell { user } => true,
        ActionV::GitClone { url, dest } => !seq_contains_str(existing, dest),
        ActionV::ChownRecursive { user, path } => seq_contains_str(existing, path),
        ActionV::PacmanInstall { packages } => true,
        ActionV::InstallExtension { as_user, extension } => true,
    }
}

/// `ss` with its first occurrence of `key` taken out; `ss` itself when
/// `key` does not occur.
pub open spec fn remove_first(ss: Seq<Seq<char>>, key: Seq<char>) -> Seq<Seq<char>>
    decreases ss.len(),
{
    if ss.len() == 0 {
        ss
    } else if ss[0] == key {
        ss.skip(1)
    } else {
        seq![ss[0]] + remove_first(ss.skip(1), key)
    }
}

/// The paths that exist after `a` succeeds: a move takes its source out
/// and puts its destination in; a directory creation and a clone put the
/// new path in; everything else leaves the filesystem shape alone.
pub open spec fn model_after(existing: Seq<Seq<char>>, a: ActionV) -> Seq<Seq<char>> {
    match a {
        ActionV::MoveFile { from, to } => remove_first(existing, from).push(to),
        ActionV::CreateDirAll { path } => existing.push(path),
        ActionV::GitClone { url, dest } => existing.push(dest),
        _ => existing,
    }
}

proof fn lemma_remove_first_at(ss: Seq<Seq<char>>, key: Seq<char>, j: int)
    requires
        0 <= j < ss.len(),
        ss[j] == key,
        forall|k: int| 0 <= k < j ==> ss[k] != key,
    ensures
        remove_first(ss, key) == ss.subrange(0, j) + ss.skip(j + 1),
    decreases j,
{
    if j == 0 {
        assert(ss.subrange(0, 0) + ss.skip(1) =~= ss.skip(1));
    } else {
        let tail = ss.skip(1);
        assert(tail[j - 1] == ss[j]);
        assert(forall|k: int| 0 <= k < j - 1 ==> tail[k] == ss[k + 1] && ss[k + 1] != key);
        lemma_remove_first_at(tail, key, j - 1);
        assert(seq![ss[0]] + (tail.subrange(0, j - 1) + tail.skip(j)) =~= ss.subrange(0, j)
            + ss.skip(j + 1));
    }
}

/// Take the first occurrence of `key` out of `v`, if one is there.
fn remove_first_exec(v: &mut Vec<String>, key: &String)
    ensures
        final(v).deep_view() == remove_first(old(v).deep_view(), key@),
{
    let ghost dv = v.deep_view();
    let mut j: usize = 0;
    while j < v.len()
        invariant
            0 <= j <= v@.len(),
            dv == v.deep_view(),
            dv == old(v).deep_view(),
            forall|k: int| 0 <= k < j ==> dv[k] != key@,
        decreases v@.len() - j,
    {
        if v[j] == *key {
            proof {
                assert(dv[j as int] == key@);
            }
            v.remove(j);
            proof {
                lemma_remove_first_at(dv, key@, j as int);
                assert(v.deep_view() =~= dv.subrange(0, j as int) + dv.skip(j as int + 1));
            }
            return ;
        }
        j = j + 1;
    }
    proof {
        lemma_remove_first_absent(dv, key@);
    }
}

proof fn lemma_remove_first_absent(ss: Seq<Seq<char>>, key: Seq<char>)
    requires
        !seq_contains_str(ss, key),
    ensures
        remove_first(ss, key) == ss,
    decreases ss.len(),
{
    if ss.len() == 0 {
    } else {
        assert(ss[0] != key);
        assert(forall|k: int| 0 <= k < ss.skip(1).len() ==> ss.skip(1)[k] == ss[k + 1]);
        lemma_remove_first_absent(ss.skip(1), key);
        assert(seq![ss[0]] + ss.skip(1) =~= ss);
    }
}

impl FsModel {
    /// An empty filesystem: nothing exists yet.
    pub fn new() -> (m: FsModel)
        ensures
            m.existing.deep_view() == Seq::<Seq<char>>::empty(),
    {
        let m = FsModel { existing: Vec::new() };
        proof {
            assert(m.existing.deep_view() =~= Seq::<Seq<char>>::empty());
        }
        m
    }

    /// Record that `path` exists — a staged file put in place by an
    /// earlier pipeline stage, or a pre-existing system file.
    pub fn stage(&mut self, path: &str)
        ensures
            final(self).existing.deep_view() == old(self).existing.deep_view().push(path@),
    {
        let ghost dv = self.existing.deep_view();
        self.existing.push(path.to_owned());
        proof {
            assert(self.existing.deep_view() =~= dv.push(path@));
        }
    }

    /// Whether `path` exists in the model.
    pub fn path_exists(&self, path: &str) -> (r: bool)
        ensures
            r == seq_contains_str(self.existing.deep_view(), path@),
    {
        contains_key(&self.existing, path)
    }

    /// Dry-run one action: report whether it would succeed, and track its
    /// effect on which paths exist.  A failed action changes nothing.
    pub fn apply(&mut self, a: &Action) -> (ok: bool)
        ensures
            ok == model_allows(old(self).existing.deep_view(), a@),
            ok ==> final(self).existing.deep_view() == model_after(
                old(self).existing.deep_view(),
                a@,
            ),
            !ok ==> final(self).existing.deep_view() == old(self).existing.deep_view(),
    {
        let ghost dv = self.existing.deep_view();
        match a {
            Action::AppendFile { path, data } => contains_key(&self.existing, path.as_str()),
            Action::MoveFile { from, to } => {
                if contains_key(&self.existing, from.as_str()) {
                    remove_first_exec(&mut self.existing, from);
                    let ghost mid = self.existing.deep_view();
                    self.existing.push(to.clone());
                    proof {
                        assert(self.existing.deep_view() =~= mid.push(to@));
                    }
                    true
                } else {
                    false
                }
            },
            Action::CreateDirAll { path } => {
                self.existing.push(path.clone());
                proof {
                    assert(self.existing.deep_view() =~= dv.push(path@));
                }
                true
            },
            Action::SubstituteSecrets { path, server, password } => contains_key(
                &self.existing,
                path.as_str(),
            ),
            Action::EnableService { service } => true,
            Action::ChangeShell { user } => true,
            Action::GitClone { url, dest } => {
                if contains_key(&self.existing, dest.as_str()) {
                    false
                } else {
                    self.existing.push(dest.clone());
                    proof {
                        assert(self.existing.deep_view() =~= dv.push(dest@));
                    }
                    true
                }
            },
            Action::ChownRecursive { user, path } => contains_key(&self.existing, path.as_str()),
            Action::PacmanInstall { packages } => true,
            Action::InstallExtension { as_user, extension } => true,
        }
    }

    /// Dry-run a whole plan in order, stopping at the first action the
    /// model refuses: `None` when every action succeeds, `Some(i)` when
    /// the action at index `i` is the first to fail.
    pub fn apply_all(&mut self, plan: &Vec<Action>) -> (r: Option<usize>)
        ensures
            match r {
                None => forall|i: int|
                    0 <= i < plan@.len() ==> model_allows(
                        #[trigger] prefix_model(old(self).existing.deep_view(), plan.deep_view(), i),
                        plan.deep_view()[i],
                    ),
                Some(i) => i < plan@.len() && !model_allows(
                    prefix_model(old(self).existing.deep_view(), plan.deep_view(), i as int),
                    plan.deep_view()[i as int],
                ) && forall|k: int|
                    0 <= k < i ==> model_allows(
                        #[trigger] prefix_model(old(self).existing.deep_view(), plan.deep_view(), k),
                        plan.deep_view()[k],
                    ),
            },
            final(self).existing.deep_view() == (match r {
                None => prefix_model(
                    old(self).existing.deep_view(),
                    plan.deep_view(),
                    plan@.len() as int,
                ),
                Some(i) => prefix_model(old(self).existing.deep_view(), plan.deep_view(), i as int),
            }),
    {
        let ghost dv0 = self.existing.deep_view();
        let ghost pv = plan.deep_view();
        let mut i: usize = 0;
        while i < plan.len()
            invariant
                0 <= i <= plan@.len(),
                pv == plan.deep_view(),
                pv.len() == plan@.len(),
                dv0 == old(self).existing.deep_view(),
                self.existing.deep_view() == prefix_model(dv0, pv, i as int),
                forall|k: int|
                    0 <= k < i ==> model_allows(#[trigger] prefix_model(dv0, pv, k), pv[k]),
            decreases plan@.len() - i,
        {
            let ok = self.apply(&plan[i]);
            if !ok {
                return Some(i);
            }
            i = i + 1;
        }
        None
    }
}

/// The paths that exist after the first `n` actions of `plan`, starting
/// from `start`, assuming each of them succeeds.
pub open spec fn prefix_model(start: Seq<Seq<char>>, plan: Seq<ActionV>, n: int) -> Seq<Seq<char>>
    decreases n,
{
    if n <= 0 {
        start
    } else {
        model_after(prefix_model(start, plan, n - 1), plan[n - 1])
    }
}

} // verus!
