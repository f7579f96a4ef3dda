//! Task planning: resolve every backup set against the registry before
//! any subprocess runs, and lay the per-repository work out for the
//! dispatcher.
//!
//! Planning is separated from execution so that an unresolved repository
//! name aborts the whole run before a single engine invocation: the
//! dispatcher only ever sees a fully resolved task list.
use vstd::prelude::*;

use crate::config::set_resolves;
use crate::config::registered_repo;
use crate::config::repo_registered;
use crate::config::BackupSet;
use crate::config::Config;
use crate::config::Repo;
use crate::config::missing_repo_msg;
use crate::ErrorKind;
use crate::MyError;

verus! {

/// One planned backup invocation: the repository's registry name, the
/// repository, and the directories of its backup set.
pub struct BackupTask<'a> {
    pub name: &'a String,
    pub repo: &'a Repo,
    pub dirs: &'a Vec<String>,
}

/// The view of one planned backup task: name, repository and directory
/// views.
pub open spec fn task_view(t: BackupTask) -> (Seq<char>, Repo, Seq<Seq<char>>) {
    (t.name@, *t.repo, t.dirs.deep_view())
}

/// Whether every backup set resolves completely in the registry.
pub open spec fn all_sets_resolve(sets: Seq<BackupSet>, repos: Seq<(String, Repo)>) -> bool {
    forall|s: int| 0 <= s < sets.len() ==> set_resolves(#[trigger] sets[s], repos)
}

/// The task views one backup set contributes: one task per repository
/// name, each with the set's directories.
pub open spec fn set_tasks(set: BackupSet, repos: Seq<(String, Repo)>) -> Seq<
    (Seq<char>, Repo, Seq<Seq<char>>),
> {
    Seq::new(
        set.reponames@.len(),
        |i: int|
            (
                set.reponames@[i]@,
                registered_repo(repos, set.reponames@[i]@),
                set.dirs.deep_view(),
            ),
    )
}

/// The task views of all backup sets, in set order.
pub open spec fn planned_tasks(sets: Seq<BackupSet>, repos: Seq<(String, Repo)>) -> Seq<
    (Seq<char>, Repo, Seq<Seq<char>>),
>
    decreases sets.len(),
{
    if sets.len() == 0 {
        Seq::empty()
    } else {
        planned_tasks(sets.drop_last(), repos) + set_tasks(sets.last(), repos)
    }
}

/// Resolve every backup set of the configuration into a flat task list,
/// or abort with a configuration error naming the first repository name
/// that no registry entry carries — before any subprocess runs.
pub fn plan_backup_tasks<'a>(conf: &'a Config) -> (r: Result<Vec<BackupTask<'a>>, MyError>)
    ensures
        r is Ok <==> all_sets_resolve(conf.backupsets@, conf.repos@),
        r matches Ok(tasks) ==> tasks@.len() == planned_tasks(conf.backupsets@, conf.repos@).len()
            && forall|i: int|
            0 <= i < tasks@.len() ==> task_view(#[trigger] tasks@[i]) == planned_tasks(
                conf.backupsets@,
                conf.repos@,
            )[i],
        r matches Err(e) ==> e.kind == ErrorKind::Configuration && exists|s: int, i: int|
            0 <= s < conf.backupsets@.len() && 0 <= i < conf.backupsets@[s].reponames@.len()
                && !repo_registered(conf.repos@, conf.backupsets@[s].reponames@[i]@) && (
            forall|t: int|
                0 <= t < s ==> set_resolves(#[trigger] conf.backupsets@[t], conf.repos@)) && (
            forall|j: int|
                0 <= j < i ==> repo_registered(
                    conf.repos@,
                    #[trigger] conf.backupsets@[s].reponames@[j]@,
                )) && e.details@ == missing_repo_msg(conf.backupsets@[s].reponames@[i]@),
{
    let mut tasks: Vec<BackupTask<'a>> = Vec::new();
    let n: usize = conf.backupsets.len();
    let mut s: usize = 0;
    while s < n
        invariant
            0 <= s <= n,
            n == conf.backupsets@.len(),
            forall|t: int|
                0 <= t < s ==> set_resolves(#[trigger] conf.backupsets@[t], conf.repos@),
            tasks@.len() == planned_tasks(conf.backupsets@.take(s as int), conf.repos@).len(),
            forall|i: int|
                0 <= i < tasks@.len() ==> task_view(#[trigger] tasks@[i]) == planned_tasks(
                    conf.backupsets@.take(s as int),
                    conf.repos@,
                )[i],
        decreases n - s,
    {
        let set = &conf.backupsets[s];
        match set.repos(conf) {
            Err(e) => {
                return Err(e);
            },
            Ok(repos) => {
                let ghost before = planned_tasks(conf.backupsets@.take(s as int), conf.repos@);
                let m: usize = repos.len();
                let mut j: usize = 0;
                while j < m
                    invariant
                        0 <= j <= m,
                        m == set.reponames@.len(),
                        m == repos@.len(),
                        *set == conf.backupsets@[s as int],
                        0 <= s < conf.backupsets@.len(),
                        forall|k: int|
                            0 <= k < m ==> *#[trigger] repos@[k] == registered_repo(
                                conf.repos@,
                                set.reponames@[k]@,
                            ),
                        tasks@.len() == before.len() + j,
                        forall|i: int|
                            0 <= i < before.len() ==> task_view(#[trigger] tasks@[i]) == before[i],
                        forall|k: int|
                            0 <= k < j ==> task_view(
                                #[trigger] tasks@[before.len() + k],
                            ) == set_tasks(*set, conf.repos@)[k],
                    decreases m - j,
                {
                    tasks.push(BackupTask { name: &set.reponames[j], repo: repos[j], dirs: &set.dirs });
                    j += 1;
                }
                proof {
                    assert(conf.backupsets@.take(s + 1).drop_last() =~~= conf.backupsets@.take(
                        s as int,
                    ));
                    assert(conf.backupsets@.take(s + 1).last() == conf.backupsets@[s as int]);
                    let after = planned_tasks(conf.backupsets@.take(s + 1), conf.repos@);
                    assert(after == before + set_tasks(conf.backupsets@[s as int], conf.repos@));
                    assert forall|i: int| 0 <= i < tasks@.len() implies task_view(
                        #[trigger] tasks@[i],
                    ) == after[i] by {
                        if i >= before.len() {
                            let k = i - before.len();
                            assert(task_view(tasks@[before.len() as int + k]) == set_tasks(
                                conf.backupsets@[s as int],
                                conf.repos@,
                            )[k]);
                        }
                    }
                }
            },
        }
        s += 1;
    }
    proof {
        assert(conf.backupsets@.take(n as int) =~~= conf.backupsets@);
    }
    Ok(tasks)
}

/// Lay out one verification task per registered repository, in registry
/// order, or abort with a configuration error when the registry is
/// empty.
pub fn plan_verify_tasks<'a>(conf: &'a Config) -> (r: Result<
    Vec<(&'a String, &'a Repo)>,
    MyError,
>)
    ensures
        r is Ok <==> conf.repos@.len() > 0,
        r matches Err(e) ==> e.kind == ErrorKind::Configuration && e.details@
            == "No repositories found to verify."@,
        r matches Ok(v) ==> v@.len() == conf.repos@.len() && forall|i: int|
            0 <= i < v@.len() ==> (#[trigger] v@[i].0)@ == conf.repos@[i].0@ && *v@[i].1
                == conf.repos@[i].1,
{
    if conf.repos.len() == 0 {
        return Err(
            MyError::new(
                ErrorKind::Configuration,
                String::from_str("No repositories found to verify."),
            ),
        );
    }
    let mut out: Vec<(&'a String, &'a Repo)> = Vec::new();
    let n: usize = conf.repos.len();
    let mut i: usize = 0;
    while i < n
        invariant
            0 <= i <= n,
            n == conf.repos@.len(),
            out@.len() == i,
            forall|j: int|
                0 <= j < i ==> (#[trigger] out@[j].0)@ == conf.repos@[j].0@ && *out@[j].1
                    == conf.repos@[j].1,
        decreases n - i,
    {
        let entry = &conf.repos[i];
        out.push((&entry.0, &entry.1));
        i += 1;
    }
    Ok(out)
}

} // verus!
