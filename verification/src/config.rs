//! The repository registry: named repositories, backup sets and the SMTP
//! notification settings, together with name resolution.
//!
//! The registry keeps repositories as an ordered list of `(name, repo)`
//! pairs; names are expected to be unique, and lookup returns the first
//! entry whose name matches.
use vstd::prelude::*;

use crate::ErrorKind;
use crate::MyError;

verus! {

/// A named backup destination: connection URL, optional environment
/// overrides and optional engine option flags, both as ordered lists of
/// `(key, value)` pairs.
#[derive(Debug)]
pub struct Repo {
    pub url: String,
    pub env: Option<Vec<(String, String)>>,
    pub options: Option<Vec<(String, String)>>,
}

/// A grouping of repositories and directories to be backed up together.
#[derive(Debug)]
pub struct BackupSet {
    pub reponames: Vec<String>,
    pub dirs: Vec<String>,
}

/// Transport settings for the notification channel.
#[derive(Debug)]
pub struct SmtpNotificationConfig {
    pub server: String,
    pub port: isize,
    pub username: String,
    pub password: String,
    pub from: String,
    pub to: String,
}

/// The whole configuration: the repository registry, the backup sets and
/// the notification settings.
#[derive(Debug)]
pub struct Config {
    pub repos: Vec<(String, Repo)>,
    pub backupsets: Vec<BackupSet>,
    pub smtpnotify: SmtpNotificationConfig,
}

/// Whether some entry of the registry is named `name`.
pub open spec fn repo_registered(repos: Seq<(String, Repo)>, name: Seq<char>) -> bool
    decreases repos.len(),
{
    if repos.len() == 0 {
        false
    } else if repos[0].0@ == name {
        true
    } else {
        repo_registered(repos.drop_first(), name)
    }
}

/// The repository registered under `name`: the first entry whose name
/// matches. Meaningful only when `repo_registered` holds.
pub open spec fn registered_repo(repos: Seq<(String, Repo)>, name: Seq<char>) -> Repo
    decreases repos.len(),
{
    if repos.len() == 0 {
        arbitrary()
    } else if repos[0].0@ == name {
        repos[0].1
    } else {
        registered_repo(repos.drop_first(), name)
    }
}

proof fn lemma_registered_skip_step(repos: Seq<(String, Repo)>, name: Seq<char>, i: int)
    requires
        0 <= i < repos.len(),
        repos[i].0@ != name,
    ensures
        repo_registered(repos.skip(i), name) == repo_registered(repos.skip(i + 1), name),
        repo_registered(repos.skip(i), name) ==> registered_repo(repos.skip(i), name)
            == registered_repo(repos.skip(i + 1), name),
{
    assert(repos.skip(i).drop_first() =~= repos.skip(i + 1));
}

/// Equality of two strings, by contents.
pub fn string_eq(a: &String, b: &String) -> (r: bool)
    ensures
        r == (a@ == b@),
{
    *a == *b
}

/// Look a repository up by name: the first registry entry whose name
/// matches, if there is one.
pub fn find_repo<'a>(conf: &'a Config, name: &String) -> (r: Option<&'a Repo>)
    ensures
        match r {
            Some(repo) => repo_registered(conf.repos@, name@) && *repo == registered_repo(
                conf.repos@,
                name@,
            ),
            None => !repo_registered(conf.repos@, name@),
        },
{
    let n: usize = conf.repos.len();
    let mut i: usize = 0;
    assert(conf.repos@.skip(0) =~= conf.repos@);
    while i < n
        invariant
            0 <= i <= n,
            n == conf.repos@.len(),
            repo_registered(conf.repos@, name@) == repo_registered(
                conf.repos@.skip(i as int),
                name@,
            ),
            repo_registered(conf.repos@, name@) ==> registered_repo(conf.repos@, name@)
                == registered_repo(conf.repos@.skip(i as int), name@),
        decreases n - i,
    {
        assert(conf.repos@.skip(i as int)[0] == conf.repos@[i as int]);
        if string_eq(&conf.repos[i].0, name) {
            return Some(&conf.repos[i].1);
        }
        proof {
            lemma_registered_skip_step(conf.repos@, name@, i as int);
        }
        i += 1;
    }
    assert(conf.repos@.skip(n as int) =~= Seq::<(String, Repo)>::empty());
    None
}

/// Resolve the operator-supplied repository name for an initialization
/// run: the name is required, and must be registered.
pub fn resolve_init_repo<'a>(conf: &'a Config, repo_name: Option<String>) -> (r: Result<
    &'a Repo,
    MyError,
>)
    ensures
        repo_name is None ==> (r matches Err(e) && e.kind == ErrorKind::Configuration
            && e.details@ == "reponame is a required argument for the init command"@),
        repo_name matches Some(name) ==> match r {
            Ok(repo) => repo_registered(conf.repos@, name@) && *repo == registered_repo(
                conf.repos@,
                name@,
            ),
            Err(e) => !repo_registered(conf.repos@, name@) && e.kind == ErrorKind::Configuration
                && e.details@ == "Couldn't find a repo named "@ + name@,
        },
{
    match repo_name {
        None => Err(
            MyError::new(
                ErrorKind::Configuration,
                String::from_str("reponame is a required argument for the init command"),
            ),
        ),
        Some(name) => {
            match find_repo(conf, &name) {
                Some(repo) => Ok(repo),
                None => {
                    let mut msg = String::from_str("Couldn't find a repo named ");
                    msg.append(name.as_str());
                    Err(MyError::new(ErrorKind::Configuration, msg))
                },
            }
        },
    }
}

/// Whether every repository name of the set resolves in the registry.
pub open spec fn set_resolves(set: BackupSet, repos: Seq<(String, Repo)>) -> bool {
    forall|i: int|
        0 <= i < set.reponames@.len() ==> repo_registered(repos, #[trigger] set.reponames@[i]@)
}

/// The message reported for a backup-set entry that names no registered
/// repository.
pub open spec fn missing_repo_msg(name: Seq<char>) -> Seq<char> {
    "Backupset config refers to a repo named "@ + name
        + ", but none was found in repos config."@
}

impl BackupSet {
    /// Resolve every repository name of this set against the registry, in
    /// order. An unregistered name is a fatal configuration error.
    pub fn repos<'a>(&self, config: &'a Config) -> (r: Result<Vec<&'a Repo>, MyError>)
        ensures
            match r {
                Ok(v) => set_resolves(*self, config.repos@) && v@.len() == self.reponames@.len()
                    && forall|i: int|
                    0 <= i < v@.len() ==> *#[trigger] v@[i] == registered_repo(
                        config.repos@,
                        self.reponames@[i]@,
                    ),
                Err(e) => !set_resolves(*self, config.repos@) && e.kind
                    == ErrorKind::Configuration && exists|i: int|
                    0 <= i < self.reponames@.len() && !repo_registered(
                        config.repos@,
                        #[trigger] self.reponames@[i]@,
                    ) && (forall|j: int|
                        0 <= j < i ==> repo_registered(config.repos@, #[trigger] self.reponames@[j]@))
                        && e.details@ == missing_repo_msg(self.reponames@[i]@),
            },
    {
        let mut out: Vec<&'a Repo> = Vec::new();
        let n: usize = self.reponames.len();
        let mut i: usize = 0;
        while i < n
            invariant
                0 <= i <= n,
                n == self.reponames@.len(),
                out@.len() == i,
                forall|j: int|
                    0 <= j < i ==> repo_registered(config.repos@, #[trigger] self.reponames@[j]@),
                forall|j: int|
                    0 <= j < i ==> *#[trigger] out@[j] == registered_repo(
                        config.repos@,
                        self.reponames@[j]@,
                    ),
            decreases n - i,
        {
            match find_repo(config, &self.reponames[i]) {
                Some(repo) => {
                    out.push(repo);
                },
                None => {
                    let mut msg = String::from_str("Backupset config refers to a repo named ");
                    msg.append(self.reponames[i].as_str());
                    msg.append(", but none was found in repos config.");
                    return Err(MyError::new(ErrorKind::Configuration, msg));
                },
            }
            i += 1;
        }
        Ok(out)
    }
}

} // verus!
