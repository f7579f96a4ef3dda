//! Construction of the engine subprocess invocation: program, argument
//! list and per-subprocess environment overrides.
use vstd::prelude::*;

use crate::config::Repo;
use crate::strutil::lemma_string_vec_deep_view;

verus! {

/// One planned subprocess invocation: the program to run, its arguments
/// in order, and environment variables set for the subprocess only.
pub struct CommandSpec {
    pub program: String,
    pub args: Vec<String>,
    pub env: Vec<(String, String)>,
}

/// The `-o key=value` engine option flags for `options`, in order.
pub open spec fn option_flag_args(options: Seq<(String, String)>) -> Seq<Seq<char>>
    decreases options.len(),
{
    if options.len() == 0 {
        Seq::empty()
    } else {
        option_flag_args(options.drop_last()) + seq![
            "-o"@,
            options.last().0@ + "="@ + options.last().1@,
        ]
    }
}

/// The arguments shared by every operation: the target repository and its
/// option flags.
pub open spec fn standard_args(repo: Repo) -> Seq<Seq<char>> {
    seq!["-r"@, repo.url@] + match repo.options {
        Some(o) => option_flag_args(o@),
        None => Seq::empty(),
    }
}

/// The environment overrides of `repo`, as name/value views.
pub open spec fn repo_env(repo: Repo) -> Seq<(Seq<char>, Seq<char>)> {
    match repo.env {
        Some(e) => Seq::new(e@.len(), |i: int| (e@[i].0@, e@[i].1@)),
        None => Seq::empty(),
    }
}

/// Append `-r <url>` and the option flags of `repo` to `args`.
fn push_standard_options(repo: &Repo, args: &mut Vec<String>)
    ensures
        final(args).deep_view() == old(args).deep_view() + standard_args(*repo),
{
    args.push(String::from_str("-r"));
    args.push(repo.url.clone());
    let ghost base = old(args).deep_view() + seq!["-r"@, repo.url@];
    proof {
        lemma_string_vec_deep_view(*old(args));
        lemma_string_vec_deep_view(*args);
    }
    assert(args.deep_view() =~~= base);
    match &repo.options {
        Some(options) => {
            let n: usize = options.len();
            let mut i: usize = 0;
            while i < n
                invariant
                    0 <= i <= n,
                    n == options@.len(),
                    args.deep_view() =~~= base + option_flag_args(options@.take(i as int)),
                decreases n - i,
            {
                let pair = &options[i];
                let flag = String::from_str("-o");
                let kv = pair.0.clone().concat("=").concat(pair.1.as_str());
                let ghost prev = *args;
                args.push(flag);
                args.push(kv);
                proof {
                    lemma_string_vec_deep_view(prev);
                    lemma_string_vec_deep_view(*args);
                    assert(options@.take(i + 1).drop_last() =~~= options@.take(i as int));
                    assert(options@.take(i + 1).last() == options@[i as int]);
                    assert(args.deep_view() =~~= base + option_flag_args(options@.take(i + 1)));
                }
                i += 1;
            }
            proof {
                lemma_string_vec_deep_view(*args);
                assert(options@.take(n as int) =~~= options@);
                assert(args.deep_view() =~~= old(args).deep_view() + standard_args(*repo));
            }
        },
        None => {
            proof {
                lemma_string_vec_deep_view(*args);
            }
            assert(args.deep_view() =~~= old(args).deep_view() + standard_args(*repo));
        },
    }
}

/// Copy the environment overrides of `repo` into an owned list.
fn collect_env(repo: &Repo) -> (r: Vec<(String, String)>)
    ensures
        r@.len() == repo_env(*repo).len(),
        forall|i: int|
            0 <= i < r@.len() ==> (#[trigger] r@[i].0@, r@[i].1@) == repo_env(*repo)[i],
{
    let mut out: Vec<(String, String)> = Vec::new();
    match &repo.env {
        Some(env) => {
            let n: usize = env.len();
            let mut i: usize = 0;
            while i < n
                invariant
                    0 <= i <= n,
                    n == env@.len(),
                    repo.env == Some(*env),
                    out@.len() == i,
                    forall|j: int|
                        0 <= j < i ==> (#[trigger] out@[j].0@, out@[j].1@) == repo_env(*repo)[j],
                decreases n - i,
            {
                out.push((env[i].0.clone(), env[i].1.clone()));
                i += 1;
            }
            out
        },
        None => out,
    }
}

/// The invocation that initializes `repo`: `init` with the standard
/// options.
pub fn build_init_command(repo: &Repo) -> (c: CommandSpec)
    ensures
        c.program@ == "restic"@,
        c.args.deep_view() == seq!["init"@] + standard_args(*repo),
        c.env@.len() == repo_env(*repo).len(),
        forall|i: int|
            0 <= i < c.env@.len() ==> (#[trigger] c.env@[i].0@, c.env@[i].1@) == repo_env(*repo)[i],
{
    let mut args: Vec<String> = Vec::new();
    args.push(String::from_str("init"));
    assert(args.deep_view() =~~= seq!["init"@]);
    push_standard_options(repo, &mut args);
    CommandSpec { program: String::from_str("restic"), args, env: collect_env(repo) }
}

/// The invocation that backs `dirs` up into `repo`: `backup` with quiet,
/// structured output, the standard options, and the directories as
/// trailing positional arguments.
pub fn build_backup_command(repo: &Repo, dirs: &Vec<String>) -> (c: CommandSpec)
    ensures
        c.program@ == "restic"@,
        c.args.deep_view() == seq!["backup"@, "--json"@, "-q"@] + standard_args(*repo)
            + dirs.deep_view(),
        c.env@.len() == repo_env(*repo).len(),
        forall|i: int|
            0 <= i < c.env@.len() ==> (#[trigger] c.env@[i].0@, c.env@[i].1@) == repo_env(*repo)[i],
{
    let mut args: Vec<String> = Vec::new();
    args.push(String::from_str("backup"));
    args.push(String::from_str("--json"));
    args.push(String::from_str("-q"));
    assert(args.deep_view() =~~= seq!["backup"@, "--json"@, "-q"@]);
    push_standard_options(repo, &mut args);
    let ghost mid = seq!["backup"@, "--json"@, "-q"@] + standard_args(*repo);
    let n: usize = dirs.len();
    let mut i: usize = 0;
    while i < n
        invariant
            0 <= i <= n,
            n == dirs@.len(),
            args.deep_view() =~~= mid + dirs.deep_view().take(i as int),
        decreases n - i,
    {
        let ghost prev = args;
        args.push(dirs[i].clone());
        proof {
            lemma_string_vec_deep_view(prev);
            lemma_string_vec_deep_view(args);
            lemma_string_vec_deep_view(*dirs);
            assert(dirs.deep_view().take(i + 1).drop_last() =~~= dirs.deep_view().take(i as int));
            assert(args.deep_view() =~~= mid + dirs.deep_view().take(i + 1));
        }
        i += 1;
    }
    proof {
        assert(dirs.deep_view().take(n as int) =~~= dirs.deep_view());
    }
    CommandSpec { program: String::from_str("restic"), args, env: collect_env(repo) }
}

/// The invocation that lists the most recent snapshot of `repo` in
/// structured form: `snapshots --last --json` with the standard options.
pub fn build_verify_command(repo: &Repo) -> (c: CommandSpec)
    ensures
        c.program@ == "restic"@,
        c.args.deep_view() == seq!["snapshots"@, "--last"@, "--json"@] + standard_args(*repo),
        c.env@.len() == repo_env(*repo).len(),
        forall|i: int|
            0 <= i < c.env@.len() ==> (#[trigger] c.env@[i].0@, c.env@[i].1@) == repo_env(*repo)[i],
{
    let mut args: Vec<String> = Vec::new();
    args.push(String::from_str("snapshots"));
    args.push(String::from_str("--last"));
    args.push(String::from_str("--json"));
    assert(args.deep_view() =~~= seq!["snapshots"@, "--last"@, "--json"@]);
    push_standard_options(repo, &mut args);
    CommandSpec { program: String::from_str("restic"), args, env: collect_env(repo) }
}

} // verus!
