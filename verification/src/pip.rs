//! The `pip install` run that adds packages to the Python distribution: its
//! arguments, its working directory, and how its exit status is reported.
use crate::strings::{copy_strings, owned, views};
use vstd::prelude::*;

verus! {

/// The arguments given to the distribution's Python to install
/// `install_args` with pip: `-m pip --disable-pip-version-check`, then
/// `--verbose` when asked for, then `install` and the packages.
pub open spec fn spec_pip_args(verbose: bool, install_args: Seq<Seq<char>>) -> Seq<Seq<char>> {
    seq!["-m"@, "pip"@, "--disable-pip-version-check"@].add(
        if verbose {
            seq!["--verbose"@]
        } else {
            Seq::empty()
        },
    ).add(seq!["install"@]).add(install_args)
}

/// The arguments of the pip run.
pub fn pip_args(verbose: bool, install_args: &Vec<String>) -> (r: Vec<String>)
    ensures
        views(r@) == spec_pip_args(verbose, views(install_args@)),
{
    let mut r: Vec<String> = Vec::new();
    r.push(owned("-m"));
    r.push(owned("pip"));
    r.push(owned("--disable-pip-version-check"));
    if verbose {
        r.push(owned("--verbose"));
    }
    r.push(owned("install"));
    let ghost head = views(r@);
    let mut rest = copy_strings(install_args);
    r.append(&mut rest);
    assert(views(r@) =~= head.add(views(install_args@)));
    assert(views(r@) =~= spec_pip_args(verbose, views(install_args@)));
    r
}

/// The variables that a list of (name, value) assignments defines, a later
/// assignment of a name replacing an earlier one (as inserting them one after
/// another into a map does).
pub open spec fn env_map(env: Seq<(String, String)>) -> Map<Seq<char>, Seq<char>>
    decreases env.len(),
{
    if env.len() == 0 {
        Map::empty()
    } else {
        env_map(env.drop_last()).insert(env.last().0@, env.last().1@)
    }
}

proof fn lemma_env_map_suffix(env: Seq<(String, String)>, k: int, name: Seq<char>)
    requires
        0 <= k <= env.len(),
        forall|j: int| k <= j < env.len() ==> (#[trigger] env[j]).0@ != name,
    ensures
        env_map(env).contains_key(name) == env_map(env.take(k)).contains_key(name),
        env_map(env).contains_key(name) ==> env_map(env)[name] == env_map(env.take(k))[name],
    decreases env.len() - k,
{
    if k < env.len() {
        assert(env.drop_last() =~= env.take(env.len() - 1));
        lemma_env_map_suffix(env.drop_last(), k, name);
        assert(env.drop_last().take(k) =~= env.take(k));
    } else {
        assert(env.take(k) =~= env);
    }
}

/// The value that `env` gives the variable `name`, if any.
pub fn env_value(env: &Vec<(String, String)>, name: &str) -> (r: Option<String>)
    ensures
        r is Some <==> env_map(env@).contains_key(name@),
        r matches Some(v) ==> v@ == env_map(env@)[name@],
{
    let mut i = env.len();
    while i > 0
        invariant
            i <= env@.len(),
            forall|j: int| i <= j < env@.len() ==> (#[trigger] env@[j]).0@ != name@,
        decreases i,
    {
        let entry = &env[i - 1];
        if entry.0 == owned(name) {
            proof {
                lemma_env_map_suffix(env@, i as int, name@);
                assert(env@.take(i as int).drop_last() =~= env@.take(i - 1));
            }
            return Some(entry.1.clone());
        }
        i = i - 1;
    }
    proof {
        lemma_env_map_suffix(env@, 0, name@);
    }
    None
}

/// The directory the pip run is started in: the one that the extra
/// environment names under `CURRENT_DIR`, if it names one.
pub fn pip_current_dir(extra_envs: &Vec<(String, String)>) -> (r: Option<String>)
    ensures
        r is Some <==> env_map(extra_envs@).contains_key("CURRENT_DIR"@),
        r matches Some(v) ==> v@ == env_map(extra_envs@)["CURRENT_DIR"@],
{
    env_value(extra_envs, "CURRENT_DIR")
}

/// What is reported after the pip run: the log printed, and the result.
pub struct PipReport {
    pub log: String,
    pub succeeded: bool,
}

/// The report of a finished pip run: on success its standard output under
/// `pip install log:`, otherwise its standard error under `pip install err:`
/// and a failure ("error running pip").
pub fn pip_report(success: bool, stdout: &str, stderr: &str) -> (r: PipReport)
    ensures
        r.succeeded == success,
        success ==> r.log@ == "pip install log:\n"@ + stdout@,
        !success ==> r.log@ == "pip install err:\n"@ + stderr@,
{
    if success {
        let mut log = owned("pip install log:\n");
        log.append(stdout);
        PipReport { log, succeeded: true }
    } else {
        let mut log = owned("pip install err:\n");
        log.append(stderr);
        PipReport { log, succeeded: false }
    }
}

/// The pip command line passes every package on, in order, after the fixed
/// options: `-m pip --disable-pip-version-check`, `--verbose` only when
/// asked for, `install`, then exactly the install arguments.
pub proof fn lemma_pip_args_pass_every_package(verbose: bool, install_args: Seq<Seq<char>>)
    ensures
        ({
            let r = spec_pip_args(verbose, install_args);
            let head = if verbose {
                5int
            } else {
                4int
            };
            &&& r.len() == head + install_args.len()
            &&& r[0] == "-m"@ && r[1] == "pip"@ && r[2] == "--disable-pip-version-check"@
            &&& verbose ==> r[3] == "--verbose"@
            &&& r[head - 1] == "install"@
            &&& forall|k: int| 0 <= k < install_args.len() ==> r[head + k] == install_args[k]
        }),
{
}

} // verus!
