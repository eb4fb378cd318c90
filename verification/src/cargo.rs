//! The cargo invocations that the build tasks issue, and how their exit
//! status becomes an outcome.
use crate::strings::{copy_strings, join, owned, seq_join, str_views, to_strings, views};
use vstd::prelude::*;

verus! {

/// A run of `cargo` in the repository root: its arguments, the environment
/// variables it sets and those it removes from the inherited environment.
pub struct CargoCommand {
    pub args: Vec<String>,
    pub set_env: Vec<(String, String)>,
    pub remove_env: Vec<String>,
}

/// The mathematical content of a [`CargoCommand`].
pub struct CargoView {
    pub args: Seq<Seq<char>>,
    pub set_env: Seq<(Seq<char>, Seq<char>)>,
    pub remove_env: Seq<Seq<char>>,
}

/// The character sequences of a sequence of (name, value) pairs.
pub open spec fn pair_views(v: Seq<(String, String)>) -> Seq<(Seq<char>, Seq<char>)> {
    v.map_values(|p: (String, String)| (p.0@, p.1@))
}

impl View for CargoCommand {
    type V = CargoView;

    open spec fn view(&self) -> CargoView {
        CargoView {
            args: views(self.args@),
            set_env: pair_views(self.set_env@),
            remove_env: views(self.remove_env@),
        }
    }
}

/// The variables that an environment update sets, in order: the entries
/// that carry a value.
pub open spec fn env_sets(env: Seq<(String, Option<String>)>) -> Seq<(Seq<char>, Seq<char>)>
    decreases env.len(),
{
    if env.len() == 0 {
        Seq::empty()
    } else {
        let rest = env_sets(env.drop_last());
        match env.last().1 {
            Some(value) => rest.push((env.last().0@, value@)),
            None => rest,
        }
    }
}

/// The variables that an environment update removes, in order: the entries
/// that carry no value.
pub open spec fn env_removals(env: Seq<(String, Option<String>)>) -> Seq<Seq<char>>
    decreases env.len(),
{
    if env.len() == 0 {
        Seq::empty()
    } else {
        let rest = env_removals(env.drop_last());
        match env.last().1 {
            Some(_) => rest,
            None => rest.push(env.last().0@),
        }
    }
}

/// The cargo run that [`cargo_from_env`] describes.
pub open spec fn spec_cargo_from_env(
    args: Seq<Seq<char>>,
    env: Option<Seq<(String, Option<String>)>>,
) -> CargoView {
    match env {
        Some(e) => CargoView { args, set_env: env_sets(e), remove_env: env_removals(e) },
        None => CargoView { args, set_env: Seq::empty(), remove_env: Seq::empty() },
    }
}

/// No variable is named twice in an environment update (as in a map from
/// names to values).
pub open spec fn distinct_names(env: Seq<(String, Option<String>)>) -> bool {
    forall|i: int, j: int| 0 <= i < j < env.len() ==> #[trigger] env[i].0@ != #[trigger] env[j].0@
}

/// Describes `cargo <args>` run in the repository root, with the
/// environment changed by `env`, a map from variable names to values: each
/// entry with a value sets that variable, each entry without one removes it.
pub fn cargo_from_env(args: &[&str], env: Option<&Vec<(String, Option<String>)>>) -> (r:
    CargoCommand)
    requires
        env matches Some(e) ==> distinct_names(e@),
    ensures
        r@ == spec_cargo_from_env(
            str_views(args@),
            match env {
                Some(e) => Some(e@),
                None => None,
            },
        ),
{
    let mut set_env: Vec<(String, String)> = Vec::new();
    let mut remove_env: Vec<String> = Vec::new();
    if let Some(env) = env {
        let mut i: usize = 0;
        while i < env.len()
            invariant
                i <= env@.len(),
                pair_views(set_env@) == env_sets(env@.take(i as int)),
                views(remove_env@) == env_removals(env@.take(i as int)),
            decreases env@.len() - i,
        {
            let ghost prefix = env@.take(i as int);
            assert(env@.take(i + 1).drop_last() =~= prefix);
            let name = &env[i].0;
            match &env[i].1 {
                Some(value) => {
                    set_env.push((name.clone(), value.clone()));
                    assert(pair_views(set_env@) =~= env_sets(prefix).push((name@, value@)));
                },
                None => {
                    remove_env.push(name.clone());
                    assert(views(remove_env@) =~= env_removals(prefix).push(name@));
                },
            }
            i = i + 1;
        }
        assert(env@.take(env@.len() as int) =~= env@);
    } else {
        assert(pair_views(set_env@) =~= Seq::empty());
        assert(views(remove_env@) =~= Seq::empty());
    }
    CargoCommand { args: to_strings(args), set_env, remove_env }
}

/// Describes `cargo <args>` run in the repository root with the inherited
/// environment.
pub fn cargo(args: &[&str]) -> (r: CargoCommand)
    ensures
        r@ == spec_cargo_from_env(str_views(args@), None),
{
    cargo_from_env(args, None)
}

impl CargoCommand {
    /// An independent copy of this command.
    pub fn duplicate(&self) -> (r: CargoCommand)
        ensures
            r@ == self@,
    {
        let mut set_env: Vec<(String, String)> = Vec::new();
        let mut i: usize = 0;
        while i < self.set_env.len()
            invariant
                i <= self.set_env@.len(),
                set_env@.len() == i,
                forall|j: int|
                    0 <= j < i ==> (#[trigger] set_env@[j]).0@ == self.set_env@[j].0@
                        && set_env@[j].1@ == self.set_env@[j].1@,
            decreases self.set_env@.len() - i,
        {
            let pair = &self.set_env[i];
            set_env.push((pair.0.clone(), pair.1.clone()));
            i = i + 1;
        }
        assert(pair_views(set_env@) =~= pair_views(self.set_env@));
        CargoCommand {
            args: copy_strings(&self.args),
            set_env,
            remove_env: copy_strings(&self.remove_env),
        }
    }

    /// The line printed before the run: `[xtask] cargo ` and the arguments
    /// joined by spaces.
    pub fn announcement(&self) -> (r: String)
        ensures
            r@ == "[xtask] cargo "@ + seq_join(self@.args, " "@),
    {
        let mut r = owned("[xtask] cargo ");
        r.append(self.joined(" ").as_str());
        r
    }

    /// The context given to a failure to start the run: `[xtask] cargo ` and
    /// the arguments joined with nothing between them.
    pub fn spawn_context(&self) -> (r: String)
        ensures
            r@ == "[xtask] cargo "@ + seq_join(self@.args, ""@),
    {
        let mut r = owned("[xtask] cargo ");
        r.append(self.joined("").as_str());
        r
    }

    fn joined(&self, sep: &str) -> (r: String)
        ensures
            r@ == seq_join(self@.args, sep@),
    {
        let mut parts: Vec<&str> = Vec::new();
        let mut i: usize = 0;
        while i < self.args.len()
            invariant
                i <= self.args@.len(),
                parts@.len() == i,
                forall|j: int| 0 <= j < i ==> #[trigger] parts@[j]@ == self.args@[j]@,
            decreases self.args@.len() - i,
        {
            let part = self.args[i].as_str();
            parts.push(part);
            i = i + 1;
        }
        assert(str_views(parts@) =~= views(self.args@));
        join(parts.as_slice(), sep)
    }
}

/// The entries of an environment update that carry no value.
pub open spec fn unset_entries(env: Seq<(String, Option<String>)>) -> Seq<(String, Option<String>)> {
    env.filter(|e: (String, Option<String>)| e.1 is None)
}

/// The entries of an environment update that carry a value.
pub open spec fn set_entries(env: Seq<(String, Option<String>)>) -> Seq<(String, Option<String>)> {
    env.filter(|e: (String, Option<String>)| e.1 is Some)
}

/// An environment update removes every variable whose entry carries no
/// value and sets every variable whose entry carries one, to that value: as
/// many removals as entries without a value, as many settings as entries
/// with one, and nothing else.
pub proof fn lemma_env_update_covers_every_entry(env: Seq<(String, Option<String>)>)
    ensures
        env_removals(env).len() == unset_entries(env).len(),
        env_sets(env).len() == set_entries(env).len(),
        forall|i: int|
            0 <= i < env.len() && env[i].1 is None ==> env_removals(env).contains(env[i].0@),
        forall|i: int|
            0 <= i < env.len() && env[i].1 is Some ==> env_sets(env).contains(
                (env[i].0@, env[i].1->0@),
            ),
        forall|n: Seq<char>|
            env_removals(env).contains(n) ==> exists|i: int|
                0 <= i < env.len() && env[i].1 is None && env[i].0@ == n,
        forall|p: (Seq<char>, Seq<char>)|
            env_sets(env).contains(p) ==> exists|i: int|
                0 <= i < env.len() && env[i].1 is Some && env[i].0@ == p.0 && env[i].1->0@ == p.1,
    decreases env.len(),
{
    reveal(Seq::filter);
    if env.len() > 0 {
        let d = env.drop_last();
        let last = env.last();
        lemma_env_update_covers_every_entry(d);
        assert(unset_entries(env) == if last.1 is None {
            unset_entries(d).push(last)
        } else {
            unset_entries(d)
        });
        assert(set_entries(env) == if last.1 is Some {
            set_entries(d).push(last)
        } else {
            set_entries(d)
        });
        assert forall|i: int| 0 <= i < env.len() && env[i].1 is None implies env_removals(
            env,
        ).contains(env[i].0@) by {
            if i < env.len() - 1 {
                assert(d[i] == env[i]);
                let k = choose|k: int| 0 <= k < env_removals(d).len() && env_removals(d)[k] == d[i].0@;
                assert(env_removals(env)[k] == d[i].0@);
            } else {
                assert(env_removals(env)[env_removals(env).len() - 1] == last.0@);
            }
        }
        assert forall|i: int| 0 <= i < env.len() && env[i].1 is Some implies env_sets(env).contains(
            (env[i].0@, env[i].1->0@),
        ) by {
            if i < env.len() - 1 {
                assert(d[i] == env[i]);
                let k = choose|k: int|
                    0 <= k < env_sets(d).len() && env_sets(d)[k] == (d[i].0@, d[i].1->0@);
                assert(env_sets(env)[k] == (d[i].0@, d[i].1->0@));
            } else {
                assert(env_sets(env)[env_sets(env).len() - 1] == (last.0@, last.1->0@));
            }
        }
        assert forall|n: Seq<char>| env_removals(env).contains(n) implies exists|i: int|
            0 <= i < env.len() && env[i].1 is None && env[i].0@ == n by {
            let k = choose|k: int| 0 <= k < env_removals(env).len() && env_removals(env)[k] == n;
            if k < env_removals(d).len() {
                assert(env_removals(d).contains(n));
                let i = choose|i: int| 0 <= i < d.len() && d[i].1 is None && d[i].0@ == n;
                assert(env[i] == d[i]);
            } else {
                assert(env[env.len() - 1] == last);
            }
        }
        assert forall|p: (Seq<char>, Seq<char>)| env_sets(env).contains(p) implies exists|i: int|
            0 <= i < env.len() && env[i].1 is Some && env[i].0@ == p.0 && env[i].1->0@ == p.1 by {
            let k = choose|k: int| 0 <= k < env_sets(env).len() && env_sets(env)[k] == p;
            if k < env_sets(d).len() {
                assert(env_sets(d).contains(p));
                let i = choose|i: int|
                    0 <= i < d.len() && d[i].1 is Some && d[i].0@ == p.0 && d[i].1->0@ == p.1;
                assert(env[i] == d[i]);
            } else {
                assert(env[env.len() - 1] == last);
            }
        }
    }
}

} // verus!
