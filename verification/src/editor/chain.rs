//! Finding an editor in the configured list.
use crate::words;
use vstd::prelude::*;

verus! {

/// Whether asking `which_fn` for `s` can give `found`.
pub open spec fn on_path<W: Fn(&str) -> bool>(which_fn: W, s: Seq<char>, found: bool) -> bool {
    exists|a: &str| a@ == s && #[trigger] call_ensures(which_fn, (a,), found)
}

/// Whether asking `env_fn` for `s` can give `value`.
pub open spec fn in_env<E: Fn(&str) -> Option<String>>(
    env_fn: E,
    s: Seq<char>,
    value: Option<String>,
) -> bool {
    exists|a: &str| a@ == s && #[trigger] call_ensures(env_fn, (a,), value)
}

/// Whether a command can be found (or, with `found` false, not found): its
/// first word is asked for. An empty command never is.
pub open spec fn probed<W: Fn(&str) -> bool>(which_fn: W, cmd: Seq<char>, found: bool) -> bool {
    if words::first_word(cmd).len() == 0 {
        !found
    } else {
        on_path(which_fn, words::first_word(cmd), found)
    }
}

/// Whether an entry of the list can give `outcome`: a variable stands for its
/// value, anything else for itself.
pub open spec fn entry_gives<W: Fn(&str) -> bool, E: Fn(&str) -> Option<String>>(
    entry: String,
    which_fn: W,
    env_fn: E,
    outcome: Option<String>,
) -> bool {
    if entry@.len() > 0 && entry@[0] == '$' {
        exists|value: Option<String>| #[trigger]
            in_env(env_fn, entry@.skip(1), value) && match value {
                Some(cmd) => probed(which_fn, cmd@, outcome is Some) && (outcome is Some ==> outcome
                    == Some(cmd)),
                None => outcome is None,
            }
    } else {
        probed(which_fn, entry@, outcome is Some) && (outcome is Some ==> outcome == Some(entry))
    }
}

/// Whether the list can give `r`: the first entry that gives a command.
pub open spec fn chain_gives<W: Fn(&str) -> bool, E: Fn(&str) -> Option<String>>(
    chain: Seq<String>,
    which_fn: W,
    env_fn: E,
    r: Option<String>,
) -> bool {
    exists|k: int|
        #![trigger chain.take(k)]
        0 <= k <= chain.len() && (forall|j: int|
            0 <= j < k ==> entry_gives(#[trigger] chain[j], which_fn, env_fn, None)) && (match r {
            Some(cmd) => k < chain.len() && entry_gives(chain[k], which_fn, env_fn, Some(cmd)),
            None => k == chain.len(),
        })
}

/// What an entry stands for, if it is found.
fn resolve_entry<W, E>(entry: &String, which_fn: &W, env_fn: &E) -> (r: Option<String>) where
    W: Fn(&str) -> bool,
    E: Fn(&str) -> Option<String>,

    requires
        forall|s: &str| call_requires(*which_fn, (s,)),
        forall|s: &str| call_requires(*env_fn, (s,)),
    ensures
        entry_gives(*entry, *which_fn, *env_fn, r),
{
    let n: usize = entry.as_str().unicode_len();
    let is_variable = n > 0 && entry.as_str().get_char(0) == '$';
    let candidate: Option<String> = if is_variable {
        let name = entry.as_str().substring_char(1, n);
        assert(name@ =~= entry@.skip(1));
        let value = env_fn(name);
        assert(in_env(*env_fn, entry@.skip(1), value));
        value
    } else {
        Some(entry.clone())
    };
    let cmd = match candidate {
        Some(cmd) => cmd,
        None => {
            return None;
        },
    };
    let head = words::head_word(cmd.as_str());
    if head.as_str().is_empty() {
        assert(probed(*which_fn, cmd@, false));
        return None;
    }
    let found = which_fn(head.as_str());
    assert(on_path(*which_fn, words::first_word(cmd@), found));
    assert(probed(*which_fn, cmd@, found));
    if found {
        Some(cmd)
    } else {
        None
    }
}

/// The first entry of the list that `which_fn` finds. An entry is a command, of
/// which the first word is looked for and all of it returned, or `$NAME`, which
/// stands for what `env_fn` says of `NAME`.
pub fn resolve_editor_chain<W, E>(chain: &[String], which_fn: W, env_fn: E) -> (r: Option<
    String,
>) where W: Fn(&str) -> bool, E: Fn(&str) -> Option<String>
    requires
        forall|s: &str| call_requires(which_fn, (s,)),
        forall|s: &str| call_requires(env_fn, (s,)),
    ensures
        chain_gives(chain@, which_fn, env_fn, r),
{
    let mut i: usize = 0;
    while i < chain.len()
        invariant
            i <= chain@.len(),
            forall|s: &str| call_requires(which_fn, (s,)),
            forall|s: &str| call_requires(env_fn, (s,)),
            forall|j: int| 0 <= j < i ==> entry_gives(#[trigger] chain@[j], which_fn, env_fn, None),
        decreases chain@.len() - i,
    {
        let found = resolve_entry(&chain[i], &which_fn, &env_fn);
        if found.is_some() {
            assert(chain@.take(i as int).len() == i);
            return found;
        }
        i += 1;
    }
    assert(chain@.take(i as int).len() == i);
    None
}

} // verus!
