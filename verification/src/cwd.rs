//! The directory in which a new pane starts.
use crate::layout;
use crate::layout::{LayoutNode, PaneId};
use crate::text;
use crate::window::NewPaneCwd;
use vstd::prelude::*;

verus! {

/// Whether `is_dir` can say `yes` of the path `s`.
pub open spec fn dir_says<D: Fn(&str) -> bool>(is_dir: D, s: Seq<char>, yes: bool) -> bool {
    exists|a: &str| a@ == s && #[trigger] call_ensures(is_dir, (a,), yes)
}

/// Whether `translate` can turn the path `s` into `t`.
pub open spec fn translates<T: Fn(&str) -> String>(translate: T, s: Seq<char>, t: String) -> bool {
    exists|a: &str| a@ == s && #[trigger] call_ensures(translate, (a,), t)
}

/// Whether `path` can be judged usable (or, with `ok` false, unusable): it is a
/// directory, or its translation is another path and that is a directory.
pub open spec fn judged<D: Fn(&str) -> bool, T: Fn(&str) -> String>(
    path: Seq<char>,
    is_dir: D,
    translate: T,
    ok: bool,
) -> bool {
    ||| ok && dir_says(is_dir, path, true)
    ||| dir_says(is_dir, path, false) && exists|t: String| #[trigger]
        translates(translate, path, t) && (if t@ == path {
            !ok
        } else {
            dir_says(is_dir, t@, ok)
        })
}

/// Whether `r` is what can become of the reported directory `cwd`: itself if it
/// is usable, else nothing. An empty one never is.
pub open spec fn validated<D: Fn(&str) -> bool, T: Fn(&str) -> String>(
    cwd: Option<String>,
    is_dir: D,
    translate: T,
    r: Option<String>,
) -> bool {
    match cwd {
        Some(c) => if c@.len() == 0 {
            r is None
        } else {
            judged(c@, is_dir, translate, r is Some) && (r is Some ==> r == Some(c))
        },
        None => r is None,
    }
}

/// The directory that a new pane inherits: the reported one, if it is there.
///
/// `translate` gives the path under which the host sees a path of its Linux
/// guest, and any other path unchanged. A directory that only the translation
/// reaches is still returned as the guest knows it, because the new shell runs
/// there.
pub fn validate_inherited_cwd<D, T>(cwd: Option<String>, is_dir: D, translate: T) -> (r: Option<
    String,
>) where D: Fn(&str) -> bool, T: Fn(&str) -> String
    requires
        forall|s: &str| call_requires(is_dir, (s,)),
        forall|s: &str| call_requires(translate, (s,)),
    ensures
        validated(cwd, is_dir, translate, r),
{
    let cwd = match cwd {
        Some(c) => c,
        None => {
            return None;
        },
    };
    if cwd.as_str().is_empty() {
        return None;
    }
    let here = is_dir(cwd.as_str());
    assert(dir_says(is_dir, cwd@, here));
    if here {
        return Some(cwd);
    }
    let translated = translate(cwd.as_str());
    assert(translates(translate, cwd@, translated));
    if text::str_eq(translated.as_str(), cwd.as_str()) {
        return None;
    }
    let there = is_dir(translated.as_str());
    assert(dir_says(is_dir, translated@, there));
    if there {
        return Some(cwd);
    }
    None
}

/// What is known of the directory of a pane.
pub open spec fn reported(layout: LayoutNode, id: PaneId) -> Option<String> {
    match layout.pane(id) {
        Some(p) => p.cwd,
        None => None,
    }
}

/// The directory of the pane that is split, if it is there.
pub fn cwd_from_source_pane<D, T>(
    layout: &LayoutNode,
    source_id: PaneId,
    is_dir: D,
    translate: T,
) -> (r: Option<String>) where D: Fn(&str) -> bool, T: Fn(&str) -> String
    requires
        forall|s: &str| call_requires(is_dir, (s,)),
        forall|s: &str| call_requires(translate, (s,)),
    ensures
        validated(reported(*layout, source_id), is_dir, translate, r),
{
    let cwd = match layout.find_pane(source_id) {
        Some(p) => match &p.cwd {
            Some(c) => Some(c.clone()),
            None => None,
        },
        None => None,
    };
    validate_inherited_cwd(cwd, is_dir, translate)
}

/// How a shell is started.
#[derive(Debug, Clone, PartialEq, Eq)]
pub struct SpawnOptions {
    pub shell: String,
    pub shell_args: Vec<String>,
    pub env: Vec<(String, String)>,
    pub cwd: String,
    pub advertise_kitty_graphics: bool,
}

/// How the shell of a split is started: as `base` says, but in the directory of
/// the pane that is split, if the configuration asks for that and it is there.
pub fn split_spawn_options<D, T>(
    base: SpawnOptions,
    layout: &LayoutNode,
    source_id: PaneId,
    new_pane_cwd: NewPaneCwd,
    is_dir: D,
    translate: T,
) -> (r: SpawnOptions) where D: Fn(&str) -> bool, T: Fn(&str) -> String
    requires
        forall|s: &str| call_requires(is_dir, (s,)),
        forall|s: &str| call_requires(translate, (s,)),
    ensures
        r == (SpawnOptions { cwd: r.cwd, ..base }),
        new_pane_cwd == NewPaneCwd::Home ==> r == base,
        new_pane_cwd == NewPaneCwd::Inherit ==> exists|c: Option<String>| #[trigger]
            validated(reported(*layout, source_id), is_dir, translate, c) && r.cwd == (match c {
                Some(c) => c,
                None => base.cwd,
            }),
{
    match new_pane_cwd {
        NewPaneCwd::Inherit => match cwd_from_source_pane(
            layout,
            source_id,
            is_dir,
            translate,
        ) {
            Some(cwd) => SpawnOptions { cwd, ..base },
            None => base,
        },
        NewPaneCwd::Home => base,
    }
}

/// A directory that is there is inherited as it was reported, also where only its
/// translation is there; one that is nowhere is not inherited.
pub proof fn law_inherited_as_reported<D, T>(
    cwd: String,
    is_dir: D,
    translate: T,
    r: Option<String>,
) where D: Fn(&str) -> bool, T: Fn(&str) -> String
    requires
        validated(Some(cwd), is_dir, translate, r),
        cwd@.len() > 0,
    ensures
        r is None || r == Some(cwd),
        (forall|a: &str, yes: bool|
            a@ == cwd@ && #[trigger] call_ensures(is_dir, (a,), yes) ==> yes) ==> r == Some(cwd),
        (forall|a: &str, yes: bool| #[trigger] call_ensures(is_dir, (a,), yes) ==> !yes)
            ==> r is None,
        (forall|a: &str, t: String|
            a@ == cwd@ && #[trigger] call_ensures(translate, (a,), t) ==> t@ != cwd@) && (forall|
            a: &str,
            yes: bool,
        |
            a@ != cwd@ && #[trigger] call_ensures(is_dir, (a,), yes) ==> yes) ==> r == Some(cwd),
        (forall|a: &str, t: String|
            a@ == cwd@ && #[trigger] call_ensures(translate, (a,), t) ==> t@ == cwd@) && (forall|
            a: &str,
            yes: bool,
        |
            a@ == cwd@ && #[trigger] call_ensures(is_dir, (a,), yes) ==> !yes) ==> r is None,
{
}

} // verus!
