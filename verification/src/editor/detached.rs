//! Planning where every editor is a process of its own.
use super::{FileCheck, OpenInEditorPlan};
use vstd::prelude::*;

verus! {

/// Plans how a location is opened, without panes for editors. The questions
/// are those of the planner with panes.
pub fn plan_open_in_editor<M, R, E>(
    path_with_loc: &str,
    chain: &[String],
    is_file_fn: M,
    resolve_fn: R,
) -> (plan: OpenInEditorPlan) where
    M: Fn(&str) -> Result<bool, E>,
    R: Fn(&[String]) -> Option<String>,

    requires
        forall|p: &str| call_requires(is_file_fn, (p,)),
        forall|c: &[String]| call_requires(resolve_fn, (c,)),
    ensures
        super::planner::plan_follows(
            path_with_loc@,
            chain@,
            is_file_fn,
            resolve_fn,
            false,
            plan@,
        ),
{
    let (path, _line) = super::split_location(path_with_loc);
    let found = is_file_fn(path.as_str());
    match found {
        Ok(true) => {
            let editor = resolve_fn(chain);
            super::plan_from_answers(path_with_loc, FileCheck::RegularFile, editor, false)
        },
        Ok(false) => super::plan_from_answers(
            path_with_loc,
            FileCheck::SomethingElse,
            None,
            false,
        ),
        Err(_) => super::plan_from_answers(path_with_loc, FileCheck::Missing, None, false),
    }
}

} // verus!
