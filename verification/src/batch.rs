//! Work on several paths at once: parsing them, and folding the answers to a
//! question over them.

use crate::classify::{answer, normalized, question};
use crate::command::Question;
use crate::component::Component;
use crate::path::{parse, parsed_kind, ParseAs, PathValue, PathView};
use vstd::prelude::*;

verus! {

/// The path that `bytes` are parsed into on the hint `parse_as`, in its normal
/// form where `normalize` asks for it.
pub open spec fn prepared(bytes: Seq<u8>, normalize: bool, parse_as: ParseAs) -> PathView {
    let parsed = PathView { bytes, kind: parsed_kind(bytes, parse_as) };
    if normalize {
        PathView { bytes: normalized(parsed), kind: parsed.kind }
    } else {
        parsed
    }
}

/// Whether `asked` is answered with yes for every one of `paths`.
pub open spec fn all_answer(asked: Question, paths: Seq<PathValue>) -> bool {
    forall|i: int| 0 <= i < paths.len() ==> answer(asked, #[trigger] paths[i]@)
}

/// Whether `asked` is answered with yes for at least one of `paths`.
pub open spec fn any_answers(asked: Question, paths: Seq<PathValue>) -> bool {
    exists|i: int| 0 <= i < paths.len() && answer(asked, #[trigger] paths[i]@)
}

/// Whether every one of `paths` has the part `component`.
pub open spec fn all_have(component: Component, paths: Seq<PathValue>) -> bool {
    forall|i: int| 0 <= i < paths.len() ==> component.spec_has(#[trigger] paths[i]@)
}

/// Whether at least one of `paths` has the part `component`.
pub open spec fn any_has(component: Component, paths: Seq<PathValue>) -> bool {
    exists|i: int| 0 <= i < paths.len() && component.spec_has(#[trigger] paths[i]@)
}

/// Parses each of `paths`, one after the other and each for itself, and
/// normalizes it where `normalize` is set.
pub fn parse_paths(paths: &Vec<Vec<u8>>, normalize: bool, parse_as: ParseAs) -> (r: Vec<PathValue>)
    ensures
        r@.len() == paths@.len(),
        forall|i: int|
            0 <= i < paths@.len() ==> (#[trigger] r@[i])@ == prepared(
                paths@[i]@,
                normalize,
                parse_as,
            ),
{
    let mut parsed: Vec<PathValue> = Vec::new();
    let mut i: usize = 0;
    while i < paths.len()
        invariant
            i <= paths.len(),
            parsed@.len() == i,
            forall|j: int|
                0 <= j < i ==> (#[trigger] parsed@[j])@ == prepared(
                    paths@[j]@,
                    normalize,
                    parse_as,
                ),
        decreases paths.len() - i,
    {
        let path = parse(paths[i].as_slice(), parse_as);
        let path = if normalize {
            crate::classify::normalize(&path)
        } else {
            path
        };
        parsed.push(path);
        i = i + 1;
    }
    parsed
}

/// Asks `asked` of each of `paths` and folds the answers: with `all`, whether
/// every path answers yes; without it, whether any path does.
pub fn ask(asked: Question, all: bool, paths: &Vec<PathValue>) -> (r: bool)
    ensures
        r == if all {
            all_answer(asked, paths@)
        } else {
            any_answers(asked, paths@)
        },
{
    let mut i: usize = 0;
    while i < paths.len()
        invariant
            i <= paths.len(),
            forall|j: int| 0 <= j < i ==> answer(asked, #[trigger] paths@[j]@) == all,
        decreases paths.len() - i,
    {
        if question(asked, &paths[i]) != all {
            return !all;
        }
        i = i + 1;
    }
    all
}

/// Looks for the part `component` in each of `paths` and folds the findings:
/// with `all`, whether every path has the part; without it, whether any path
/// has it.
pub fn has_part(component: Component, all: bool, paths: &Vec<PathValue>) -> (r: bool)
    ensures
        r == if all {
            all_have(component, paths@)
        } else {
            any_has(component, paths@)
        },
{
    let mut i: usize = 0;
    while i < paths.len()
        invariant
            i <= paths.len(),
            forall|j: int| 0 <= j < i ==> component.spec_has(#[trigger] paths@[j]@) == all,
        decreases paths.len() - i,
    {
        if component.has(&paths[i]) != all {
            return !all;
        }
        i = i + 1;
    }
    all
}

} // verus!
