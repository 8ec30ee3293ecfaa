//! The two operations: materialising a template into a target directory,
//! and capturing a directory as a template.

use vstd::prelude::*;
use vstd::slice::slice_to_vec;
use crate::engine::{render_all, rendering, Answers, AnswersModel};
use crate::error::{IOError, IOErrorModel, TemplateError, TemplateErrorModel};
use crate::paths::{entry_path, join_entry};
use crate::plan::{CopyModel, CopyOp, FileWrite, WriteModel};
use crate::template::{file_names, regular_files, Entry, EntryModel, Listed, ListedModel, Template};

verus! {

/// The copies that capture the files `names` of the directory `source`
/// under the same names in `store`, in the order of `names`.
pub open spec fn copy_plan(source: Seq<char>, store: Seq<char>, names: Seq<Seq<char>>) -> Seq<
    CopyModel,
> {
    Seq::new(
        names.len(),
        |i: int|
            CopyModel { src: entry_path(source, names[i]), dest: entry_path(store, names[i]) },
    )
}

/// What capturing the directory `source` in `store` comes to, given the
/// listing of `source`: one copy for each regular file, or a failure that
/// names `source` where it could not be listed.
pub open spec fn save_plan(
    source: Seq<char>,
    store: Seq<char>,
    listing: Option<Seq<ListedModel>>,
) -> Result<Seq<CopyModel>, IOErrorModel> {
    match listing {
        Some(lines) => Ok(copy_plan(source, store, file_names(lines))),
        None => Err(IOErrorModel::CopyFailed { source }),
    }
}

/// The writes that put each of `outputs` below `target` under its own name,
/// in the order of `outputs`.
pub open spec fn placed(target: Seq<char>, outputs: Seq<EntryModel>) -> Seq<WriteModel> {
    Seq::new(
        outputs.len(),
        |i: int| WriteModel { path: entry_path(target, outputs[i].name), bytes: outputs[i].bytes },
    )
}

/// What materialising the template `files` below `target` comes to, given
/// the engine's answers: the rendering of the files, each placed below
/// `target`, or the failure to render them.
pub open spec fn use_plan(files: Seq<EntryModel>, target: Seq<char>, answers: AnswersModel) -> Result<
    Seq<WriteModel>,
    TemplateErrorModel,
> {
    match rendering(files, answers) {
        Ok(outputs) => Ok(placed(target, outputs)),
        Err(error) => Err(error),
    }
}

/// Plans the copies of the files `names` of the directory `source` into
/// `store`.
pub fn copies_of(source: &str, store: &str, names: &Vec<String>) -> (plan: Vec<CopyOp>)
    ensures
        plan.len() == names.len(),
        plan.deep_view() == copy_plan(source@, store@, names.deep_view()),
{
    let mut plan: Vec<CopyOp> = Vec::new();
    let mut i: usize = 0;
    while i < names.len()
        invariant
            i <= names.len(),
            plan.len() == i,
            forall|k: int|
                0 <= k < i ==> (#[trigger] plan[k]).deep_view() == copy_plan(
                    source@,
                    store@,
                    names.deep_view(),
                )[k],
        decreases names.len() - i,
    {
        let name = names[i].as_str();
        let src = join_entry(source, name);
        let dest = join_entry(store, name);
        plan.push(CopyOp { src, dest });
        i += 1;
    }
    assert(plan.deep_view() =~= copy_plan(source@, store@, names.deep_view()));
    plan
}

/// Plans the capture of a directory as a template: one copy for each
/// regular file that lies directly in `template`, into `target` under the
/// same name. Directories in `template` are passed over.
///
/// `listing` is what listing `template` gave, `None` where it could not be
/// listed; that is a failure which names `template`.
pub fn save_template(template: &str, target: &str, listing: Option<Vec<Listed>>) -> (r: Result<
    Vec<CopyOp>,
    IOError,
>)
    ensures
        match r {
            Ok(plan) => save_plan(template@, target@, listing.deep_view()) == Ok::<
                Seq<CopyModel>,
                IOErrorModel,
            >(plan.deep_view()),
            Err(error) => save_plan(template@, target@, listing.deep_view()) == Err::<
                Seq<CopyModel>,
                IOErrorModel,
            >(error.deep_view()),
        },
{
    match listing {
        Some(lines) => {
            let names = regular_files(&lines);
            Ok(copies_of(template, target, &names))
        },
        None => Err(IOError::CopyFailed { source: template.to_owned() }),
    }
}

/// Plans the writes that put each of `outputs` below `target` under its
/// own name.
pub fn place_outputs(target: &str, outputs: &Vec<Entry>) -> (writes: Vec<FileWrite>)
    ensures
        writes.len() == outputs.len(),
        writes.deep_view() == placed(target@, outputs.deep_view()),
{
    let mut writes: Vec<FileWrite> = Vec::new();
    let n: usize = outputs.len();
    let mut i: usize = 0;
    while i < n
        invariant
            i <= n == outputs.len(),
            writes.len() == i,
            forall|k: int|
                0 <= k < i ==> (#[trigger] writes[k]).deep_view() == placed(
                    target@,
                    outputs.deep_view(),
                )[k],
        decreases n - i,
    {
        let path = join_entry(target, outputs[i].name.as_str());
        let bytes = slice_to_vec(outputs[i].bytes.as_slice());
        writes.push(FileWrite { path, bytes });
        i += 1;
    }
    assert(writes.deep_view() =~= placed(target@, outputs.deep_view()));
    writes
}

/// Plans the materialisation of `template` below `target`, given what the
/// engine answered: each file's output is to be written to the file's name
/// below `target`, replacing what is there.
///
/// Nothing is to be written unless every file rendered: a failure gives no
/// plan at all. A template without files gives the empty plan.
pub fn use_template(template: &Template, target: &str, answers: &Answers) -> (r: Result<
    Vec<FileWrite>,
    TemplateError,
>)
    ensures
        match r {
            Ok(writes) => use_plan(template.deep_view(), target@, answers.deep_view()) == Ok::<
                Seq<WriteModel>,
                TemplateErrorModel,
            >(writes.deep_view()),
            Err(error) => use_plan(template.deep_view(), target@, answers.deep_view()) == Err::<
                Seq<WriteModel>,
                TemplateErrorModel,
            >(error.deep_view()),
        },
{
    match render_all(template, answers) {
        Ok(outputs) => Ok(place_outputs(target, &outputs)),
        Err(error) => Err(error),
    }
}

} // verus!
