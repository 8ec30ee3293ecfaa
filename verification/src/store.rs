//! A file store as the contracts see it, what the plans do to it, and the
//! laws of capturing and materialising.
//!
//! A store maps each path to the bytes of the file at that path. Carrying
//! out a plan changes the store step by step, in the plan's order. A plan
//! that fails at some step has carried out the steps before it and none
//! after it: the laws for the first steps of a plan say what is then there.

use vstd::prelude::*;
use vstd::utf8::encode_utf8;
use crate::engine::{
    all_plain, answered, first_refused, first_undecodable, has_markers, is_first_refused,
    is_first_undecodable, lemma_first_refused, output, rank, render_failure, rendering,
    AnswersModel,
};
use crate::error::TemplateErrorModel;
use crate::materialize::{copy_plan, placed, use_plan};
use crate::paths::entry_path;
use crate::plan::{CopyModel, WriteModel};
use crate::template::{names_of, valid_listing, valid_name, EntryModel};

verus! {

/// The files of a store: each path with the bytes of its file.
pub type Store = Map<Seq<char>, Seq<u8>>;

/// The store after one write: the file at the path holds the new bytes,
/// whether or not it was there before.
pub open spec fn after_write(store: Store, write: WriteModel) -> Store {
    store.insert(write.path, write.bytes)
}

/// The store after the writes of a plan, carried out in order.
pub open spec fn after_writes(store: Store, writes: Seq<WriteModel>) -> Store
    decreases writes.len(),
{
    if writes.len() == 0 {
        store
    } else {
        after_write(after_writes(store, writes.drop_last()), writes.last())
    }
}

/// The store after one copy: the destination holds the bytes that the
/// source held.
pub open spec fn after_copy(store: Store, copy: CopyModel) -> Store {
    store.insert(copy.dest, store[copy.src])
}

/// The store after the copies of a plan, carried out in order.
pub open spec fn after_copies(store: Store, copies: Seq<CopyModel>) -> Store
    decreases copies.len(),
{
    if copies.len() == 0 {
        store
    } else {
        after_copy(after_copies(store, copies.drop_last()), copies.last())
    }
}

/// The directory `dir` of the store holds each of `files` under its name.
pub open spec fn holds(store: Store, dir: Seq<char>, files: Seq<EntryModel>) -> bool {
    forall|i: int|
        0 <= i < files.len() ==> {
            &&& store.contains_key(entry_path(dir, (#[trigger] files[i]).name))
            &&& store[entry_path(dir, files[i].name)] == files[i].bytes
        }
}

/// A plan writes to `path`.
pub open spec fn writes_to(writes: Seq<WriteModel>, path: Seq<char>) -> bool {
    exists|k: int| 0 <= k < writes.len() && (#[trigger] writes[k]).path == path
}

/// A plan copies to `path`.
pub open spec fn copies_to(copies: Seq<CopyModel>, path: Seq<char>) -> bool {
    exists|k: int| 0 <= k < copies.len() && (#[trigger] copies[k]).dest == path
}

/// Two stores have the same file, or both none, at `path`.
pub open spec fn same_at(a: Store, b: Store, path: Seq<char>) -> bool {
    a.contains_key(path) == b.contains_key(path) && a[path] == b[path]
}

/// Writes leave the rest alone: a path that a plan does not write to is
/// after the plan as it was before.
pub proof fn lemma_writes_keep(store: Store, writes: Seq<WriteModel>, path: Seq<char>)
    requires
        !writes_to(writes, path),
    ensures
        same_at(after_writes(store, writes), store, path),
    decreases writes.len(),
{
    if writes.len() > 0 {
        let rest = writes.drop_last();
        assert(writes.last() == writes[writes.len() - 1]);
        assert(writes.last().path != path);
        assert(!writes_to(rest, path)) by {
            if writes_to(rest, path) {
                let k = choose|k: int| 0 <= k < rest.len() && (#[trigger] rest[k]).path == path;
                assert(writes[k].path == path);
            }
        }
        lemma_writes_keep(store, rest, path);
    }
}

/// Copies leave the rest alone: a path that a plan does not copy to is
/// after the plan as it was before.
pub proof fn lemma_copies_keep(store: Store, copies: Seq<CopyModel>, path: Seq<char>)
    requires
        !copies_to(copies, path),
    ensures
        same_at(after_copies(store, copies), store, path),
    decreases copies.len(),
{
    if copies.len() > 0 {
        let rest = copies.drop_last();
        assert(copies.last() == copies[copies.len() - 1]);
        assert(copies.last().dest != path);
        assert(!copies_to(rest, path)) by {
            if copies_to(rest, path) {
                let k = choose|k: int| 0 <= k < rest.len() && (#[trigger] rest[k]).dest == path;
                assert(copies[k].dest == path);
            }
        }
        lemma_copies_keep(store, rest, path);
    }
}

/// What a plan leaves at a path that it writes to does not depend on the
/// store it started from.
proof fn lemma_writes_decide(a: Store, b: Store, writes: Seq<WriteModel>, path: Seq<char>)
    requires
        writes_to(writes, path) || same_at(a, b, path),
    ensures
        same_at(after_writes(a, writes), after_writes(b, writes), path),
    decreases writes.len(),
{
    if writes.len() > 0 {
        let rest = writes.drop_last();
        if writes.last().path != path {
            if writes_to(writes, path) {
                let k = choose|k: int| 0 <= k < writes.len() && (#[trigger] writes[k]).path == path;
                assert(k < writes.len() - 1);
                assert(rest[k].path == path);
            }
            lemma_writes_decide(a, b, rest, path);
        }
    }
}

/// Writing again changes nothing: carrying out the same plan a second time
/// leaves every file of the store with the bytes it had after the first
/// time, and adds no file.
pub proof fn lemma_rewrite_is_idempotent(store: Store, writes: Seq<WriteModel>)
    ensures
        after_writes(after_writes(store, writes), writes) == after_writes(store, writes),
{
    let once = after_writes(store, writes);
    let twice = after_writes(once, writes);
    assert forall|path: Seq<char>| same_at(twice, once, path) by {
        if writes_to(writes, path) {
            lemma_writes_decide(once, store, writes, path);
        } else {
            lemma_writes_keep(once, writes, path);
        }
    }
    assert(twice =~= once) by {
        assert forall|path: Seq<char>| twice.contains_key(path) == once.contains_key(path) by {
            assert(same_at(twice, once, path));
        }
        assert forall|path: Seq<char>| twice.contains_key(path) implies twice[path]
            == once[path] by {
            assert(same_at(twice, once, path));
        }
    }
}

/// Materialising again changes nothing: a second run on the same template,
/// target and answers of the engine gives the plan of the first, and
/// carrying it out again leaves the store as the first run left it.
pub proof fn lemma_rerun_changes_nothing(
    store: Store,
    files: Seq<EntryModel>,
    target: Seq<char>,
    answers: AnswersModel,
)
    requires
        use_plan(files, target, answers) is Ok,
    ensures
        ({
            let plan = use_plan(files, target, answers)->Ok_0;
            after_writes(after_writes(store, plan), plan) == after_writes(store, plan)
        }),
{
    lemma_rewrite_is_idempotent(store, use_plan(files, target, answers)->Ok_0);
}

/// Two paths made of a directory and a file name are equal only where the
/// file names are.
pub proof fn lemma_same_path_same_name(
    dir: Seq<char>,
    name: Seq<char>,
    other_dir: Seq<char>,
    other: Seq<char>,
)
    requires
        valid_name(name),
        valid_name(other),
        entry_path(dir, name) == entry_path(other_dir, other),
    ensures
        name == other,
{
    let left = entry_path(dir, name);
    let right = entry_path(other_dir, other);
    let cut = dir.len() as int;
    let other_cut = other_dir.len() as int;
    assert(left.len() == cut + 1 + name.len());
    assert(right.len() == other_cut + 1 + other.len());
    assert(left[cut] == '/');
    assert(right[other_cut] == '/');
    if cut < other_cut {
        assert(left[other_cut] == name[other_cut - cut - 1]);
        assert(false);
    }
    if cut > other_cut {
        assert(right[cut] == other[cut - other_cut - 1]);
        assert(false);
    }
    assert(name.len() == other.len());
    assert forall|i: int| 0 <= i < name.len() implies name[i] == other[i] by {
        assert(left[cut + 1 + i] == name[i]);
        assert(right[cut + 1 + i] == other[i]);
    }
    assert(name =~= other);
}

/// A capture that stops early: after the first `done` copies of the plan,
/// the source still holds every file, the template directory holds the
/// first `done` of them with their bytes, and the paths of the copies not
/// yet made are as they were.
pub proof fn lemma_capture_steps(
    store: Store,
    source: Seq<char>,
    store_dir: Seq<char>,
    files: Seq<EntryModel>,
    done: int,
)
    requires
        valid_listing(names_of(files)),
        holds(store, source, files),
        0 <= done <= files.len(),
    ensures
        holds(
            after_copies(store, copy_plan(source, store_dir, names_of(files)).take(done)),
            source,
            files,
        ),
        holds(
            after_copies(store, copy_plan(source, store_dir, names_of(files)).take(done)),
            store_dir,
            files.take(done),
        ),
        forall|i: int|
            done <= i < files.len() ==> same_at(
                after_copies(store, copy_plan(source, store_dir, names_of(files)).take(done)),
                store,
                entry_path(store_dir, #[trigger] files[i].name),
            ),
    decreases done,
{
    let names = names_of(files);
    let plan = copy_plan(source, store_dir, names);
    if done == 0 {
        assert(plan.take(0).len() == 0);
    } else {
        let last = done - 1;
        lemma_capture_steps(store, source, store_dir, files, last);
        let before = after_copies(store, plan.take(last));
        let step = plan.take(done).last();
        assert(plan.take(done).drop_last() =~= plan.take(last));
        assert(step == plan[last]);
        let after = after_copies(store, plan.take(done));
        assert(after == after_copy(before, step));
        assert(names[last] == files[last].name);
        assert(step.src == entry_path(source, files[last].name));
        assert(step.dest == entry_path(store_dir, files[last].name));
        assert(before[step.src] == files[last].bytes);
        assert(valid_name(names[last]));

        assert forall|i: int| 0 <= i < files.len() implies {
            &&& after.contains_key(entry_path(source, (#[trigger] files[i]).name))
            &&& after[entry_path(source, files[i].name)] == files[i].bytes
        } by {
            assert(valid_name(names[i]));
            assert(names[i] == files[i].name);
            if step.dest == entry_path(source, files[i].name) {
                lemma_same_path_same_name(store_dir, files[last].name, source, files[i].name);
                assert(i == last) by {
                    if i < last {
                        assert(names[i] != names[last]);
                    }
                    if last < i {
                        assert(names[last] != names[i]);
                    }
                }
            }
        }

        let taken = files.take(done);
        assert forall|i: int| 0 <= i < taken.len() implies {
            &&& after.contains_key(entry_path(store_dir, (#[trigger] taken[i]).name))
            &&& after[entry_path(store_dir, taken[i].name)] == taken[i].bytes
        } by {
            assert(taken[i] == files[i]);
            if i < last {
                assert(files.take(last)[i] == files[i]);
                assert(names[i] == files[i].name);
                assert(valid_name(names[i]));
                if step.dest == entry_path(store_dir, files[i].name) {
                    lemma_same_path_same_name(
                        store_dir,
                        files[last].name,
                        store_dir,
                        files[i].name,
                    );
                    assert(names[i] != names[last]);
                }
            }
        }

        assert forall|i: int| done <= i < files.len() implies same_at(
            after,
            store,
            entry_path(store_dir, #[trigger] files[i].name),
        ) by {
            assert(names[i] == files[i].name);
            assert(valid_name(names[i]));
            if step.dest == entry_path(store_dir, files[i].name) {
                lemma_same_path_same_name(store_dir, files[last].name, store_dir, files[i].name);
                assert(names[last] != names[i]);
            }
        }
    }
}

/// A materialisation that stops early: after the first `done` writes of
/// the plan that places `outputs` below `target`, the target holds the
/// first `done` of them with their bytes, and the paths of the writes not
/// yet made are as they were.
pub proof fn lemma_placing_steps(
    store: Store,
    target: Seq<char>,
    outputs: Seq<EntryModel>,
    done: int,
)
    requires
        valid_listing(names_of(outputs)),
        0 <= done <= outputs.len(),
    ensures
        holds(
            after_writes(store, placed(target, outputs).take(done)),
            target,
            outputs.take(done),
        ),
        forall|i: int|
            done <= i < outputs.len() ==> same_at(
                after_writes(store, placed(target, outputs).take(done)),
                store,
                entry_path(target, #[trigger] outputs[i].name),
            ),
    decreases done,
{
    let names = names_of(outputs);
    let plan = placed(target, outputs);
    if done == 0 {
        assert(plan.take(0).len() == 0);
    } else {
        let last = done - 1;
        lemma_placing_steps(store, target, outputs, last);
        let before = after_writes(store, plan.take(last));
        let step = plan.take(done).last();
        assert(plan.take(done).drop_last() =~= plan.take(last));
        assert(step == plan[last]);
        let after = after_writes(store, plan.take(done));
        assert(after == after_write(before, step));
        assert(names[last] == outputs[last].name);
        assert(valid_name(names[last]));
        let taken = outputs.take(done);
        assert forall|i: int| 0 <= i < taken.len() implies {
            &&& after.contains_key(entry_path(target, (#[trigger] taken[i]).name))
            &&& after[entry_path(target, taken[i].name)] == taken[i].bytes
        } by {
            assert(taken[i] == outputs[i]);
            if i < last {
                assert(outputs.take(last)[i] == outputs[i]);
                assert(names[i] == outputs[i].name);
                assert(valid_name(names[i]));
                if step.path == entry_path(target, outputs[i].name) {
                    lemma_same_path_same_name(target, outputs[last].name, target, outputs[i].name);
                    assert(names[i] != names[last]);
                }
            }
        }
        assert forall|i: int| done <= i < outputs.len() implies same_at(
            after,
            store,
            entry_path(target, #[trigger] outputs[i].name),
        ) by {
            assert(names[i] == outputs[i].name);
            assert(valid_name(names[i]));
            if step.path == entry_path(target, outputs[i].name) {
                lemma_same_path_same_name(target, outputs[last].name, target, outputs[i].name);
                assert(names[last] != names[i]);
            }
        }
    }
}

/// Rendering keeps names, plain files and the engine's text: where the
/// files of a template render, there is one output for each file, under
/// the file's name; a file without a marker keeps its bytes; and a file
/// with a marker becomes the text that the engine answered for it.
pub proof fn lemma_outputs_are_files_or_answers(files: Seq<EntryModel>, answers: AnswersModel)
    requires
        rendering(files, answers) is Ok,
    ensures
        ({
            let outputs = rendering(files, answers)->Ok_0;
            &&& outputs.len() == files.len()
            &&& names_of(outputs) == names_of(files)
            &&& forall|i: int|
                0 <= i < files.len() && !has_markers((#[trigger] files[i]).bytes) ==> outputs[i]
                    == files[i]
            &&& forall|i: int|
                0 <= i < files.len() && has_markers((#[trigger] files[i]).bytes) ==> {
                    &&& 0 <= rank(files, i) < answers.rendered.len()
                    &&& answers.rendered[rank(files, i)] is Ok
                    &&& outputs[i].bytes == encode_utf8(answers.rendered[rank(files, i)]->Ok_0)
                }
        }),
{
    let outputs = rendering(files, answers)->Ok_0;
    let rendered = answers.rendered;
    if all_plain(files) {
        assert(outputs == files);
        assert forall|i: int| 0 <= i < files.len() implies !has_markers(files[i].bytes) by {}
    } else {
        assert(first_refused(files, rendered) is None);
        assert(outputs == Seq::new(files.len(), |i: int| output(files, rendered, i)));
        assert forall|i: int| 0 <= i < files.len() implies answered(files, rendered, i) by {
            if !answered(files, rendered, i) {
                lemma_some_file_is_first_refused(files, rendered, i);
            }
        }
        assert forall|i: int|
            0 <= i < files.len() && !has_markers((#[trigger] files[i]).bytes) implies outputs[i]
            == files[i] by {
            assert(outputs[i] == output(files, rendered, i));
        }
        assert forall|i: int|
            0 <= i < files.len() && has_markers((#[trigger] files[i]).bytes) implies {
            &&& 0 <= rank(files, i) < rendered.len()
            &&& rendered[rank(files, i)] is Ok
            &&& outputs[i].bytes == encode_utf8(rendered[rank(files, i)]->Ok_0)
        } by {
            assert(answered(files, rendered, i));
            lemma_rank_is_natural(files, i);
            assert(outputs[i] == output(files, rendered, i));
        }
        assert forall|i: int| 0 <= i < files.len() implies (#[trigger] outputs[i]).name
            == files[i].name by {
            assert(outputs[i] == output(files, rendered, i));
        }
    }
    assert(names_of(outputs) =~= names_of(files));
}

/// A rank is a count.
proof fn lemma_rank_is_natural(files: Seq<EntryModel>, i: int)
    ensures
        0 <= rank(files, i),
    decreases i,
{
    if i > 0 {
        lemma_rank_is_natural(files, i - 1);
    }
}

/// Where some file was not rendered, one file is the first.
proof fn lemma_some_file_is_first_refused(
    files: Seq<EntryModel>,
    rendered: Seq<Result<Seq<char>, Seq<char>>>,
    i: int,
)
    requires
        0 <= i < files.len(),
        !answered(files, rendered, i),
    ensures
        exists|k: int| is_first_refused(files, rendered, k),
    decreases i,
{
    if exists|j: int| 0 <= j < i && !answered(files, rendered, j) {
        let j = choose|j: int| 0 <= j < i && !answered(files, rendered, j);
        lemma_some_file_is_first_refused(files, rendered, j);
    } else {
        assert(is_first_refused(files, rendered, i));
    }
}

/// A refusal names the file: where every file with a marker is text, the
/// templates were loaded, and the file at `i` is the first for which the
/// engine answered with a refusal, rendering fails with the name of that
/// file and the engine's reason.
pub proof fn lemma_refusal_names_the_file(files: Seq<EntryModel>, answers: AnswersModel, i: int)
    requires
        first_undecodable(files) is None,
        answers.loaded matches Some(Ok(_)),
        is_first_refused(files, answers.rendered, i),
        rank(files, i) < answers.rendered.len(),
    ensures
        rendering(files, answers) == Err::<Seq<EntryModel>, TemplateErrorModel>(
            render_failure(files[i].name, answers.rendered[rank(files, i)]->Err_0),
        ),
{
    lemma_first_refused(files, answers.rendered, i);
    assert(has_markers(files[i].bytes));
    assert(!all_plain(files));
}

/// A template without files renders, whatever the engine answered, and
/// nothing is to be written for it.
pub proof fn lemma_empty_template_plans_nothing(target: Seq<char>, answers: AnswersModel)
    ensures
        use_plan(Seq::<EntryModel>::empty(), target, answers) == Ok::<Seq<WriteModel>, TemplateErrorModel>(
            Seq::<WriteModel>::empty(),
        ),
{
    let files = Seq::<EntryModel>::empty();
    lemma_plain_template_needs_no_engine(files, answers);
    assert(placed(target, files) =~= Seq::<WriteModel>::empty());
}

/// A template without markers renders to itself, whatever the engine
/// answered.
pub proof fn lemma_plain_template_needs_no_engine(files: Seq<EntryModel>, answers: AnswersModel)
    requires
        all_plain(files),
    ensures
        rendering(files, answers) == Ok::<Seq<EntryModel>, TemplateErrorModel>(files),
{
    if exists|k: int| is_first_undecodable(files, k) {
        let k = choose|k: int| is_first_undecodable(files, k);
        assert(has_markers(files[k].bytes));
    }
}

/// Capturing keeps names and bytes: once the copies that `save_template`
/// plans for the files of `source` are carried out, the template directory
/// `store_dir` holds every one of these files, under its name and with its
/// bytes, and the source still holds them.
pub proof fn lemma_capture_keeps_files(
    store: Store,
    source: Seq<char>,
    store_dir: Seq<char>,
    files: Seq<EntryModel>,
)
    requires
        valid_listing(names_of(files)),
        holds(store, source, files),
    ensures
        holds(
            after_copies(store, copy_plan(source, store_dir, names_of(files))),
            store_dir,
            files,
        ),
        holds(after_copies(store, copy_plan(source, store_dir, names_of(files))), source, files),
{
    let plan = copy_plan(source, store_dir, names_of(files));
    lemma_capture_steps(store, source, store_dir, files, files.len() as int);
    assert(plan.take(files.len() as int) =~= plan);
    assert(files.take(files.len() as int) =~= files);
}

/// Materialising keeps names and bytes of plain files: once the writes
/// that `use_template` plans for a template without markers are carried
/// out, the target holds every file of the template, under its name and
/// with its bytes.
pub proof fn lemma_plain_files_are_copied(
    store: Store,
    target: Seq<char>,
    files: Seq<EntryModel>,
    answers: AnswersModel,
)
    requires
        valid_listing(names_of(files)),
        all_plain(files),
    ensures
        use_plan(files, target, answers) == Ok::<Seq<WriteModel>, TemplateErrorModel>(
            placed(target, files),
        ),
        holds(after_writes(store, placed(target, files)), target, files),
{
    lemma_plain_template_needs_no_engine(files, answers);
    let plan = placed(target, files);
    lemma_placing_steps(store, target, files, files.len() as int);
    assert(plan.take(files.len() as int) =~= plan);
    assert(files.take(files.len() as int) =~= files);
}

/// The round trip: where the files of `source` hold no marker, capturing
/// them as a template in `store_dir` and materialising that template into
/// `target` leaves `target` with every file of `source`, under its name
/// and with its bytes, whatever the engine answers.
pub proof fn lemma_round_trip(
    store: Store,
    source: Seq<char>,
    store_dir: Seq<char>,
    target: Seq<char>,
    files: Seq<EntryModel>,
    answers: AnswersModel,
)
    requires
        valid_listing(names_of(files)),
        holds(store, source, files),
        all_plain(files),
    ensures
        use_plan(files, target, answers) is Ok,
        ({
            let saved = after_copies(store, copy_plan(source, store_dir, names_of(files)));
            let used = after_writes(saved, use_plan(files, target, answers)->Ok_0);
            &&& holds(saved, store_dir, files)
            &&& holds(used, target, files)
        }),
{
    lemma_capture_keeps_files(store, source, store_dir, files);
    let saved = after_copies(store, copy_plan(source, store_dir, names_of(files)));
    lemma_plain_files_are_copied(saved, target, files, answers);
}

} // verus!
