//! The template engine's part: which files hold placeholder markers, what
//! the engine is asked, and what each file becomes once it has answered.
//!
//! A file without a marker is copied byte for byte. A file with a marker is
//! text for the engine, which renders it with the context. All files of a
//! template that are text are loaded together, so that one may include or
//! extend another.
//!
//! The engine itself is called by the caller, one call at a time:
//! `next_call` says which call comes next, and the caller records the
//! engine's answer in `Answers`. `render_all` makes the outputs of the
//! template and the answers.

use vstd::prelude::*;
use vstd::slice::slice_to_vec;
use vstd::string::{StrSliceExecFns, StringExecFns};
use vstd::utf8::{decode_utf8, encode_utf8, encode_utf8_decode_utf8, valid_utf8};
use crate::error::{TemplateError, TemplateErrorModel};
use crate::outside::utf8_text;
use crate::template::{Entry, EntryModel, Template};

verus! {

/// A marker starts at `i`: an opening brace followed by a second brace, a
/// percent sign or a number sign.
pub open spec fn is_marker_at(bytes: Seq<u8>, i: int) -> bool {
    &&& 0 <= i
    &&& i + 1 < bytes.len()
    &&& bytes[i] == 0x7b
    &&& (bytes[i + 1] == 0x7b || bytes[i + 1] == 0x25 || bytes[i + 1] == 0x23)
}

/// The bytes hold a placeholder marker somewhere.
pub open spec fn has_markers(bytes: Seq<u8>) -> bool {
    exists|i: int| is_marker_at(bytes, i)
}

/// No file holds a marker.
pub open spec fn all_plain(files: Seq<EntryModel>) -> bool {
    forall|i: int| 0 <= i < files.len() ==> !has_markers(#[trigger] files[i].bytes)
}

/// A file that holds a marker and is not text, so that the engine cannot
/// take it.
pub open spec fn undecodable(file: EntryModel) -> bool {
    has_markers(file.bytes) && !valid_utf8(file.bytes)
}

/// The file at `k` is the first that the engine cannot take.
pub open spec fn is_first_undecodable(files: Seq<EntryModel>, k: int) -> bool {
    &&& 0 <= k < files.len()
    &&& undecodable(files[k])
    &&& forall|j: int| 0 <= j < k ==> !undecodable(#[trigger] files[j])
}

/// The first file that the engine cannot take, if there is one.
pub open spec fn first_undecodable(files: Seq<EntryModel>) -> Option<int> {
    if exists|k: int| is_first_undecodable(files, k) {
        Some(choose|k: int| is_first_undecodable(files, k))
    } else {
        None
    }
}

/// The reason given for a file that holds a marker and is not text.
pub open spec fn not_text() -> Seq<char> {
    "template is not valid UTF-8"@
}

/// The reason given where the engine was to answer and no answer is on
/// record.
pub open spec fn no_answer() -> Seq<char> {
    "the engine gave no answer"@
}

/// The failure for the file `name`, for the given reason.
pub open spec fn render_failure(name: Seq<char>, reason: Seq<char>) -> TemplateErrorModel {
    TemplateErrorModel::RenderFailed { file: Some(name), reason }
}

/// The failure of the engine to load the templates, for the given reason.
pub open spec fn load_failure(reason: Seq<char>) -> TemplateErrorModel {
    TemplateErrorModel::RenderFailed { file: None, reason }
}

/// What the engine is to load: the files that are text, in their order,
/// each as its name and its text.
pub open spec fn text_sources(files: Seq<EntryModel>) -> Seq<(Seq<char>, Seq<char>)>
    decreases files.len(),
{
    if files.len() == 0 {
        Seq::empty()
    } else {
        let before = text_sources(files.drop_last());
        if valid_utf8(files.last().bytes) {
            before.push((files.last().name, decode_utf8(files.last().bytes)))
        } else {
            before
        }
    }
}

/// The number of files before the one at `i` that hold a marker: the place
/// of that file's answer among the engine's answers to render calls.
pub open spec fn rank(files: Seq<EntryModel>, i: int) -> int
    decreases i,
{
    if i <= 0 {
        0
    } else if has_markers(files[i - 1].bytes) {
        rank(files, i - 1) + 1
    } else {
        rank(files, i - 1)
    }
}

/// What the engine answered, call by call.
#[derive(Debug, Clone)]
pub struct Answers {
    /// The answer to the loading of the templates: `None` as long as the
    /// engine was not asked, else `Ok` or the engine's reason for refusing
    /// them.
    pub loaded: Option<Result<(), String>>,
    /// The answers to the render calls, in the order of the calls: the
    /// rendered text, or the engine's reason for refusing.
    pub rendered: Vec<Result<String, String>>,
}

impl Answers {
    /// The record before the engine was asked anything.
    pub fn new() -> (answers: Answers)
        ensures
            answers.deep_view() == (AnswersModel { loaded: None, rendered: Seq::empty() }),
    {
        let answers = Answers { loaded: None, rendered: Vec::new() };
        assert(answers.deep_view().rendered =~= Seq::empty());
        answers
    }

    /// Records the engine's answer to the loading of the templates.
    pub fn record_load(&mut self, answer: Result<(), String>)
        ensures
            final(self).deep_view() == (AnswersModel {
                loaded: Some(load_model(answer)),
                rendered: old(self).deep_view().rendered,
            }),
    {
        self.loaded = Some(answer);
        assert(self.deep_view().rendered =~= old(self).deep_view().rendered);
    }

    /// Records the engine's answer to a render call, behind the answers
    /// to the render calls before it.
    pub fn record_render(&mut self, answer: Result<String, String>)
        ensures
            final(self).deep_view() == (AnswersModel {
                loaded: old(self).deep_view().loaded,
                rendered: old(self).deep_view().rendered.push(answer_model(answer)),
            }),
    {
        self.rendered.push(answer);
        assert(self.deep_view().rendered =~= old(self).deep_view().rendered.push(
            answer_model(answer),
        ));
    }
}

/// `Answers` as the contracts see them.
pub struct AnswersModel {
    pub loaded: Option<Result<(), Seq<char>>>,
    pub rendered: Seq<Result<Seq<char>, Seq<char>>>,
}

/// An answer to the loading as the contracts see it.
pub open spec fn load_model(answer: Result<(), String>) -> Result<(), Seq<char>> {
    match answer {
        Ok(_) => Ok(()),
        Err(reason) => Err(reason@),
    }
}

/// An answer to a render call as the contracts see it.
pub open spec fn answer_model(answer: Result<String, String>) -> Result<Seq<char>, Seq<char>> {
    match answer {
        Ok(text) => Ok(text@),
        Err(reason) => Err(reason@),
    }
}

impl DeepView for Answers {
    type V = AnswersModel;

    open spec fn deep_view(&self) -> AnswersModel {
        AnswersModel {
            loaded: match self.loaded {
                None => None,
                Some(answer) => Some(load_model(answer)),
            },
            rendered: Seq::new(self.rendered@.len(), |i: int| answer_model(self.rendered@[i])),
        }
    }
}

/// A call that the caller is to make to the engine.
#[derive(Debug, Clone)]
pub enum EngineCall<'a> {
    /// Load these templates, each a name and its text, into a new engine,
    /// all at once.
    Load(Vec<(&'a str, &'a str)>),
    /// Render the template of this name with the context.
    Render(&'a str),
}

/// An `EngineCall` as the contracts see it.
pub enum EngineCallModel {
    Load(Seq<(Seq<char>, Seq<char>)>),
    Render(Seq<char>),
}

impl<'a> DeepView for EngineCall<'a> {
    type V = EngineCallModel;

    open spec fn deep_view(&self) -> EngineCallModel {
        match self {
            EngineCall::Load(sources) => EngineCallModel::Load(sources.deep_view()),
            EngineCall::Render(name) => EngineCallModel::Render(name@),
        }
    }
}

/// The file at `i` needs nothing more of the engine: it holds no marker, or
/// its answer is on record and is a rendered text.
pub open spec fn answered(
    files: Seq<EntryModel>,
    rendered: Seq<Result<Seq<char>, Seq<char>>>,
    i: int,
) -> bool {
    has_markers(files[i].bytes) ==> rank(files, i) < rendered.len() && rendered[rank(
        files,
        i,
    )] is Ok
}

/// The file at `i` is the first that the engine did not render.
pub open spec fn is_first_refused(
    files: Seq<EntryModel>,
    rendered: Seq<Result<Seq<char>, Seq<char>>>,
    i: int,
) -> bool {
    &&& 0 <= i < files.len()
    &&& !answered(files, rendered, i)
    &&& forall|j: int| 0 <= j < i ==> answered(files, rendered, j)
}

/// The first file that the engine did not render, if there is one.
pub open spec fn first_refused(
    files: Seq<EntryModel>,
    rendered: Seq<Result<Seq<char>, Seq<char>>>,
) -> Option<int> {
    if exists|i: int| is_first_refused(files, rendered, i) {
        Some(choose|i: int| is_first_refused(files, rendered, i))
    } else {
        None
    }
}

/// The file at `i` is the one to render next: every file before it is
/// done with, and its own answer is the next to be recorded.
pub open spec fn is_pending(
    files: Seq<EntryModel>,
    rendered: Seq<Result<Seq<char>, Seq<char>>>,
    i: int,
) -> bool {
    &&& 0 <= i < files.len()
    &&& has_markers(files[i].bytes)
    &&& rank(files, i) == rendered.len()
    &&& forall|j: int| 0 <= j < i ==> answered(files, rendered, j)
}

/// The file to render next, if there is one.
pub open spec fn pending(
    files: Seq<EntryModel>,
    rendered: Seq<Result<Seq<char>, Seq<char>>>,
) -> Option<int> {
    if exists|i: int| is_pending(files, rendered, i) {
        Some(choose|i: int| is_pending(files, rendered, i))
    } else {
        None
    }
}

/// What a file becomes once the engine has answered for it: the rendered
/// text under the file's name, or a failure that names the file and gives
/// the engine's reason.
pub open spec fn rendered_outcome(file: EntryModel, outcome: Result<Seq<char>, Seq<char>>) -> Result<
    EntryModel,
    TemplateErrorModel,
> {
    match outcome {
        Ok(text) => Ok(EntryModel { name: file.name, bytes: encode_utf8(text) }),
        Err(reason) => Err(render_failure(file.name, reason)),
    }
}

/// What the file at `i` becomes where every file is rendered: itself where
/// it holds no marker, else the text that the engine answered for it.
pub open spec fn output(
    files: Seq<EntryModel>,
    rendered: Seq<Result<Seq<char>, Seq<char>>>,
    i: int,
) -> EntryModel {
    if has_markers(files[i].bytes) {
        EntryModel { name: files[i].name, bytes: encode_utf8(rendered[rank(files, i)]->Ok_0) }
    } else {
        files[i]
    }
}

/// The failure for the file at `i`, which the engine did not render: the
/// engine's reason where it answered, and `no_answer` where it did not.
pub open spec fn refusal(
    files: Seq<EntryModel>,
    rendered: Seq<Result<Seq<char>, Seq<char>>>,
    i: int,
) -> TemplateErrorModel {
    if rank(files, i) < rendered.len() {
        render_failure(files[i].name, rendered[rank(files, i)]->Err_0)
    } else {
        render_failure(files[i].name, no_answer())
    }
}

/// The call to make next, given the answers so far; `None` where nothing
/// is left to ask.
///
/// Nothing is asked for a template without markers, nor for one with a
/// file that holds a marker and is not text. Else the templates are
/// loaded first, and after that each file with a marker is rendered, in the
/// template's order, as long as the engine does not refuse.
pub open spec fn next_call_of(files: Seq<EntryModel>, answers: AnswersModel) -> Option<
    EngineCallModel,
> {
    if first_undecodable(files) is Some || all_plain(files) {
        None
    } else {
        match answers.loaded {
            None => Some(EngineCallModel::Load(text_sources(files))),
            Some(Err(_)) => None,
            Some(Ok(_)) => match pending(files, answers.rendered) {
                Some(i) => Some(EngineCallModel::Render(files[i].name)),
                None => None,
            },
        }
    }
}

/// What the files of a template become, given the engine's answers.
///
/// - A file that holds a marker and is not text fails before any answer
///   is looked at; the first such file is named.
/// - A template without markers comes out as it is, whatever the answers.
/// - Else the loading must have succeeded, and every file with a marker
///   must have been rendered: the first that was not gives the failure,
///   with the engine's reason. The outputs keep the order and the names;
///   a file without a marker keeps its bytes, and a file with a marker
///   becomes the text that the engine answered for it, in UTF-8.
pub open spec fn rendering(files: Seq<EntryModel>, answers: AnswersModel) -> Result<
    Seq<EntryModel>,
    TemplateErrorModel,
> {
    if let Some(k) = first_undecodable(files) {
        Err(render_failure(files[k].name, not_text()))
    } else if all_plain(files) {
        Ok(files)
    } else {
        match answers.loaded {
            None => Err(load_failure(no_answer())),
            Some(Err(reason)) => Err(load_failure(reason)),
            Some(Ok(_)) => match first_refused(files, answers.rendered) {
                Some(i) => Err(refusal(files, answers.rendered, i)),
                None => Ok(
                    Seq::new(files.len(), |i: int| output(files, answers.rendered, i)),
                ),
            },
        }
    }
}

/// Only one file is the first that the engine cannot take.
pub proof fn lemma_first_undecodable(files: Seq<EntryModel>, k: int)
    requires
        is_first_undecodable(files, k),
    ensures
        first_undecodable(files) == Some(k),
{
    let other = choose|k: int| is_first_undecodable(files, k);
    if other < k {
        assert(!undecodable(files[other]));
    }
    if k < other {
        assert(!undecodable(files[k]));
    }
}

/// Only one file is the first that the engine did not render.
pub proof fn lemma_first_refused(
    files: Seq<EntryModel>,
    rendered: Seq<Result<Seq<char>, Seq<char>>>,
    i: int,
)
    requires
        is_first_refused(files, rendered, i),
    ensures
        first_refused(files, rendered) == Some(i),
{
    let other = choose|i: int| is_first_refused(files, rendered, i);
    if other < i {
        assert(answered(files, rendered, other));
    }
    if i < other {
        assert(answered(files, rendered, i));
    }
}

/// Only one file is the one to render next.
pub proof fn lemma_pending(
    files: Seq<EntryModel>,
    rendered: Seq<Result<Seq<char>, Seq<char>>>,
    i: int,
)
    requires
        is_pending(files, rendered, i),
    ensures
        pending(files, rendered) == Some(i),
{
    let other = choose|i: int| is_pending(files, rendered, i);
    if other < i {
        assert(answered(files, rendered, other));
    }
    if i < other {
        assert(answered(files, rendered, i));
    }
}

/// Tells whether `bytes` hold a placeholder marker.
pub fn contains_marker(bytes: &[u8]) -> (found: bool)
    ensures
        found == has_markers(bytes@),
{
    let n: usize = bytes.len();
    if n < 2 {
        return false;
    }
    let mut i: usize = 0;
    while i < n - 1
        invariant
            2 <= n == bytes@.len(),
            i <= n - 1,
            forall|k: int| 0 <= k < i ==> !is_marker_at(bytes@, k),
        decreases n - i,
    {
        if bytes[i] == 0x7b {
            let next: u8 = bytes[i + 1];
            if next == 0x7b || next == 0x25 || next == 0x23 {
                assert(is_marker_at(bytes@, i as int));
                return true;
            }
        }
        i += 1;
    }
    false
}

/// Gives what the engine is to load: every file that is text, with its
/// name and its text.
pub fn engine_sources<'a>(entries: &'a Vec<Entry>) -> (sources: Vec<(&'a str, &'a str)>)
    ensures
        sources.deep_view() == text_sources(entries.deep_view()),
{
    let ghost files = entries.deep_view();
    let mut sources: Vec<(&'a str, &'a str)> = Vec::new();
    let mut i: usize = 0;
    assert(files.take(0) =~= Seq::<EntryModel>::empty());
    while i < entries.len()
        invariant
            i <= entries.len(),
            files == entries.deep_view(),
            sources.deep_view() == text_sources(files.take(i as int)),
        decreases entries.len() - i,
    {
        let entry = &entries[i];
        let ghost before = sources.deep_view();
        assert(files.take(i + 1).drop_last() =~= files.take(i as int));
        assert(files.take(i + 1).last() == entry.deep_view());
        match utf8_text(entry.bytes.as_slice()) {
            Some(text) => {
                proof {
                    encode_utf8_decode_utf8(text@);
                }
                sources.push((entry.name.as_str(), text));
                assert(sources.deep_view() =~= before.push((entry.name@, text@)));
            },
            None => {},
        }
        i += 1;
    }
    assert(files.take(entries.len() as int) =~= files);
    sources
}

/// Makes of the engine's answer for one file what the file becomes.
pub fn rendered_entry(entry: &Entry, outcome: Result<String, String>) -> (r: Result<
    Entry,
    TemplateError,
>)
    ensures
        match (r, outcome) {
            (Ok(output), Ok(text)) => Ok::<EntryModel, TemplateErrorModel>(output.deep_view())
                == rendered_outcome(entry.deep_view(), Ok(text@)),
            (Err(error), Err(reason)) => Err::<EntryModel, TemplateErrorModel>(error.deep_view())
                == rendered_outcome(entry.deep_view(), Err(reason@)),
            _ => false,
        },
{
    match outcome {
        Ok(text) => Ok(Entry { name: entry.name.clone(), bytes: text.as_str().as_bytes_vec() }),
        Err(reason) => Err(TemplateError::RenderFailed { file: Some(entry.name.clone()), reason }),
    }
}

/// The failure for a file, for a reason of the library's own.
fn refused_entry(entry: &Entry, reason: &str) -> (error: TemplateError)
    ensures
        error.deep_view() == render_failure(entry.name@, reason@),
{
    TemplateError::RenderFailed {
        file: Some(entry.name.clone()),
        reason: String::from_str(reason),
    }
}

/// A copy of a file.
fn copied_entry(entry: &Entry) -> (copy: Entry)
    ensures
        copy.deep_view() == entry.deep_view(),
{
    Entry { name: entry.name.clone(), bytes: slice_to_vec(entry.bytes.as_slice()) }
}

/// A copy of an answer.
fn copied_answer(answer: &Result<String, String>) -> (copy: Result<String, String>)
    ensures
        answer_model(copy) == answer_model(*answer),
{
    match answer {
        Ok(text) => Ok(text.clone()),
        Err(reason) => Err(reason.clone()),
    }
}

/// What a first look at the files of a template finds.
enum Survey {
    /// The file at this index holds a marker and is not text; it is the
    /// first such file.
    Undecodable(usize),
    /// No file holds a marker.
    Plain,
    /// Some file holds a marker, and every such file is text.
    Marked,
}

/// Looks through the files for markers and for files that the engine
/// cannot take.
fn survey(entries: &Vec<Entry>) -> (found: Survey)
    ensures
        match found {
            Survey::Undecodable(k) => is_first_undecodable(entries.deep_view(), k as int),
            Survey::Plain => all_plain(entries.deep_view()) && first_undecodable(
                entries.deep_view(),
            ) is None,
            Survey::Marked => !all_plain(entries.deep_view()) && first_undecodable(
                entries.deep_view(),
            ) is None,
        },
{
    let ghost files = entries.deep_view();
    let n: usize = entries.len();
    let mut marked: bool = false;
    let mut i: usize = 0;
    while i < n
        invariant
            i <= n == entries.len(),
            files == entries.deep_view(),
            forall|k: int| 0 <= k < i ==> !undecodable(#[trigger] files[k]),
            marked <==> exists|k: int| 0 <= k < i && has_markers(#[trigger] files[k].bytes),
        decreases n - i,
    {
        let entry = &entries[i];
        assert(files[i as int] == entry.deep_view());
        let with_marker = contains_marker(entry.bytes.as_slice());
        assert(with_marker == has_markers(files[i as int].bytes));
        if with_marker {
            if utf8_text(entry.bytes.as_slice()).is_none() {
                assert(undecodable(files[i as int]));
                return Survey::Undecodable(i);
            }
            marked = true;
        }
        i += 1;
    }
    assert(first_undecodable(files) is None) by {
        if exists|k: int| is_first_undecodable(files, k) {
            let k = choose|k: int| is_first_undecodable(files, k);
            assert(!undecodable(files[k]));
        }
    }
    if marked {
        Survey::Marked
    } else {
        Survey::Plain
    }
}

/// Says which call to the engine comes next, given the answers that are
/// on record; `None` where nothing is left to ask.
pub fn next_call<'a>(template: &'a Template, answers: &Answers) -> (call: Option<EngineCall<'a>>)
    ensures
        call.deep_view() == next_call_of(template.deep_view(), answers.deep_view()),
{
    let entries = template.entries();
    let ghost files = template.deep_view();
    let ghost rendered = answers.deep_view().rendered;
    match survey(entries) {
        Survey::Undecodable(k) => {
            proof {
                lemma_first_undecodable(files, k as int);
            }
            return None;
        },
        Survey::Plain => {
            return None;
        },
        Survey::Marked => {},
    }
    match &answers.loaded {
        None => {
            return Some(EngineCall::Load(engine_sources(entries)));
        },
        Some(Err(_)) => {
            return None;
        },
        Some(Ok(_)) => {},
    }
    let n: usize = entries.len();
    let given: usize = answers.rendered.len();
    let mut j: usize = 0;
    let mut i: usize = 0;
    while i < n
        invariant
            i <= n == entries.len(),
            files == entries.deep_view(),
            files == template.deep_view(),
            rendered == answers.deep_view().rendered,
            given == answers.rendered.len(),
            first_undecodable(files) is None,
            !all_plain(files),
            answers.deep_view().loaded matches Some(Ok(_)),
            j == rank(files, i as int),
            j <= given,
            forall|k: int| 0 <= k < i ==> answered(files, rendered, k),
        decreases n - i,
    {
        let entry = &entries[i];
        assert(files[i as int] == entry.deep_view());
        if contains_marker(entry.bytes.as_slice()) {
            if j == given {
                proof {
                    assert(is_pending(files, rendered, i as int));
                    lemma_pending(files, rendered, i as int);
                }
                return Some(EngineCall::Render(entry.name.as_str()));
            }
            assert(rendered[j as int] == answer_model(answers.rendered[j as int]));
            if answers.rendered[j].is_err() {
                assert(!answered(files, rendered, i as int));
                assert(pending(files, rendered) is None) by {
                    if exists|p: int| is_pending(files, rendered, p) {
                        let p = choose|p: int| is_pending(files, rendered, p);
                        if p < i {
                            assert(answered(files, rendered, p));
                        } else if p > i {
                            assert(answered(files, rendered, i as int));
                        }
                    }
                }
                return None;
            }
            j += 1;
        }
        i += 1;
    }
    assert(pending(files, rendered) is None) by {
        if exists|p: int| is_pending(files, rendered, p) {
            let p = choose|p: int| is_pending(files, rendered, p);
            assert(answered(files, rendered, p));
        }
    }
    None
}

/// Makes the outputs of a template and the engine's answers: every file
/// under its name, in the template's order, or the failure of the first
/// file that cannot be rendered.
pub fn render_all(template: &Template, answers: &Answers) -> (r: Result<Vec<Entry>, TemplateError>)
    ensures
        match r {
            Ok(outputs) => rendering(template.deep_view(), answers.deep_view()) == Ok::<
                Seq<EntryModel>,
                TemplateErrorModel,
            >(outputs.deep_view()),
            Err(error) => rendering(template.deep_view(), answers.deep_view()) == Err::<
                Seq<EntryModel>,
                TemplateErrorModel,
            >(error.deep_view()),
        },
{
    let entries = template.entries();
    let ghost files = template.deep_view();
    let ghost rendered = answers.deep_view().rendered;
    let n: usize = entries.len();
    let mut outputs: Vec<Entry> = Vec::new();
    match survey(entries) {
        Survey::Undecodable(k) => {
            proof {
                lemma_first_undecodable(files, k as int);
            }
            assert(files[k as int] == entries[k as int].deep_view());
            return Err(refused_entry(&entries[k], "template is not valid UTF-8"));
        },
        Survey::Plain => {
            let mut i: usize = 0;
            while i < n
                invariant
                    i <= n == entries.len(),
                    files == entries.deep_view(),
                    outputs.len() == i,
                    forall|k: int| 0 <= k < i ==> (#[trigger] outputs[k]).deep_view() == files[k],
                decreases n - i,
            {
                outputs.push(copied_entry(&entries[i]));
                i += 1;
            }
            assert(outputs.deep_view() =~= files);
            return Ok(outputs);
        },
        Survey::Marked => {},
    }
    match &answers.loaded {
        None => {
            return Err(
                TemplateError::RenderFailed {
                    file: None,
                    reason: String::from_str("the engine gave no answer"),
                },
            );
        },
        Some(Err(reason)) => {
            return Err(TemplateError::RenderFailed { file: None, reason: reason.clone() });
        },
        Some(Ok(_)) => {},
    }
    let given: usize = answers.rendered.len();
    let mut j: usize = 0;
    let mut i: usize = 0;
    while i < n
        invariant
            i <= n == entries.len(),
            files == entries.deep_view(),
            files == template.deep_view(),
            rendered == answers.deep_view().rendered,
            given == answers.rendered.len(),
            first_undecodable(files) is None,
            !all_plain(files),
            answers.deep_view().loaded matches Some(Ok(_)),
            j == rank(files, i as int),
            j <= given,
            outputs.len() == i,
            forall|k: int| 0 <= k < i ==> answered(files, rendered, k),
            forall|k: int|
                0 <= k < i ==> (#[trigger] outputs[k]).deep_view() == output(files, rendered, k),
        decreases n - i,
    {
        let entry = &entries[i];
        assert(files[i as int] == entry.deep_view());
        if contains_marker(entry.bytes.as_slice()) {
            if j == given {
                proof {
                    assert(is_first_refused(files, rendered, i as int));
                    lemma_first_refused(files, rendered, i as int);
                }
                return Err(refused_entry(entry, "the engine gave no answer"));
            }
            assert(rendered[j as int] == answer_model(answers.rendered[j as int]));
            match rendered_entry(entry, copied_answer(&answers.rendered[j])) {
                Ok(output) => {
                    outputs.push(output);
                },
                Err(error) => {
                    proof {
                        assert(is_first_refused(files, rendered, i as int));
                        lemma_first_refused(files, rendered, i as int);
                    }
                    return Err(error);
                },
            }
            j += 1;
        } else {
            outputs.push(copied_entry(entry));
        }
        i += 1;
    }
    assert(first_refused(files, rendered) is None) by {
        if exists|p: int| is_first_refused(files, rendered, p) {
            let p = choose|p: int| is_first_refused(files, rendered, p);
            assert(answered(files, rendered, p));
        }
    }
    assert(outputs.deep_view() =~= Seq::new(files.len(), |i: int| output(files, rendered, i)));
    Ok(outputs)
}

} // verus!
