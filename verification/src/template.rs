//! A template: the files that lie directly in one directory.

use vstd::prelude::*;
use vstd::string::StrSliceExecFns;
use crate::error::{TemplateError, TemplateErrorModel};

verus! {

/// A file of a directory: its name and the bytes it holds.
#[derive(Debug, Clone)]
pub struct Entry {
    pub name: String,
    pub bytes: Vec<u8>,
}

/// An `Entry` as the contracts see it.
pub struct EntryModel {
    pub name: Seq<char>,
    pub bytes: Seq<u8>,
}

impl DeepView for Entry {
    type V = EntryModel;

    open spec fn deep_view(&self) -> EntryModel {
        EntryModel { name: self.name@, bytes: self.bytes@ }
    }
}

/// What a directory holds under one name.
#[derive(Debug, Clone, Copy, PartialEq, Eq, Structural)]
pub enum EntryKind {
    /// A regular file.
    File,
    /// A directory.
    Directory,
    /// Anything else.
    Other,
}

/// One line of a directory's listing: a name and what it names.
#[derive(Debug, Clone)]
pub struct Listed {
    pub name: String,
    pub kind: EntryKind,
}

/// A `Listed` as the contracts see it.
pub struct ListedModel {
    pub name: Seq<char>,
    pub kind: EntryKind,
}

impl DeepView for Listed {
    type V = ListedModel;

    open spec fn deep_view(&self) -> ListedModel {
        ListedModel { name: self.name@, kind: self.kind }
    }
}

/// The names of the regular files of a listing, in its order. Directories
/// and whatever else the listing holds are passed over.
pub open spec fn file_names(listing: Seq<ListedModel>) -> Seq<Seq<char>>
    decreases listing.len(),
{
    if listing.len() == 0 {
        Seq::empty()
    } else {
        let before = file_names(listing.drop_last());
        if listing.last().kind == EntryKind::File {
            before.push(listing.last().name)
        } else {
            before
        }
    }
}

/// Selects the regular files of a listing.
pub fn regular_files(listing: &Vec<Listed>) -> (names: Vec<String>)
    ensures
        names.deep_view() == file_names(listing.deep_view()),
{
    let ghost lines = listing.deep_view();
    let mut names: Vec<String> = Vec::new();
    let mut i: usize = 0;
    assert(lines.take(0) =~= Seq::<ListedModel>::empty());
    while i < listing.len()
        invariant
            i <= listing.len(),
            lines == listing.deep_view(),
            names.deep_view() == file_names(lines.take(i as int)),
        decreases listing.len() - i,
    {
        let ghost before = names.deep_view();
        assert(lines.take(i + 1).drop_last() =~= lines.take(i as int));
        assert(lines.take(i + 1).last() == listing[i as int].deep_view());
        match listing[i].kind {
            EntryKind::File => {
                names.push(listing[i].name.clone());
                assert(names.deep_view() =~= before.push(listing[i as int].name@));
            },
            _ => {},
        }
        i += 1;
    }
    assert(lines.take(listing.len() as int) =~= lines);
    names
}

/// A file name is one path component: not empty, and without a separator.
pub open spec fn valid_name(name: Seq<char>) -> bool {
    name.len() > 0 && forall|i: int| 0 <= i < name.len() ==> name[i] != '/'
}

/// No name occurs twice.
pub open spec fn distinct(names: Seq<Seq<char>>) -> bool {
    forall|i: int, j: int| 0 <= i < j < names.len() ==> names[i] != names[j]
}

/// What the names of one directory's files satisfy: each is a file name,
/// and no two are the same.
pub open spec fn valid_listing(names: Seq<Seq<char>>) -> bool {
    (forall|i: int| 0 <= i < names.len() ==> valid_name(#[trigger] names[i])) && distinct(names)
}

/// The names of `entries`, in their order.
pub open spec fn names_of(entries: Seq<EntryModel>) -> Seq<Seq<char>> {
    Seq::new(entries.len(), |i: int| entries[i].name)
}

/// Tells whether `name` can name a file in a directory.
pub fn is_valid_name(name: &str) -> (valid: bool)
    ensures
        valid == valid_name(name@),
{
    let len: usize = name.unicode_len();
    if len == 0 {
        return false;
    }
    let mut i: usize = 0;
    while i < len
        invariant
            i <= len,
            len == name@.len(),
            forall|k: int| 0 <= k < i ==> name@[k] != '/',
        decreases len - i,
    {
        if name.get_char(i) == '/' {
            return false;
        }
        i += 1;
    }
    true
}

/// Tells whether `name` differs from the names of the first `upto` entries.
fn is_new_name(entries: &Vec<Entry>, upto: usize, name: &String) -> (fresh: bool)
    requires
        upto <= entries.len(),
    ensures
        fresh == forall|k: int| 0 <= k < upto ==> entries[k].name@ != name@,
{
    let mut k: usize = 0;
    while k < upto
        invariant
            k <= upto <= entries.len(),
            forall|m: int| 0 <= m < k ==> entries[m].name@ != name@,
        decreases upto - k,
    {
        if entries[k].name == *name {
            return false;
        }
        k += 1;
    }
    true
}

/// The files of one template directory. Every name is a file name, and no
/// name occurs twice.
#[derive(Debug)]
pub struct Template {
    entries: Vec<Entry>,
}

impl DeepView for Template {
    type V = Seq<EntryModel>;

    closed spec fn deep_view(&self) -> Seq<EntryModel> {
        self.entries.deep_view()
    }
}

impl Template {
    #[verifier::type_invariant]
    spec fn well_formed(self) -> bool {
        valid_listing(names_of(self.entries.deep_view()))
    }

    /// Makes a template of the files of a directory. Gives `None` where a
    /// name is no file name or occurs twice.
    pub fn new(entries: Vec<Entry>) -> (r: Option<Template>)
        ensures
            r is Some <==> valid_listing(names_of(entries.deep_view())),
            r matches Some(template) ==> template.deep_view() == entries.deep_view(),
    {
        let ghost names = names_of(entries.deep_view());
        let mut i: usize = 0;
        while i < entries.len()
            invariant
                i <= entries.len(),
                names == names_of(entries.deep_view()),
                forall|k: int| 0 <= k < i ==> valid_name(#[trigger] names[k]),
                forall|k: int, m: int| 0 <= k < m < i ==> names[k] != names[m],
            decreases entries.len() - i,
        {
            if !is_valid_name(entries[i].name.as_str()) {
                assert(!valid_name(names[i as int]));
                return None;
            }
            if !is_new_name(&entries, i, &entries[i].name) {
                let ghost k = choose|k: int| 0 <= k < i && entries[k].name@ == entries[i as int].name@;
                assert(names[k] == names[i as int]);
                return None;
            }
            assert forall|k: int, m: int| 0 <= k < m < i + 1 implies names[k] != names[m] by {
                if m == i {
                    assert(entries[k].name@ != entries[i as int].name@);
                }
            }
            i += 1;
        }
        Some(Template { entries })
    }

    /// Makes a template of what listing a directory gave: `None` stands
    /// for a directory that could not be listed. Such a directory, and a
    /// listing that is no template, give `NotFound`.
    pub fn from_listing(listing: Option<Vec<Entry>>) -> (r: Result<Template, TemplateError>)
        ensures
            match r {
                Ok(template) => listing matches Some(entries) && valid_listing(
                    names_of(entries.deep_view()),
                ) && template.deep_view() == entries.deep_view(),
                Err(error) => error.deep_view() == TemplateErrorModel::NotFound && !(
                listing matches Some(entries) && valid_listing(names_of(entries.deep_view()))),
            },
    {
        match listing {
            Some(entries) => match Template::new(entries) {
                Some(template) => Ok(template),
                None => Err(TemplateError::NotFound),
            },
            None => Err(TemplateError::NotFound),
        }
    }

    /// The files, in the order in which they were given.
    pub fn entries(&self) -> (entries: &Vec<Entry>)
        ensures
            entries.deep_view() == self.deep_view(),
            valid_listing(names_of(self.deep_view())),
    {
        proof {
            use_type_invariant(self);
        }
        &self.entries
    }
}

} // verus!
