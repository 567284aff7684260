//! The Environment manages the runtime state: a mapping from variable names
//! to file entries (filename, in-memory content, and open state).
//!
//! The environment holds the in-memory half of every file operation. The
//! disk-facing half lives outside the verified library: the interpreter
//! first names the disk action a statement needs, and commits the in-memory
//! change only once the action has succeeded, so a disk failure never leaves
//! the environment half-changed.
//!
//! The view of an environment is a map from variable name to entry model;
//! `entries` exposes the underlying sequence, in insertion order, for the
//! environment dump.

use vstd::prelude::*;
use vstd::string::StrSliceExecFns;
use vstd::string::StringExecFns;

use crate::errors::RuntimeError;
use crate::utils::{
    pairs_view,
    regex_error,
    regex_replaced,
    regex_valid,
    replace_in_text,
    search_in_text,
    spec_lines,
    spec_search,
    split_lines,
    str_eq,
};

verus! {

/// A file entry holds the state of an opened file.
pub struct FileEntry {
    /// The filename on disk.
    pub filename: String,
    /// The in-memory content of the file.
    pub content: String,
    /// Whether the file is currently open.
    pub is_open: bool,
}

/// The shape of a file entry, for specifications.
pub ghost struct EntryModel {
    pub filename: Seq<char>,
    pub content: Seq<char>,
    pub is_open: bool,
}

impl View for FileEntry {
    type V = EntryModel;

    open spec fn view(&self) -> EntryModel {
        EntryModel { filename: self.filename@, content: self.content@, is_open: self.is_open }
    }
}

/// The map a sequence of named entries denotes; an earlier binding of a name
/// shadows a later one.
pub open spec fn map_of_entries(es: Seq<(Seq<char>, EntryModel)>) -> Map<Seq<char>, EntryModel>
    decreases es.len(),
{
    if es.len() == 0 {
        Map::empty()
    } else {
        map_of_entries(es.drop_first()).insert(es[0].0, es[0].1)
    }
}

pub proof fn lemma_map_absent(es: Seq<(Seq<char>, EntryModel)>, k: Seq<char>)
    requires
        forall|j: int| 0 <= j < es.len() ==> (#[trigger] es[j]).0 != k,
    ensures
        !map_of_entries(es).contains_key(k),
    decreases es.len(),
{
    if es.len() > 0 {
        lemma_map_absent(es.drop_first(), k);
    }
}

pub proof fn lemma_map_first(es: Seq<(Seq<char>, EntryModel)>, i: int)
    requires
        0 <= i < es.len(),
        forall|j: int| 0 <= j < i ==> (#[trigger] es[j]).0 != es[i].0,
    ensures
        map_of_entries(es).contains_key(es[i].0),
        map_of_entries(es)[es[i].0] == es[i].1,
    decreases i,
{
    if i > 0 {
        assert(forall|j: int|
            0 <= j < i - 1 ==> (#[trigger] es.drop_first()[j]).0 == es[j + 1].0);
        lemma_map_first(es.drop_first(), i - 1);
    }
}

pub proof fn lemma_map_update(es: Seq<(Seq<char>, EntryModel)>, i: int, e: EntryModel)
    requires
        0 <= i < es.len(),
        forall|j: int| 0 <= j < i ==> (#[trigger] es[j]).0 != es[i].0,
    ensures
        map_of_entries(es.update(i, (es[i].0, e))) =~= map_of_entries(es).insert(es[i].0, e),
    decreases i,
{
    let up = es.update(i, (es[i].0, e));
    if i == 0 {
        assert(up.drop_first() =~= es.drop_first());
    } else {
        assert(up.drop_first() =~= es.drop_first().update(i - 1, (es[i].0, e)));
        assert(forall|j: int|
            0 <= j < i - 1 ==> (#[trigger] es.drop_first()[j]).0 == es[j + 1].0);
        assert(es.drop_first()[i - 1] == es[i]);
        lemma_map_update(es.drop_first(), i - 1, e);
    }
}

pub proof fn lemma_map_push(es: Seq<(Seq<char>, EntryModel)>, k: Seq<char>, e: EntryModel)
    requires
        forall|j: int| 0 <= j < es.len() ==> (#[trigger] es[j]).0 != k,
    ensures
        map_of_entries(es.push((k, e))) =~= map_of_entries(es).insert(k, e),
    decreases es.len(),
{
    if es.len() == 0 {
        assert(es.push((k, e)).drop_first() =~= Seq::<(Seq<char>, EntryModel)>::empty());
        assert(es.push((k, e))[0] == (k, e));
        assert(map_of_entries(es.push((k, e))) == map_of_entries(
            es.push((k, e)).drop_first(),
        ).insert(k, e));
        assert(map_of_entries(es.push((k, e))) =~= map_of_entries(es).insert(k, e));
    } else {
        assert(es.push((k, e)).drop_first() =~= es.drop_first().push((k, e)));
        assert(es.push((k, e))[0] == es[0]);
        assert(forall|j: int|
            0 <= j < es.drop_first().len() ==> (#[trigger] es.drop_first()[j]).0 == es[j + 1].0);
        lemma_map_push(es.drop_first(), k, e);
        assert(map_of_entries(es.drop_first()).insert(k, e).insert(es[0].0, es[0].1)
            =~= map_of_entries(es.drop_first()).insert(es[0].0, es[0].1).insert(k, e));
        assert(map_of_entries(es.push((k, e))) == map_of_entries(
            es.push((k, e)).drop_first(),
        ).insert(es[0].0, es[0].1));
        assert(map_of_entries(es.push((k, e)).drop_first()) == map_of_entries(
            es.drop_first().push((k, e)),
        ));
        assert(map_of_entries(es) == map_of_entries(es.drop_first()).insert(es[0].0, es[0].1));
    }
}

// ---------------------------------------------------------------------------
// Error messages
// ---------------------------------------------------------------------------

pub open spec fn msg_no_such_var(v: Seq<char>) -> Seq<char> {
    "No such variable '"@ + v + "'"@
}

pub open spec fn msg_not_open(v: Seq<char>) -> Seq<char> {
    "Variable '"@ + v + "' file is not open."@
}

pub open spec fn msg_already_open(v: Seq<char>) -> Seq<char> {
    "Variable '"@ + v + "' already has an open file."@
}

pub open spec fn msg_invalid_regex(p: Seq<char>) -> Seq<char> {
    "Invalid regex '"@ + p + "': "@ + regex_error(p)
}

/// Whether `v` is bound and its gate is open.
pub open spec fn entry_open(m: Map<Seq<char>, EntryModel>, v: Seq<char>) -> bool {
    m.contains_key(v) && m[v].is_open
}

pub struct Environment {
    files: Vec<(String, FileEntry)>,
}

impl View for Environment {
    type V = Map<Seq<char>, EntryModel>;

    closed spec fn view(&self) -> Map<Seq<char>, EntryModel> {
        map_of_entries(self.entries())
    }
}

impl Environment {
    /// The named entries in insertion order.
    pub closed spec fn entries(&self) -> Seq<(Seq<char>, EntryModel)> {
        self.files@.map_values(|p: (String, FileEntry)| (p.0@, p.1@))
    }

    /// Create a new empty environment.
    pub fn new() -> (r: Self)
        ensures
            r@ == Map::<Seq<char>, EntryModel>::empty(),
            r.entries() == Seq::<(Seq<char>, EntryModel)>::empty(),
    {
        let r = Self { files: Vec::new() };
        proof {
            assert(r.entries() =~= Seq::<(Seq<char>, EntryModel)>::empty());
        }
        r
    }

    /// The first index bound to `var_name`, if any.
    fn find_index(&self, var_name: &str) -> (r: Option<usize>)
        ensures
            r is Some ==> (r->Some_0) < self.entries().len() && self.entries()[
                r->Some_0 as int
            ].0 == var_name@ && (forall|j: int|
                0 <= j < r->Some_0 ==> (#[trigger] self.entries()[j]).0 != var_name@),
            r is None ==> (forall|j: int|
                0 <= j < self.entries().len() ==> (#[trigger] self.entries()[j]).0 != var_name@),
    {
        let mut i: usize = 0;
        while i < self.files.len()
            invariant
                i <= self.files.len(),
                self.entries().len() == self.files@.len(),
                forall|j: int| 0 <= j < i ==> (#[trigger] self.entries()[j]).0 != var_name@,
            decreases self.files.len() - i,
        {
            if str_eq(self.files[i].0.as_str(), var_name) {
                return Some(i);
            }
            i += 1;
        }
        None
    }

    /// Open a file and assign it to a variable.
    /// If already open, error unless it was closed previously.
    pub fn open_file(&mut self, var_name: String, filename: String) -> (r: Result<
        (),
        RuntimeError,
    >)
        ensures
            entry_open(old(self)@, var_name@) ==> r is Err && (r->Err_0)@ == msg_already_open(
                var_name@,
            ) && final(self)@ == old(self)@,
            !entry_open(old(self)@, var_name@) ==> r is Ok && final(self)@ == old(self)@.insert(
                var_name@,
                EntryModel { filename: filename@, content: Seq::empty(), is_open: true },
            ),
    {
        let ghost es = self.entries();
        match self.find_index(var_name.as_str()) {
            Some(i) => {
                proof {
                    lemma_map_first(es, i as int);
                }
                if self.files[i].1.is_open {
                    let mut m: String = String::new();
                    m.append("Variable '");
                    m.append(var_name.as_str());
                    m.append("' already has an open file.");
                    proof {
                        assert(m@ =~= msg_already_open(var_name@));
                    }
                    Err(RuntimeError::new(m))
                } else {
                    let entry = FileEntry { filename, content: String::new(), is_open: true };
                    let ghost em = entry@;
                    self.files[i] = (var_name, entry);
                    proof {
                        assert(self.entries() =~= es.update(i as int, (es[i as int].0, em)));
                        lemma_map_update(es, i as int, em);
                        assert(em.content =~= Seq::<char>::empty());
                    }
                    Ok(())
                }
            },
            None => {
                proof {
                    lemma_map_absent(es, var_name@);
                }
                let entry = FileEntry { filename, content: String::new(), is_open: true };
                let ghost em = entry@;
                let ghost key = var_name@;
                self.files.push((var_name, entry));
                proof {
                    assert(self.entries() =~= es.push((key, em)));
                    lemma_map_push(es, key, em);
                    assert(em.content =~= Seq::<char>::empty());
                }
                Ok(())
            },
        }
    }

    /// The first index bound to `var_name` whose entry is open, or the
    /// runtime error the caller reports.
    fn open_index(&self, var_name: &str) -> (r: Result<usize, RuntimeError>)
        ensures
            !self@.contains_key(var_name@) ==> r is Err && (r->Err_0)@ == msg_no_such_var(
                var_name@,
            ),
            self@.contains_key(var_name@) && !self@[var_name@].is_open ==> r is Err && (
            r->Err_0)@ == msg_not_open(var_name@),
            entry_open(self@, var_name@) ==> r is Ok && (r->Ok_0) < self.entries().len()
                && self.entries()[r->Ok_0 as int].0 == var_name@ && self.entries()[
                r->Ok_0 as int
            ].1 == self@[var_name@] && (forall|j: int|
                0 <= j < (r->Ok_0) ==> (#[trigger] self.entries()[j]).0 != var_name@),
    {
        let ghost es = self.entries();
        match self.find_index(var_name) {
            None => {
                proof {
                    lemma_map_absent(es, var_name@);
                }
                let mut m: String = String::new();
                m.append("No such variable '");
                m.append(var_name);
                m.append("'");
                proof {
                    assert(m@ =~= msg_no_such_var(var_name@));
                }
                Err(RuntimeError::new(m))
            },
            Some(i) => {
                proof {
                    lemma_map_first(es, i as int);
                }
                if !self.files[i].1.is_open {
                    let mut m: String = String::new();
                    m.append("Variable '");
                    m.append(var_name);
                    m.append("' file is not open.");
                    proof {
                        assert(m@ =~= msg_not_open(var_name@));
                    }
                    Err(RuntimeError::new(m))
                } else {
                    Ok(i)
                }
            },
        }
    }

    /// Set the in-memory content of an open entry to `text`, as after the
    /// disk half of a read or write has succeeded.
    fn set_content(&mut self, var_name: &str, text: String) -> (r: Result<(), RuntimeError>)
        ensures
            !old(self)@.contains_key(var_name@) ==> r is Err && (r->Err_0)@ == msg_no_such_var(
                var_name@,
            ) && final(self)@ == old(self)@,
            old(self)@.contains_key(var_name@) && !old(self)@[var_name@].is_open ==> r is Err
                && (r->Err_0)@ == msg_not_open(var_name@) && final(self)@ == old(self)@,
            entry_open(old(self)@, var_name@) ==> r is Ok && final(self)@ == old(self)@.insert(
                var_name@,
                EntryModel {
                    filename: old(self)@[var_name@].filename,
                    content: text@,
                    is_open: true,
                },
            ),
    {
        let ghost es = self.entries();
        let i: usize = match self.open_index(var_name) {
            Ok(i) => i,
            Err(e) => {
                return Err(e);
            },
        };
        let name: String = var_name.to_owned();
        let filename: String = self.files[i].1.filename.clone();
        let entry = FileEntry { filename, content: text, is_open: true };
        let ghost em = entry@;
        self.files[i] = (name, entry);
        proof {
            assert(self.entries() =~= es.update(i as int, (es[i as int].0, em)));
            lemma_map_update(es, i as int, em);
        }
        Ok(())
    }

    /// Commit a finished read from disk into the environment.
    pub fn read_file_content(&mut self, var_name: &str, text: String) -> (r: Result<
        (),
        RuntimeError,
    >)
        ensures
            !old(self)@.contains_key(var_name@) ==> r is Err && (r->Err_0)@ == msg_no_such_var(
                var_name@,
            ) && final(self)@ == old(self)@,
            old(self)@.contains_key(var_name@) && !old(self)@[var_name@].is_open ==> r is Err
                && (r->Err_0)@ == msg_not_open(var_name@) && final(self)@ == old(self)@,
            entry_open(old(self)@, var_name@) ==> r is Ok && final(self)@ == old(self)@.insert(
                var_name@,
                EntryModel {
                    filename: old(self)@[var_name@].filename,
                    content: text@,
                    is_open: true,
                },
            ),
    {
        self.set_content(var_name, text)
    }

    /// Commit a finished overwrite of the file on disk: the in-memory
    /// content becomes the written text.
    pub fn write_file_content(&mut self, var_name: &str, text: &str) -> (r: Result<
        (),
        RuntimeError,
    >)
        ensures
            !old(self)@.contains_key(var_name@) ==> r is Err && (r->Err_0)@ == msg_no_such_var(
                var_name@,
            ) && final(self)@ == old(self)@,
            old(self)@.contains_key(var_name@) && !old(self)@[var_name@].is_open ==> r is Err
                && (r->Err_0)@ == msg_not_open(var_name@) && final(self)@ == old(self)@,
            entry_open(old(self)@, var_name@) ==> r is Ok && final(self)@ == old(self)@.insert(
                var_name@,
                EntryModel {
                    filename: old(self)@[var_name@].filename,
                    content: text@,
                    is_open: true,
                },
            ),
    {
        self.set_content(var_name, text.to_owned())
    }

    /// Commit a finished append on disk: the text is appended to the
    /// in-memory content.
    pub fn append_file_content(&mut self, var_name: &str, text: &str) -> (r: Result<
        (),
        RuntimeError,
    >)
        ensures
            !old(self)@.contains_key(var_name@) ==> r is Err && (r->Err_0)@ == msg_no_such_var(
                var_name@,
            ) && final(self)@ == old(self)@,
            old(self)@.contains_key(var_name@) && !old(self)@[var_name@].is_open ==> r is Err
                && (r->Err_0)@ == msg_not_open(var_name@) && final(self)@ == old(self)@,
            entry_open(old(self)@, var_name@) ==> r is Ok && final(self)@ == old(self)@.insert(
                var_name@,
                EntryModel {
                    filename: old(self)@[var_name@].filename,
                    content: old(self)@[var_name@].content + text@,
                    is_open: true,
                },
            ),
    {
        let i: usize = match self.open_index(var_name) {
            Ok(i) => i,
            Err(e) => {
                return Err(e);
            },
        };
        let mut joined: String = self.files[i].1.content.clone();
        joined.append(text);
        self.set_content(var_name, joined)
    }

    /// Get the content of a file in memory.
    pub fn get_file_content(&self, var_name: &str) -> (r: Result<String, RuntimeError>)
        ensures
            !self@.contains_key(var_name@) ==> r is Err && (r->Err_0)@ == msg_no_such_var(
                var_name@,
            ),
            self@.contains_key(var_name@) && !self@[var_name@].is_open ==> r is Err && (
            r->Err_0)@ == msg_not_open(var_name@),
            entry_open(self@, var_name@) ==> r is Ok && (r->Ok_0)@ == self@[var_name@].content,
    {
        let i: usize = match self.open_index(var_name) {
            Ok(i) => i,
            Err(e) => {
                return Err(e);
            },
        };
        Ok(self.files[i].1.content.clone())
    }

    /// The filename an open variable is bound to.
    pub fn get_filename(&self, var_name: &str) -> (r: Result<String, RuntimeError>)
        ensures
            !self@.contains_key(var_name@) ==> r is Err && (r->Err_0)@ == msg_no_such_var(
                var_name@,
            ),
            self@.contains_key(var_name@) && !self@[var_name@].is_open ==> r is Err && (
            r->Err_0)@ == msg_not_open(var_name@),
            entry_open(self@, var_name@) ==> r is Ok && (r->Ok_0)@ == self@[var_name@].filename,
    {
        let i: usize = match self.open_index(var_name) {
            Ok(i) => i,
            Err(e) => {
                return Err(e);
            },
        };
        Ok(self.files[i].1.filename.clone())
    }

    /// Close a file: the entry stays bound, but rejects content operations
    /// until reopened.
    pub fn close_file(&mut self, var_name: &str) -> (r: Result<(), RuntimeError>)
        ensures
            !old(self)@.contains_key(var_name@) ==> r is Err && (r->Err_0)@ == msg_no_such_var(
                var_name@,
            ) && final(self)@ == old(self)@,
            old(self)@.contains_key(var_name@) && !old(self)@[var_name@].is_open ==> r is Err
                && (r->Err_0)@ == msg_not_open(var_name@) && final(self)@ == old(self)@,
            entry_open(old(self)@, var_name@) ==> r is Ok && final(self)@ == old(self)@.insert(
                var_name@,
                EntryModel {
                    filename: old(self)@[var_name@].filename,
                    content: old(self)@[var_name@].content,
                    is_open: false,
                },
            ),
    {
        let ghost es = self.entries();
        let i: usize = match self.open_index(var_name) {
            Ok(i) => i,
            Err(e) => {
                return Err(e);
            },
        };
        let name: String = var_name.to_owned();
        let filename: String = self.files[i].1.filename.clone();
        let content: String = self.files[i].1.content.clone();
        let entry = FileEntry { filename, content, is_open: false };
        let ghost em = entry@;
        self.files[i] = (name, entry);
        proof {
            assert(self.entries() =~= es.update(i as int, (es[i as int].0, em)));
            lemma_map_update(es, i as int, em);
        }
        Ok(())
    }

    /// Commit a finished truncate on disk: the in-memory content is cleared.
    pub fn truncate_file(&mut self, var_name: &str) -> (r: Result<(), RuntimeError>)
        ensures
            !old(self)@.contains_key(var_name@) ==> r is Err && (r->Err_0)@ == msg_no_such_var(
                var_name@,
            ) && final(self)@ == old(self)@,
            old(self)@.contains_key(var_name@) && !old(self)@[var_name@].is_open ==> r is Err
                && (r->Err_0)@ == msg_not_open(var_name@) && final(self)@ == old(self)@,
            entry_open(old(self)@, var_name@) ==> r is Ok && final(self)@ == old(self)@.insert(
                var_name@,
                EntryModel {
                    filename: old(self)@[var_name@].filename,
                    content: Seq::empty(),
                    is_open: true,
                },
            ),
    {
        self.set_content(var_name, String::new())
    }

    /// Search for a regex pattern in the file content and return matches.
    pub fn search_file(&self, var_name: &str, pattern: &str) -> (r: Result<
        Vec<(usize, String)>,
        RuntimeError,
    >)
        ensures
            !self@.contains_key(var_name@) ==> r is Err && (r->Err_0)@ == msg_no_such_var(
                var_name@,
            ),
            self@.contains_key(var_name@) && !self@[var_name@].is_open ==> r is Err && (
            r->Err_0)@ == msg_not_open(var_name@),
            entry_open(self@, var_name@) && !regex_valid(pattern@) ==> r is Err && (r->Err_0)@
                == msg_invalid_regex(pattern@),
            entry_open(self@, var_name@) && regex_valid(pattern@) ==> r is Ok && pairs_view(
                (r->Ok_0)@,
            ) == spec_search(pattern@, self@[var_name@].content),
    {
        let i: usize = match self.open_index(var_name) {
            Ok(i) => i,
            Err(e) => {
                return Err(e);
            },
        };
        match search_in_text(self.files[i].1.content.as_str(), pattern) {
            Ok(ms) => Ok(ms),
            Err(e) => {
                let mut m: String = String::new();
                m.append("Invalid regex '");
                m.append(pattern);
                m.append("': ");
                m.append(e.as_str());
                proof {
                    assert(m@ =~= msg_invalid_regex(pattern@));
                }
                Err(RuntimeError::new(m))
            },
        }
    }

    /// Replace all matches of a pattern in the in-memory content, as after
    /// the disk half of the replace has succeeded with the same result.
    pub fn replace_file(&mut self, var_name: &str, pattern: &str, replacement: &str) -> (r: Result<
        (),
        RuntimeError,
    >)
        ensures
            !old(self)@.contains_key(var_name@) ==> r is Err && (r->Err_0)@ == msg_no_such_var(
                var_name@,
            ) && final(self)@ == old(self)@,
            old(self)@.contains_key(var_name@) && !old(self)@[var_name@].is_open ==> r is Err
                && (r->Err_0)@ == msg_not_open(var_name@) && final(self)@ == old(self)@,
            entry_open(old(self)@, var_name@) && !regex_valid(pattern@) ==> r is Err && (
            r->Err_0)@ == msg_invalid_regex(pattern@) && final(self)@ == old(self)@,
            entry_open(old(self)@, var_name@) && regex_valid(pattern@) ==> r is Ok
                && final(self)@ == old(self)@.insert(
                var_name@,
                EntryModel {
                    filename: old(self)@[var_name@].filename,
                    content: regex_replaced(
                        pattern@,
                        old(self)@[var_name@].content,
                        replacement@,
                    ),
                    is_open: true,
                },
            ),
    {
        let i: usize = match self.open_index(var_name) {
            Ok(i) => i,
            Err(e) => {
                return Err(e);
            },
        };
        match replace_in_text(self.files[i].1.content.as_str(), pattern, replacement) {
            Ok(new_content) => self.set_content(var_name, new_content),
            Err(e) => {
                let mut m: String = String::new();
                m.append("Invalid regex '");
                m.append(pattern);
                m.append("': ");
                m.append(e.as_str());
                proof {
                    assert(m@ =~= msg_invalid_regex(pattern@));
                }
                Err(RuntimeError::new(m))
            },
        }
    }

    /// Count lines in a file's content.
    pub fn line_count(&self, var_name: &str) -> (r: Result<usize, RuntimeError>)
        ensures
            !self@.contains_key(var_name@) ==> r is Err && (r->Err_0)@ == msg_no_such_var(
                var_name@,
            ),
            self@.contains_key(var_name@) && !self@[var_name@].is_open ==> r is Err && (
            r->Err_0)@ == msg_not_open(var_name@),
            entry_open(self@, var_name@) ==> r is Ok && r->Ok_0 == spec_lines(
                self@[var_name@].content,
            ).len(),
    {
        let i: usize = match self.open_index(var_name) {
            Ok(i) => i,
            Err(e) => {
                return Err(e);
            },
        };
        let lines: Vec<String> = split_lines(self.files[i].1.content.as_str());
        proof {
            assert(lines@.len() == lines@.map_values(|l: String| l@).len());
        }
        Ok(lines.len())
    }

    /// Commit a finished rename on disk: the stored filename changes, and
    /// the variable stays open under the new filename.
    pub fn rename_file(&mut self, var_name: &str, new_filename: &str) -> (r: Result<
        (),
        RuntimeError,
    >)
        ensures
            !old(self)@.contains_key(var_name@) ==> r is Err && (r->Err_0)@ == msg_no_such_var(
                var_name@,
            ) && final(self)@ == old(self)@,
            old(self)@.contains_key(var_name@) && !old(self)@[var_name@].is_open ==> r is Err
                && (r->Err_0)@ == msg_not_open(var_name@) && final(self)@ == old(self)@,
            entry_open(old(self)@, var_name@) ==> r is Ok && final(self)@ == old(self)@.insert(
                var_name@,
                EntryModel {
                    filename: new_filename@,
                    content: old(self)@[var_name@].content,
                    is_open: true,
                },
            ),
    {
        let ghost es = self.entries();
        let i: usize = match self.open_index(var_name) {
            Ok(i) => i,
            Err(e) => {
                return Err(e);
            },
        };
        let name: String = var_name.to_owned();
        let content: String = self.files[i].1.content.clone();
        let entry = FileEntry { filename: new_filename.to_owned(), content, is_open: true };
        let ghost em = entry@;
        self.files[i] = (name, entry);
        proof {
            assert(self.entries() =~= es.update(i as int, (es[i as int].0, em)));
            lemma_map_update(es, i as int, em);
        }
        Ok(())
    }

    /// The lines of the environment dump, one binding per line.
    pub fn dump(&self) -> (r: Vec<String>)
        ensures
            r@.map_values(|l: String| l@) == dump_lines(self.entries()),
    {
        let mut r: Vec<String> = Vec::new();
        r.push("Environment Variables:".to_owned());
        if self.files.len() == 0 {
            r.push("  (none)".to_owned());
            proof {
                assert(r@.map_values(|l: String| l@) =~= dump_lines(self.entries()));
            }
            return r;
        }
        let mut i: usize = 0;
        while i < self.files.len()
            invariant
                i <= self.files@.len(),
                self.files@.len() > 0,
                self.entries().len() == self.files@.len(),
                r@.map_values(|l: String| l@) =~= seq!["Environment Variables:"@]
                    + dump_entry_lines(self.entries().take(i as int)),
            decreases self.files@.len() - i,
        {
            let mut line: String = String::new();
            line.append("  ");
            line.append(self.files[i].0.as_str());
            line.append(" -> ");
            line.append(self.files[i].1.filename.as_str());
            if self.files[i].1.is_open {
                line.append(" [open]");
            } else {
                line.append(" [closed]");
            }
            let ghost pre = r@;
            r.push(line);
            proof {
                assert(self.entries().take(i + 1) =~= self.entries().take(i as int).push(
                    self.entries()[i as int],
                ));
                lemma_dump_entry_lines_push(self.entries().take(i as int), self.entries()[i as int]);
                assert(r@.map_values(|l: String| l@) =~= pre.map_values(|l: String| l@).push(
                    line@,
                ));
            }
            i += 1;
        }
        proof {
            assert(self.entries().take(self.entries().len() as int) =~= self.entries());
            assert(r@.map_values(|l: String| l@) =~= dump_lines(self.entries()));
        }
        r
    }
}

/// One line of the environment dump.
pub open spec fn dump_entry_line(e: (Seq<char>, EntryModel)) -> Seq<char> {
    "  "@ + e.0 + " -> "@ + e.1.filename + (if e.1.is_open {
        " [open]"@
    } else {
        " [closed]"@
    })
}

/// The per-binding lines of the environment dump.
pub open spec fn dump_entry_lines(es: Seq<(Seq<char>, EntryModel)>) -> Seq<Seq<char>>
    decreases es.len(),
{
    if es.len() == 0 {
        Seq::empty()
    } else {
        dump_entry_lines(es.drop_last()).push(dump_entry_line(es.last()))
    }
}

proof fn lemma_dump_entry_lines_push(es: Seq<(Seq<char>, EntryModel)>, e: (Seq<char>, EntryModel))
    ensures
        dump_entry_lines(es.push(e)) == dump_entry_lines(es).push(dump_entry_line(e)),
{
    assert(es.push(e).drop_last() =~= es);
    assert(es.push(e).last() == e);
}

/// The whole environment dump: the heading, then one line per binding, or a
/// placeholder when nothing is bound.
pub open spec fn dump_lines(es: Seq<(Seq<char>, EntryModel)>) -> Seq<Seq<char>> {
    if es.len() == 0 {
        seq!["Environment Variables:"@, "  (none)"@]
    } else {
        seq!["Environment Variables:"@] + dump_entry_lines(es)
    }
}

} // verus!
