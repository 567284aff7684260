//! The Interpreter executes the AST against an Environment.
//!
//! Executing one statement has two halves. `plan_statement` inspects the
//! environment and names the disk action the statement needs, or fails with
//! the statement's runtime error; a driver outside the library performs the
//! action. `apply_statement` then takes the action's outcome, commits the
//! in-memory change, and yields the statement's console output. On a failed
//! outcome the environment is left exactly as it was: the in-memory half of
//! a file operation happens only after the disk half has succeeded.

use vstd::prelude::*;
use vstd::string::StrSliceExecFns;
use vstd::string::StringExecFns;

use crate::ast::{Statement, StmtModel};
use crate::commands::{help_text, spec_help_text};
use crate::environment::{
    dump_lines,
    entry_open,
    msg_already_open,
    msg_invalid_regex,
    msg_no_such_var,
    msg_not_open,
    EntryModel,
    Environment,
};
use crate::errors::RuntimeError;
use crate::utils::{
    dec_digits,
    pairs_view,
    regex_compile_check,
    regex_replaced,
    regex_valid,
    spec_search,
    usize_to_string,
};

verus! {

// ---------------------------------------------------------------------------
// Disk actions and their outcomes
// ---------------------------------------------------------------------------

/// The disk action one statement needs; the driver performs it.
pub enum DiskAction {
    NoDisk,
    ReadFile { path: String },
    WriteFile { path: String, text: String },
    AppendFile { path: String, text: String },
    CopyFile { source: String, destination: String },
    MoveFile { source: String, destination: String },
    RemoveFile { path: String },
    RenameFile { from: String, to: String },
    ListDirectory { path: String },
}

/// The shape of a disk action, for specifications.
pub ghost enum ActionModel {
    NoDisk,
    ReadFile { path: Seq<char> },
    WriteFile { path: Seq<char>, text: Seq<char> },
    AppendFile { path: Seq<char>, text: Seq<char> },
    CopyFile { source: Seq<char>, destination: Seq<char> },
    MoveFile { source: Seq<char>, destination: Seq<char> },
    RemoveFile { path: Seq<char> },
    RenameFile { from: Seq<char>, to: Seq<char> },
    ListDirectory { path: Seq<char> },
}

impl View for DiskAction {
    type V = ActionModel;

    open spec fn view(&self) -> ActionModel {
        match self {
            DiskAction::NoDisk => ActionModel::NoDisk,
            DiskAction::ReadFile { path } => ActionModel::ReadFile { path: path@ },
            DiskAction::WriteFile { path, text } => ActionModel::WriteFile {
                path: path@,
                text: text@,
            },
            DiskAction::AppendFile { path, text } => ActionModel::AppendFile {
                path: path@,
                text: text@,
            },
            DiskAction::CopyFile { source, destination } => ActionModel::CopyFile {
                source: source@,
                destination: destination@,
            },
            DiskAction::MoveFile { source, destination } => ActionModel::MoveFile {
                source: source@,
                destination: destination@,
            },
            DiskAction::RemoveFile { path } => ActionModel::RemoveFile { path: path@ },
            DiskAction::RenameFile { from, to } => ActionModel::RenameFile {
                from: from@,
                to: to@,
            },
            DiskAction::ListDirectory { path } => ActionModel::ListDirectory { path: path@ },
        }
    }
}

/// What the driver reports back for one disk action.
pub enum DiskOutcome {
    /// The action succeeded and carries no data.
    Done,
    /// A read succeeded with this text.
    DoneText { text: String },
    /// A directory listing succeeded with these names.
    DoneListing { names: Vec<String> },
    /// The action failed; the message names the underlying cause.
    Failed { message: String },
}

/// The shape of a disk outcome, for specifications.
pub ghost enum OutcomeModel {
    Done,
    DoneText(Seq<char>),
    DoneListing(Seq<Seq<char>>),
    Failed(Seq<char>),
}

impl View for DiskOutcome {
    type V = OutcomeModel;

    open spec fn view(&self) -> OutcomeModel {
        match self {
            DiskOutcome::Done => OutcomeModel::Done,
            DiskOutcome::DoneText { text } => OutcomeModel::DoneText(text@),
            DiskOutcome::DoneListing { names } => OutcomeModel::DoneListing(
                names@.map_values(|n: String| n@),
            ),
            DiskOutcome::Failed { message } => OutcomeModel::Failed(message@),
        }
    }
}

// ---------------------------------------------------------------------------
// Error messages wrapping a failed disk action
// ---------------------------------------------------------------------------

pub open spec fn msg_failed_read(f: Seq<char>, e: Seq<char>) -> Seq<char> {
    "Failed to read file '"@ + f + "': "@ + e
}

pub open spec fn msg_failed_write(f: Seq<char>, e: Seq<char>) -> Seq<char> {
    "Failed to write to file '"@ + f + "': "@ + e
}

pub open spec fn msg_failed_append(f: Seq<char>, e: Seq<char>) -> Seq<char> {
    "Failed to append to file '"@ + f + "': "@ + e
}

pub open spec fn msg_failed_truncate(f: Seq<char>, e: Seq<char>) -> Seq<char> {
    "Failed to truncate file '"@ + f + "': "@ + e
}

pub open spec fn msg_failed_replace_write(f: Seq<char>, e: Seq<char>) -> Seq<char> {
    "Failed to write replaced content to file '"@ + f + "': "@ + e
}

pub open spec fn msg_failed_copy(s: Seq<char>, d: Seq<char>, e: Seq<char>) -> Seq<char> {
    "Failed to copy file '"@ + s + "' to '"@ + d + "': "@ + e
}

pub open spec fn msg_failed_move(s: Seq<char>, d: Seq<char>, e: Seq<char>) -> Seq<char> {
    "Failed to move file '"@ + s + "' to '"@ + d + "': "@ + e
}

pub open spec fn msg_failed_remove(f: Seq<char>, e: Seq<char>) -> Seq<char> {
    "Failed to remove file '"@ + f + "': "@ + e
}

pub open spec fn msg_failed_rename(o: Seq<char>, n: Seq<char>, e: Seq<char>) -> Seq<char> {
    "Failed to rename file '"@ + o + "' to '"@ + n + "': "@ + e
}

pub open spec fn msg_failed_listdir(p: Seq<char>, e: Seq<char>) -> Seq<char> {
    "Failed to list directory '"@ + p + "': "@ + e
}

/// The message when the driver hands back an outcome of the wrong shape.
pub open spec fn msg_outcome_mismatch() -> Seq<char> {
    "Mismatched disk outcome."@
}

fn join4(a: &str, b: &str, c: &str, d: &str) -> (r: String)
    ensures
        r@ == a@ + b@ + c@ + d@,
{
    let mut m: String = String::new();
    m.append(a);
    m.append(b);
    m.append(c);
    m.append(d);
    proof {
        assert(m@ =~= a@ + b@ + c@ + d@);
    }
    m
}

fn join6(a: &str, b: &str, c: &str, d: &str, e: &str, f: &str) -> (r: String)
    ensures
        r@ == a@ + b@ + c@ + d@ + e@ + f@,
{
    let mut m: String = String::new();
    m.append(a);
    m.append(b);
    m.append(c);
    m.append(d);
    m.append(e);
    m.append(f);
    proof {
        assert(m@ =~= a@ + b@ + c@ + d@ + e@ + f@);
    }
    m
}

// ---------------------------------------------------------------------------
// Planning: which disk action a statement needs
// ---------------------------------------------------------------------------

/// What planning yields: the action, or the statement's runtime error.
pub ghost enum PlanOut {
    Act(ActionModel),
    Fail(Seq<char>),
}

/// The error a content operation on `v` raises before any disk work, if any.
pub open spec fn plan_lookup(m: Map<Seq<char>, EntryModel>, v: Seq<char>) -> Option<Seq<char>> {
    if !m.contains_key(v) {
        Option::Some(msg_no_such_var(v))
    } else if !m[v].is_open {
        Option::Some(msg_not_open(v))
    } else {
        Option::None
    }
}

/// The disk action a statement needs in environment `m`, or its error.
pub open spec fn spec_plan(m: Map<Seq<char>, EntryModel>, st: StmtModel) -> PlanOut {
    match st {
        StmtModel::Read { var_name } => match plan_lookup(m, var_name) {
            Option::Some(e) => PlanOut::Fail(e),
            Option::None => PlanOut::Act(ActionModel::ReadFile { path: m[var_name].filename }),
        },
        StmtModel::Write { var_name, text } => match plan_lookup(m, var_name) {
            Option::Some(e) => PlanOut::Fail(e),
            Option::None => PlanOut::Act(
                ActionModel::WriteFile { path: m[var_name].filename, text },
            ),
        },
        StmtModel::Append { var_name, text } => match plan_lookup(m, var_name) {
            Option::Some(e) => PlanOut::Fail(e),
            Option::None => PlanOut::Act(
                ActionModel::AppendFile { path: m[var_name].filename, text },
            ),
        },
        StmtModel::Truncate { var_name } => match plan_lookup(m, var_name) {
            Option::Some(e) => PlanOut::Fail(e),
            Option::None => PlanOut::Act(
                ActionModel::WriteFile { path: m[var_name].filename, text: Seq::empty() },
            ),
        },
        StmtModel::Replace { var_name, pattern, replacement } => match plan_lookup(m, var_name) {
            Option::Some(e) => PlanOut::Fail(e),
            Option::None => if !regex_valid(pattern) {
                PlanOut::Fail(msg_invalid_regex(pattern))
            } else {
                PlanOut::Act(
                    ActionModel::WriteFile {
                        path: m[var_name].filename,
                        text: regex_replaced(pattern, m[var_name].content, replacement),
                    },
                )
            },
        },
        StmtModel::Rename { var_name, new_filename } => match plan_lookup(m, var_name) {
            Option::Some(e) => PlanOut::Fail(e),
            Option::None => PlanOut::Act(
                ActionModel::RenameFile { from: m[var_name].filename, to: new_filename },
            ),
        },
        StmtModel::Copy { source, destination } => PlanOut::Act(
            ActionModel::CopyFile { source, destination },
        ),
        StmtModel::Move { source, destination } => PlanOut::Act(
            ActionModel::MoveFile { source, destination },
        ),
        StmtModel::Remove { filename } => PlanOut::Act(ActionModel::RemoveFile { path: filename }),
        StmtModel::ListDir { path } => PlanOut::Act(ActionModel::ListDirectory { path }),
        _ => PlanOut::Act(ActionModel::NoDisk),
    }
}

// ---------------------------------------------------------------------------
// Applying: committing an outcome and producing the console output
// ---------------------------------------------------------------------------

/// The result of applying one statement: the next environment and stop
/// flag, the console output, and the error if the statement failed. On an
/// error the environment always equals the one the statement started from.
pub ghost struct StepRes {
    pub env: Map<Seq<char>, EntryModel>,
    pub stop: bool,
    pub output: Seq<Seq<char>>,
    pub err: Option<Seq<char>>,
}

pub open spec fn ok_step(
    env: Map<Seq<char>, EntryModel>,
    stop: bool,
    output: Seq<Seq<char>>,
) -> StepRes {
    StepRes { env, stop, output, err: Option::None }
}

pub open spec fn err_step(env: Map<Seq<char>, EntryModel>, stop: bool, m: Seq<char>) -> StepRes {
    StepRes { env, stop, output: Seq::empty(), err: Option::Some(m) }
}

/// The printed form of the matching lines of a search.
pub open spec fn search_lines(ms: Seq<(usize, Seq<char>)>) -> Seq<Seq<char>>
    decreases ms.len(),
{
    if ms.len() == 0 {
        Seq::empty()
    } else {
        search_lines(ms.drop_last()).push(
            dec_digits(ms.last().0 as nat) + ": "@ + ms.last().1,
        )
    }
}

/// The console output of a search: the matching lines numbered from one, or
/// a placeholder when nothing matched.
pub open spec fn search_output(ms: Seq<(usize, Seq<char>)>) -> Seq<Seq<char>> {
    if ms.len() == 0 {
        seq!["No matches found."@]
    } else {
        search_lines(ms)
    }
}

/// The console output of a directory listing.
pub open spec fn listing_output(names: Seq<Seq<char>>) -> Seq<Seq<char>> {
    if names.len() == 0 {
        seq!["(empty directory)"@]
    } else {
        names
    }
}

/// What one statement does with the outcome of its disk action: how the
/// environment changes, what is printed, and which error is raised. The
/// entry sequence `es` orders the bindings for the environment dump.
pub open spec fn spec_apply(
    m: Map<Seq<char>, EntryModel>,
    es: Seq<(Seq<char>, EntryModel)>,
    stop: bool,
    st: StmtModel,
    oc: OutcomeModel,
) -> StepRes {
    match st {
        StmtModel::Open { filename, var_name } => if entry_open(m, var_name) {
            err_step(m, stop, msg_already_open(var_name))
        } else {
            ok_step(
                m.insert(
                    var_name,
                    EntryModel { filename, content: Seq::empty(), is_open: true },
                ),
                stop,
                Seq::empty(),
            )
        },
        StmtModel::Read { var_name } => match plan_lookup(m, var_name) {
            Option::Some(e) => err_step(m, stop, e),
            Option::None => match oc {
                OutcomeModel::DoneText(t) => ok_step(
                    m.insert(
                        var_name,
                        EntryModel {
                            filename: m[var_name].filename,
                            content: t,
                            is_open: true,
                        },
                    ),
                    stop,
                    Seq::empty(),
                ),
                OutcomeModel::Failed(e) => err_step(
                    m,
                    stop,
                    msg_failed_read(m[var_name].filename, e),
                ),
                _ => err_step(m, stop, msg_outcome_mismatch()),
            },
        },
        StmtModel::Write { var_name, text } => match plan_lookup(m, var_name) {
            Option::Some(e) => err_step(m, stop, e),
            Option::None => match oc {
                OutcomeModel::Done => ok_step(
                    m.insert(
                        var_name,
                        EntryModel {
                            filename: m[var_name].filename,
                            content: text,
                            is_open: true,
                        },
                    ),
                    stop,
                    Seq::empty(),
                ),
                OutcomeModel::Failed(e) => err_step(
                    m,
                    stop,
                    msg_failed_write(m[var_name].filename, e),
                ),
                _ => err_step(m, stop, msg_outcome_mismatch()),
            },
        },
        StmtModel::Append { var_name, text } => match plan_lookup(m, var_name) {
            Option::Some(e) => err_step(m, stop, e),
            Option::None => match oc {
                OutcomeModel::Done => ok_step(
                    m.insert(
                        var_name,
                        EntryModel {
                            filename: m[var_name].filename,
                            content: m[var_name].content + text,
                            is_open: true,
                        },
                    ),
                    stop,
                    Seq::empty(),
                ),
                OutcomeModel::Failed(e) => err_step(
                    m,
                    stop,
                    msg_failed_append(m[var_name].filename, e),
                ),
                _ => err_step(m, stop, msg_outcome_mismatch()),
            },
        },
        StmtModel::Show { var_name } => match plan_lookup(m, var_name) {
            Option::Some(e) => err_step(m, stop, e),
            Option::None => ok_step(m, stop, seq![m[var_name].content]),
        },
        StmtModel::Close { var_name } => match plan_lookup(m, var_name) {
            Option::Some(e) => err_step(m, stop, e),
            Option::None => ok_step(
                m.insert(
                    var_name,
                    EntryModel {
                        filename: m[var_name].filename,
                        content: m[var_name].content,
                        is_open: false,
                    },
                ),
                stop,
                Seq::empty(),
            ),
        },
        StmtModel::Truncate { var_name } => match plan_lookup(m, var_name) {
            Option::Some(e) => err_step(m, stop, e),
            Option::None => match oc {
                OutcomeModel::Done => ok_step(
                    m.insert(
                        var_name,
                        EntryModel {
                            filename: m[var_name].filename,
                            content: Seq::empty(),
                            is_open: true,
                        },
                    ),
                    stop,
                    Seq::empty(),
                ),
                OutcomeModel::Failed(e) => err_step(
                    m,
                    stop,
                    msg_failed_truncate(m[var_name].filename, e),
                ),
                _ => err_step(m, stop, msg_outcome_mismatch()),
            },
        },
        StmtModel::Search { var_name, pattern } => match plan_lookup(m, var_name) {
            Option::Some(e) => err_step(m, stop, e),
            Option::None => if !regex_valid(pattern) {
                err_step(m, stop, msg_invalid_regex(pattern))
            } else {
                ok_step(m, stop, search_output(spec_search(pattern, m[var_name].content)))
            },
        },
        StmtModel::Replace { var_name, pattern, replacement } => match plan_lookup(m, var_name) {
            Option::Some(e) => err_step(m, stop, e),
            Option::None => if !regex_valid(pattern) {
                err_step(m, stop, msg_invalid_regex(pattern))
            } else {
                match oc {
                    OutcomeModel::Done => ok_step(
                        m.insert(
                            var_name,
                            EntryModel {
                                filename: m[var_name].filename,
                                content: regex_replaced(
                                    pattern,
                                    m[var_name].content,
                                    replacement,
                                ),
                                is_open: true,
                            },
                        ),
                        stop,
                        Seq::empty(),
                    ),
                    OutcomeModel::Failed(e) => err_step(
                        m,
                        stop,
                        msg_failed_replace_write(m[var_name].filename, e),
                    ),
                    _ => err_step(m, stop, msg_outcome_mismatch()),
                }
            },
        },
        StmtModel::LineCount { var_name } => match plan_lookup(m, var_name) {
            Option::Some(e) => err_step(m, stop, e),
            Option::None => ok_step(
                m,
                stop,
                seq![
                    dec_digits(crate::utils::spec_lines(m[var_name].content).len()) + " lines"@,
                ],
            ),
        },
        StmtModel::Copy { source, destination } => match oc {
            OutcomeModel::Done => ok_step(m, stop, Seq::empty()),
            OutcomeModel::Failed(e) => err_step(m, stop, msg_failed_copy(source, destination, e)),
            _ => err_step(m, stop, msg_outcome_mismatch()),
        },
        StmtModel::Move { source, destination } => match oc {
            OutcomeModel::Done => ok_step(m, stop, Seq::empty()),
            OutcomeModel::Failed(e) => err_step(m, stop, msg_failed_move(source, destination, e)),
            _ => err_step(m, stop, msg_outcome_mismatch()),
        },
        StmtModel::Remove { filename } => match oc {
            OutcomeModel::Done => ok_step(m, stop, Seq::empty()),
            OutcomeModel::Failed(e) => err_step(m, stop, msg_failed_remove(filename, e)),
            _ => err_step(m, stop, msg_outcome_mismatch()),
        },
        StmtModel::Rename { var_name, new_filename } => match plan_lookup(m, var_name) {
            Option::Some(e) => err_step(m, stop, e),
            Option::None => match oc {
                OutcomeModel::Done => ok_step(
                    m.insert(
                        var_name,
                        EntryModel {
                            filename: new_filename,
                            content: m[var_name].content,
                            is_open: true,
                        },
                    ),
                    stop,
                    Seq::empty(),
                ),
                OutcomeModel::Failed(e) => err_step(
                    m,
                    stop,
                    msg_failed_rename(m[var_name].filename, new_filename, e),
                ),
                _ => err_step(m, stop, msg_outcome_mismatch()),
            },
        },
        StmtModel::ListDir { path } => match oc {
            OutcomeModel::DoneListing(names) => ok_step(m, stop, listing_output(names)),
            OutcomeModel::Failed(e) => err_step(m, stop, msg_failed_listdir(path, e)),
            _ => err_step(m, stop, msg_outcome_mismatch()),
        },
        StmtModel::DumpEnv => ok_step(m, stop, dump_lines(es)),
        StmtModel::Help => ok_step(m, stop, seq![spec_help_text()]),
        StmtModel::Exit => ok_step(m, true, Seq::empty()),
    }
}

/// The view of a sequence of output lines.
pub open spec fn lines_view(v: Seq<String>) -> Seq<Seq<char>> {
    v.map_values(|l: String| l@)
}

pub struct Interpreter {
    env: Environment,
    stop: bool,
}

impl Interpreter {
    /// The environment's map view.
    pub closed spec fn env_view(&self) -> Map<Seq<char>, EntryModel> {
        self.env@
    }

    /// The environment's bindings in insertion order.
    pub closed spec fn env_entries(&self) -> Seq<(Seq<char>, EntryModel)> {
        self.env.entries()
    }

    /// Whether an exit statement has been executed.
    pub closed spec fn stop_flag(&self) -> bool {
        self.stop
    }

    /// Create a new interpreter.
    pub fn new() -> (r: Self)
        ensures
            r.env_view() == Map::<Seq<char>, EntryModel>::empty(),
            r.env_entries() == Seq::<(Seq<char>, EntryModel)>::empty(),
            !r.stop_flag(),
    {
        Self { env: Environment::new(), stop: false }
    }

    /// Whether the run loop should halt before the next statement.
    pub fn stopped(&self) -> (r: bool)
        ensures
            r == self.stop_flag(),
    {
        self.stop
    }

    /// Name the disk action a statement needs, or fail with the statement's
    /// runtime error.
    pub fn plan_statement(&self, stmt: &Statement) -> (r: Result<DiskAction, RuntimeError>)
        ensures
            ({
                match spec_plan(self.env_view(), stmt@) {
                    PlanOut::Act(a) => r is Ok && (r->Ok_0)@ == a,
                    PlanOut::Fail(m) => r is Err && (r->Err_0)@ == m,
                }
            }),
    {
        match stmt {
            Statement::Read(s) => {
                let path: String = self.env.get_filename(s.var_name.as_str())?;
                Ok(DiskAction::ReadFile { path })
            },
            Statement::Write(s) => {
                let path: String = self.env.get_filename(s.var_name.as_str())?;
                Ok(DiskAction::WriteFile { path, text: s.text.clone() })
            },
            Statement::Append(s) => {
                let path: String = self.env.get_filename(s.var_name.as_str())?;
                Ok(DiskAction::AppendFile { path, text: s.text.clone() })
            },
            Statement::Truncate(s) => {
                let path: String = self.env.get_filename(s.var_name.as_str())?;
                Ok(DiskAction::WriteFile { path, text: String::new() })
            },
            Statement::Replace(s) => {
                let path: String = self.env.get_filename(s.var_name.as_str())?;
                let content: String = self.env.get_file_content(s.var_name.as_str())?;
                match crate::utils::replace_in_text(
                    content.as_str(),
                    s.pattern.as_str(),
                    s.replacement.as_str(),
                ) {
                    Ok(text) => Ok(DiskAction::WriteFile { path, text }),
                    Err(e) => {
                        let m: String = join4("Invalid regex '", s.pattern.as_str(), "': ", e.as_str());
                        proof {
                            assert(m@ =~= msg_invalid_regex(s.pattern@));
                        }
                        Err(RuntimeError::new(m))
                    },
                }
            },
            Statement::Rename(s) => {
                let from: String = self.env.get_filename(s.var_name.as_str())?;
                Ok(DiskAction::RenameFile { from, to: s.new_filename.clone() })
            },
            Statement::Copy(s) => Ok(
                DiskAction::CopyFile {
                    source: s.source.clone(),
                    destination: s.destination.clone(),
                },
            ),
            Statement::Move(s) => Ok(
                DiskAction::MoveFile {
                    source: s.source.clone(),
                    destination: s.destination.clone(),
                },
            ),
            Statement::Remove(s) => Ok(DiskAction::RemoveFile { path: s.filename.clone() }),
            Statement::ListDir(s) => Ok(DiskAction::ListDirectory { path: s.path.clone() }),
            _ => Ok(DiskAction::NoDisk),
        }
    }

    /// Commit the outcome of a statement's disk action: update the
    /// environment and return the statement's console output, or fail with
    /// the statement's runtime error and leave the environment unchanged.
    pub fn apply_statement(&mut self, stmt: &Statement, outcome: DiskOutcome) -> (r: Result<
        Vec<String>,
        RuntimeError,
    >)
        ensures
            ({
                let sr = spec_apply(
                    old(self).env_view(),
                    old(self).env_entries(),
                    old(self).stop_flag(),
                    stmt@,
                    outcome@,
                );
                &&& final(self).env_view() == sr.env
                &&& final(self).stop_flag() == sr.stop
                &&& (match sr.err {
                    Option::None => r is Ok && lines_view((r->Ok_0)@) == sr.output,
                    Option::Some(m) => r is Err && (r->Err_0)@ == m,
                })
            }),
    {
        let ghost m0 = self.env@;
        match stmt {
            Statement::Open(s) => {
                self.env.open_file(s.var_name.clone(), s.filename.clone())?;
                let out: Vec<String> = Vec::new();
                proof {
                    assert(lines_view(out@) =~= Seq::<Seq<char>>::empty());
                }
                Ok(out)
            },
            Statement::Read(s) => match outcome {
                DiskOutcome::DoneText { text } => {
                    self.env.read_file_content(s.var_name.as_str(), text)?;
                    let out: Vec<String> = Vec::new();
                    proof {
                        assert(lines_view(out@) =~= Seq::<Seq<char>>::empty());
                    }
                    Ok(out)
                },
                DiskOutcome::Failed { message } => {
                    let f: String = self.env.get_filename(s.var_name.as_str())?;
                    let m: String = join4(
                        "Failed to read file '",
                        f.as_str(),
                        "': ",
                        message.as_str(),
                    );
                    Err(RuntimeError::new(m))
                },
                _ => {
                    let _checked: String = self.env.get_filename(s.var_name.as_str())?;
                    Err(RuntimeError::new("Mismatched disk outcome.".to_owned()))
                },
            },
            Statement::Write(s) => match outcome {
                DiskOutcome::Done => {
                    self.env.write_file_content(s.var_name.as_str(), s.text.as_str())?;
                    let out: Vec<String> = Vec::new();
                    proof {
                        assert(lines_view(out@) =~= Seq::<Seq<char>>::empty());
                    }
                    Ok(out)
                },
                DiskOutcome::Failed { message } => {
                    let f: String = self.env.get_filename(s.var_name.as_str())?;
                    let m: String = join4(
                        "Failed to write to file '",
                        f.as_str(),
                        "': ",
                        message.as_str(),
                    );
                    Err(RuntimeError::new(m))
                },
                _ => {
                    let _checked: String = self.env.get_filename(s.var_name.as_str())?;
                    Err(RuntimeError::new("Mismatched disk outcome.".to_owned()))
                },
            },
            Statement::Append(s) => match outcome {
                DiskOutcome::Done => {
                    self.env.append_file_content(s.var_name.as_str(), s.text.as_str())?;
                    let out: Vec<String> = Vec::new();
                    proof {
                        assert(lines_view(out@) =~= Seq::<Seq<char>>::empty());
                    }
                    Ok(out)
                },
                DiskOutcome::Failed { message } => {
                    let f: String = self.env.get_filename(s.var_name.as_str())?;
                    let m: String = join4(
                        "Failed to append to file '",
                        f.as_str(),
                        "': ",
                        message.as_str(),
                    );
                    Err(RuntimeError::new(m))
                },
                _ => {
                    let _checked: String = self.env.get_filename(s.var_name.as_str())?;
                    Err(RuntimeError::new("Mismatched disk outcome.".to_owned()))
                },
            },
            Statement::Show(s) => {
                let content: String = self.env.get_file_content(s.var_name.as_str())?;
                let mut out: Vec<String> = Vec::new();
                out.push(content);
                proof {
                    assert(lines_view(out@) =~= seq![m0[s.var_name@].content]);
                }
                Ok(out)
            },
            Statement::Close(s) => {
                self.env.close_file(s.var_name.as_str())?;
                let out: Vec<String> = Vec::new();
                proof {
                    assert(lines_view(out@) =~= Seq::<Seq<char>>::empty());
                }
                Ok(out)
            },
            Statement::Truncate(s) => match outcome {
                DiskOutcome::Done => {
                    self.env.truncate_file(s.var_name.as_str())?;
                    let out: Vec<String> = Vec::new();
                    proof {
                        assert(lines_view(out@) =~= Seq::<Seq<char>>::empty());
                    }
                    Ok(out)
                },
                DiskOutcome::Failed { message } => {
                    let f: String = self.env.get_filename(s.var_name.as_str())?;
                    let m: String = join4(
                        "Failed to truncate file '",
                        f.as_str(),
                        "': ",
                        message.as_str(),
                    );
                    Err(RuntimeError::new(m))
                },
                _ => {
                    let _checked: String = self.env.get_filename(s.var_name.as_str())?;
                    Err(RuntimeError::new("Mismatched disk outcome.".to_owned()))
                },
            },
            Statement::Search(s) => {
                let ms: Vec<(usize, String)> = self.env.search_file(
                    s.var_name.as_str(),
                    s.pattern.as_str(),
                )?;
                let ghost msv = pairs_view(ms@);
                if ms.len() == 0 {
                    let mut out: Vec<String> = Vec::new();
                    out.push("No matches found.".to_owned());
                    proof {
                        assert(lines_view(out@) =~= seq!["No matches found."@]);
                    }
                    Ok(out)
                } else {
                    let mut out: Vec<String> = Vec::new();
                    let mut i: usize = 0;
                    proof {
                        assert(msv.take(0) =~= Seq::<(usize, Seq<char>)>::empty());
                        assert(lines_view(out@) =~= search_lines(msv.take(0)));
                    }
                    while i < ms.len()
                        invariant
                            i <= ms@.len(),
                            msv == pairs_view(ms@),
                            msv.len() == ms@.len(),
                            lines_view(out@) =~= search_lines(msv.take(i as int)),
                        decreases ms@.len() - i,
                    {
                        let mut line: String = usize_to_string(ms[i].0);
                        line.append(": ");
                        line.append(ms[i].1.as_str());
                        let ghost pre = out@;
                        out.push(line);
                        proof {
                            assert(msv.take(i + 1) =~= msv.take(i as int).push(msv[i as int]));
                            assert(msv.take(i + 1).drop_last() =~= msv.take(i as int));
                            assert(lines_view(out@) =~= lines_view(pre).push(line@));
                        }
                        i += 1;
                    }
                    proof {
                        assert(msv.take(msv.len() as int) =~= msv);
                        assert(lines_view(out@) =~= search_output(msv));
                    }
                    Ok(out)
                }
            },
            Statement::Replace(s) => match outcome {
                DiskOutcome::Done => {
                    self.env.replace_file(
                        s.var_name.as_str(),
                        s.pattern.as_str(),
                        s.replacement.as_str(),
                    )?;
                    let out: Vec<String> = Vec::new();
                    proof {
                        assert(lines_view(out@) =~= Seq::<Seq<char>>::empty());
                    }
                    Ok(out)
                },
                DiskOutcome::Failed { message } => {
                    let f: String = self.env.get_filename(s.var_name.as_str())?;
                    match regex_compile_check(s.pattern.as_str()) {
                        Err(e) => {
                            let m: String = join4(
                                "Invalid regex '",
                                s.pattern.as_str(),
                                "': ",
                                e.as_str(),
                            );
                            proof {
                                assert(m@ =~= msg_invalid_regex(s.pattern@));
                            }
                            Err(RuntimeError::new(m))
                        },
                        Ok(_) => {
                            let m: String = join4(
                                "Failed to write replaced content to file '",
                                f.as_str(),
                                "': ",
                                message.as_str(),
                            );
                            Err(RuntimeError::new(m))
                        },
                    }
                },
                _ => {
                    let _checked: String = self.env.get_filename(s.var_name.as_str())?;
                    match regex_compile_check(s.pattern.as_str()) {
                        Err(e) => {
                            let m: String = join4(
                                "Invalid regex '",
                                s.pattern.as_str(),
                                "': ",
                                e.as_str(),
                            );
                            proof {
                                assert(m@ =~= msg_invalid_regex(s.pattern@));
                            }
                            Err(RuntimeError::new(m))
                        },
                        Ok(_) => Err(RuntimeError::new("Mismatched disk outcome.".to_owned())),
                    }
                },
            },
            Statement::LineCount(s) => {
                let n: usize = self.env.line_count(s.var_name.as_str())?;
                let mut line: String = usize_to_string(n);
                line.append(" lines");
                let mut out: Vec<String> = Vec::new();
                out.push(line);
                proof {
                    assert(lines_view(out@) =~= seq![
                        dec_digits(crate::utils::spec_lines(m0[s.var_name@].content).len())
                            + " lines"@,
                    ]);
                }
                Ok(out)
            },
            Statement::Copy(s) => match outcome {
                DiskOutcome::Done => {
                    let out: Vec<String> = Vec::new();
                    proof {
                        assert(lines_view(out@) =~= Seq::<Seq<char>>::empty());
                    }
                    Ok(out)
                },
                DiskOutcome::Failed { message } => {
                    let m: String = join6(
                        "Failed to copy file '",
                        s.source.as_str(),
                        "' to '",
                        s.destination.as_str(),
                        "': ",
                        message.as_str(),
                    );
                    Err(RuntimeError::new(m))
                },
                _ => Err(RuntimeError::new("Mismatched disk outcome.".to_owned())),
            },
            Statement::Move(s) => match outcome {
                DiskOutcome::Done => {
                    let out: Vec<String> = Vec::new();
                    proof {
                        assert(lines_view(out@) =~= Seq::<Seq<char>>::empty());
                    }
                    Ok(out)
                },
                DiskOutcome::Failed { message } => {
                    let m: String = join6(
                        "Failed to move file '",
                        s.source.as_str(),
                        "' to '",
                        s.destination.as_str(),
                        "': ",
                        message.as_str(),
                    );
                    Err(RuntimeError::new(m))
                },
                _ => Err(RuntimeError::new("Mismatched disk outcome.".to_owned())),
            },
            Statement::Remove(s) => match outcome {
                DiskOutcome::Done => {
                    let out: Vec<String> = Vec::new();
                    proof {
                        assert(lines_view(out@) =~= Seq::<Seq<char>>::empty());
                    }
                    Ok(out)
                },
                DiskOutcome::Failed { message } => {
                    let m: String = join4(
                        "Failed to remove file '",
                        s.filename.as_str(),
                        "': ",
                        message.as_str(),
                    );
                    Err(RuntimeError::new(m))
                },
                _ => Err(RuntimeError::new("Mismatched disk outcome.".to_owned())),
            },
            Statement::Rename(s) => match outcome {
                DiskOutcome::Done => {
                    self.env.rename_file(s.var_name.as_str(), s.new_filename.as_str())?;
                    let out: Vec<String> = Vec::new();
                    proof {
                        assert(lines_view(out@) =~= Seq::<Seq<char>>::empty());
                    }
                    Ok(out)
                },
                DiskOutcome::Failed { message } => {
                    let f: String = self.env.get_filename(s.var_name.as_str())?;
                    let m: String = join6(
                        "Failed to rename file '",
                        f.as_str(),
                        "' to '",
                        s.new_filename.as_str(),
                        "': ",
                        message.as_str(),
                    );
                    Err(RuntimeError::new(m))
                },
                _ => {
                    let _checked: String = self.env.get_filename(s.var_name.as_str())?;
                    Err(RuntimeError::new("Mismatched disk outcome.".to_owned()))
                },
            },
            Statement::ListDir(s) => match outcome {
                DiskOutcome::DoneListing { names } => {
                    if names.len() == 0 {
                        let mut out: Vec<String> = Vec::new();
                        out.push("(empty directory)".to_owned());
                        proof {
                            assert(lines_view(out@) =~= seq!["(empty directory)"@]);
                        }
                        Ok(out)
                    } else {
                        Ok(names)
                    }
                },
                DiskOutcome::Failed { message } => {
                    let m: String = join4(
                        "Failed to list directory '",
                        s.path.as_str(),
                        "': ",
                        message.as_str(),
                    );
                    Err(RuntimeError::new(m))
                },
                _ => Err(RuntimeError::new("Mismatched disk outcome.".to_owned())),
            },
            Statement::DumpEnv(_) => {
                let out: Vec<String> = self.env.dump();
                Ok(out)
            },
            Statement::Help(_) => {
                let mut out: Vec<String> = Vec::new();
                out.push(help_text());
                proof {
                    assert(lines_view(out@) =~= seq![spec_help_text()]);
                }
                Ok(out)
            },
            Statement::Exit(_) => {
                self.stop = true;
                let out: Vec<String> = Vec::new();
                proof {
                    assert(lines_view(out@) =~= Seq::<Seq<char>>::empty());
                }
                Ok(out)
            },
        }
    }
}

} // verus!
