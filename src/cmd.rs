use vstd::prelude::*;
use vstd::string::*;

use crate::codec::{decoded, get_ws_data, objects_of, pretty_json_of, save_ws_data};
use crate::store::{
    create_workspace, delete_workspace, deleted, goto_workspace, has_name, has_workspace, path_of,
    Record, Workspace,
};

verus! {

/// The program's version, as given in the package manifest.
pub fn version() -> (r: &'static str)
    ensures
        r@ == "0.1.0"@,
{
    "0.1.0"
}

/// Message carried by `DataReadError` when the data file cannot be read,
/// parsed or written.
pub const DATA_FILE_UNREADABLE: &'static str = "data file couldn't be read or found";

/// Message carried by `DataReadError` when the working directory cannot be
/// captured as text.
pub const CWD_UNREADABLE: &'static str = "error capturing working directory";

/// List of possible errors.
#[derive(Debug)]
pub enum ErrorKind {
    CommandNotFound,
    WorkspaceNotFound(String),
    WorkspaceRequired,
    WorkspaceAlreadyExist(String),
    TooManyArgs,
    DataReadError(&'static str),
}

/// What an `ErrorKind` means, with its text as character sequences.
pub enum ErrorKindView {
    CommandNotFound,
    WorkspaceNotFound(Seq<char>),
    WorkspaceRequired,
    WorkspaceAlreadyExist(Seq<char>),
    TooManyArgs,
    DataReadError(Seq<char>),
}

impl View for ErrorKind {
    type V = ErrorKindView;

    open spec fn view(&self) -> ErrorKindView {
        match self {
            ErrorKind::CommandNotFound => ErrorKindView::CommandNotFound,
            ErrorKind::WorkspaceNotFound(w) => ErrorKindView::WorkspaceNotFound(w@),
            ErrorKind::WorkspaceRequired => ErrorKindView::WorkspaceRequired,
            ErrorKind::WorkspaceAlreadyExist(w) => ErrorKindView::WorkspaceAlreadyExist(w@),
            ErrorKind::TooManyArgs => ErrorKindView::TooManyArgs,
            ErrorKind::DataReadError(m) => ErrorKindView::DataReadError(m@),
        }
    }
}

#[verifier::external_type_specification]
#[verifier::external_body]
pub struct ExIoError(std::io::Error);

/// A failure to read or write the data file.
impl From<std::io::Error> for ErrorKind {
    fn from(_e: std::io::Error) -> (r: Self) {
        ErrorKind::DataReadError(DATA_FILE_UNREADABLE)
    }
}

impl vstd::std_specs::convert::FromSpecImpl<std::io::Error> for ErrorKind {
    open spec fn obeys_from_spec() -> bool {
        true
    }

    open spec fn from_spec(_e: std::io::Error) -> ErrorKind {
        ErrorKind::DataReadError(DATA_FILE_UNREADABLE)
    }
}

/// Possible commands accepted as input.
#[derive(Debug)]
pub enum Command {
    Create(String),
    Delete(String),
    Goto(String),
    List,
    Help,
    Version,
}

/// What a `Command` means, with its workspace name as a character sequence.
pub enum CommandView {
    Create(Seq<char>),
    Delete(Seq<char>),
    Goto(Seq<char>),
    List,
    Help,
    Version,
}

impl View for Command {
    type V = CommandView;

    open spec fn view(&self) -> CommandView {
        match self {
            Command::Create(w) => CommandView::Create(w@),
            Command::Delete(w) => CommandView::Delete(w@),
            Command::Goto(w) => CommandView::Goto(w@),
            Command::List => CommandView::List,
            Command::Help => CommandView::Help,
            Command::Version => CommandView::Version,
        }
    }
}

/// The meaning of a resolved command or of the error in its place.
pub open spec fn command_result_view(r: Result<Command, ErrorKind>) -> Result<CommandView, ErrorKindView> {
    match r {
        Ok(c) => Ok(c@),
        Err(e) => Err(e@),
    }
}

/// The words that ask for the list of workspaces; keywords are case-sensitive.
pub open spec fn is_list_word(w: Seq<char>) -> bool {
    w == "list"@ || w == "ls"@ || w == "l"@
}

/// The words that ask for help.
pub open spec fn is_help_word(w: Seq<char>) -> bool {
    w == "help"@ || w == "h"@
}

/// The words that ask for the version.
pub open spec fn is_version_word(w: Seq<char>) -> bool {
    w == "version"@ || w == "v"@
}

/// The words that create a workspace.
pub open spec fn is_create_word(w: Seq<char>) -> bool {
    w == "create"@ || w == "c"@ || w == "new"@ || w == "n"@ || w == "insert"@ || w == "i"@
}

/// The words that delete a workspace.
pub open spec fn is_delete_word(w: Seq<char>) -> bool {
    w == "delete"@ || w == "d"@ || w == "remove"@ || w == "rm"@
}

/// The command that the words after the program name ask for. A first word
/// that is no keyword names a workspace to go to.
pub open spec fn resolve(words: Seq<Seq<char>>) -> Result<CommandView, ErrorKindView> {
    if words.len() == 0 {
        Ok(CommandView::Help)
    } else if words.len() > 2 {
        Err(ErrorKindView::TooManyArgs)
    } else {
        let w = words[0];
        if is_list_word(w) {
            Ok(CommandView::List)
        } else if is_help_word(w) {
            Ok(CommandView::Help)
        } else if is_version_word(w) {
            Ok(CommandView::Version)
        } else if is_create_word(w) || is_delete_word(w) {
            if words.len() == 2 {
                if is_create_word(w) {
                    Ok(CommandView::Create(words[1]))
                } else {
                    Ok(CommandView::Delete(words[1]))
                }
            } else {
                Err(ErrorKindView::WorkspaceRequired)
            }
        } else if words.len() == 2 {
            Err(ErrorKindView::TooManyArgs)
        } else {
            Ok(CommandView::Goto(w))
        }
    }
}

/// The command for a whole argument list, whose first item is the program.
pub open spec fn command_for(args: Seq<Seq<char>>) -> Result<CommandView, ErrorKindView> {
    if args.len() == 0 {
        Err(ErrorKindView::CommandNotFound)
    } else {
        resolve(args.drop_first())
    }
}

/// What a command hands back to be shown.
#[derive(Debug)]
pub enum Report {
    /// The store was changed.
    Done,
    /// The path of the workspace asked for.
    Path(String),
    /// All workspaces, in stored order.
    Workspaces(Vec<Workspace>),
    Help,
    Version,
}

/// What a `Report` means, with its text as character sequences.
pub enum ReportView {
    Done,
    Path(Seq<char>),
    Workspaces(Seq<Record>),
    Help,
    Version,
}

impl View for Report {
    type V = ReportView;

    open spec fn view(&self) -> ReportView {
        match self {
            Report::Done => ReportView::Done,
            Report::Path(p) => ReportView::Path(p@),
            Report::Workspaces(v) => ReportView::Workspaces(v.deep_view()),
            Report::Help => ReportView::Help,
            Report::Version => ReportView::Version,
        }
    }
}

/// What a command produced: what to show, and the data file's new text when
/// the store changed.
#[derive(Debug)]
pub struct Outcome {
    pub report: Report,
    pub saved: Option<String>,
}

impl View for Outcome {
    type V = (ReportView, Option<Seq<char>>);

    open spec fn view(&self) -> (ReportView, Option<Seq<char>>) {
        (self.report@, self.saved.deep_view())
    }
}

pub open spec fn outcome_result_view(r: Result<Outcome, ErrorKind>) -> Result<
    (ReportView, Option<Seq<char>>),
    ErrorKindView,
> {
    match r {
        Ok(o) => Ok(o@),
        Err(e) => Err(e@),
    }
}

/// The working directory's text, or the error met in capturing it.
pub open spec fn cwd_view(cwd: Result<String, ErrorKind>) -> Result<Seq<char>, ErrorKindView> {
    match cwd {
        Ok(p) => Ok(p@),
        Err(e) => Err(e@),
    }
}

/// A change of the store to `s` ends in its new text being handed back.
pub open spec fn stored(s: Seq<Record>, r: Result<(ReportView, Option<Seq<char>>), ErrorKindView>) -> bool {
    r == Ok::<_, ErrorKindView>((ReportView::Done, Some(pretty_json_of(objects_of(s)))))
}

/// What running command `c` gives, on a data file holding `data` and with
/// working directory `cwd` (or the error met in capturing it).
pub open spec fn run_result(
    c: CommandView,
    data: Seq<char>,
    cwd: Result<Seq<char>, ErrorKindView>,
    r: Result<(ReportView, Option<Seq<char>>), ErrorKindView>,
) -> bool {
    match c {
        CommandView::Help => r == Ok::<_, ErrorKindView>((ReportView::Help, None::<Seq<char>>)),
        CommandView::Version => r == Ok::<_, ErrorKindView>(
            (ReportView::Version, None::<Seq<char>>),
        ),
        _ => match decoded(data) {
            None => r == Err::<(ReportView, Option<Seq<char>>), _>(
                ErrorKindView::DataReadError(DATA_FILE_UNREADABLE@),
            ),
            Some(s) => match c {
                CommandView::List => r == Ok::<_, ErrorKindView>(
                    (ReportView::Workspaces(s), None::<Seq<char>>),
                ),
                CommandView::Goto(n) => match path_of(s, n) {
                    Ok(p) => r == Ok::<_, ErrorKindView>((ReportView::Path(p), None::<Seq<char>>)),
                    Err(e) => r == Err::<(ReportView, Option<Seq<char>>), _>(e),
                },
                CommandView::Create(n) => if has_name(s, n) {
                    r == Err::<(ReportView, Option<Seq<char>>), _>(
                        ErrorKindView::WorkspaceAlreadyExist(n),
                    )
                } else {
                    match cwd {
                        Err(e) => r == Err::<(ReportView, Option<Seq<char>>), _>(e),
                        Ok(p) => stored(s.push((n, p)), r),
                    }
                },
                CommandView::Delete(n) => match deleted(s, n) {
                    Ok(s2) => stored(s2, r),
                    Err(e) => r == Err::<(ReportView, Option<Seq<char>>), _>(e),
                },
                _ => false,
            },
        },
    }
}

/// Whether `s` reads exactly `w`.
fn is_word(s: &String, w: &str) -> (r: bool)
    ensures
        r == (s@ == w@),
{
    let word = String::from_str(w);
    *s == word
}

/// Whether `s` reads exactly one of the words `ws`.
fn is_any_word(s: &String, ws: &[&str]) -> (r: bool)
    ensures
        r == exists|i: int| 0 <= i < ws@.len() && s@ == ws@[i]@,
{
    let mut k: usize = 0;
    while k < ws.len()
        invariant
            k <= ws@.len(),
            forall|i: int| 0 <= i < k ==> s@ != ws@[i]@,
        decreases ws@.len() - k,
    {
        if is_word(s, ws[k]) {
            return true;
        }
        k = k + 1;
    }
    false
}

impl Command {
    /// Create a Command variant based on the argument list, whose first item
    /// is the program itself. Return an error when the command doesn't exist
    /// or is not passed valid arguments.
    pub fn new(args: Vec<String>) -> (r: Result<Command, ErrorKind>)
        ensures
            command_result_view(r) == command_for(args.deep_view()),
            args@.len() == 1 ==> r matches Ok(Command::Help),
            args@.len() > 3 ==> r matches Err(ErrorKind::TooManyArgs),
    {
        if args.len() == 0 {
            return Err(ErrorKind::CommandNotFound);
        }
        let words = args.len() - 1;
        if words == 0 {
            Ok(Command::Help)
        } else if words <= 2 {
            Self::find_cmd(&args)
        } else {
            Err(ErrorKind::TooManyArgs)
        }
    }

    /// Whether running the command reads the data file.
    pub fn uses_store(&self) -> (r: bool)
        ensures
            r == !(self@ is Help || self@ is Version),
    {
        match self {
            Command::Help | Command::Version => false,
            _ => true,
        }
    }

    /// Run the command against the data file's text `data`, in working
    /// directory `cwd` (or the error met in capturing it, reported by a
    /// `Create` that needs it). The store is changed only by `Create` and
    /// `Delete`, which hand back its new text.
    pub fn run(self, data: &str, cwd: Result<String, ErrorKind>) -> (r: Result<Outcome, ErrorKind>)
        ensures
            run_result(self@, data@, cwd_view(cwd), outcome_result_view(r)),
    {
        match self {
            Command::Help => Ok(Outcome { report: Report::Help, saved: None }),
            Command::Version => Ok(Outcome { report: Report::Version, saved: None }),
            Command::List => {
                let workspaces = get_ws_data(data)?;
                Ok(Outcome { report: Report::Workspaces(workspaces), saved: None })
            },
            Command::Goto(ws) => {
                let workspaces = get_ws_data(data)?;
                let path = goto_workspace(&workspaces, ws)?;
                Ok(Outcome { report: Report::Path(path), saved: None })
            },
            Command::Create(ws) => {
                let mut workspaces = get_ws_data(data)?;
                if has_workspace(&workspaces, &ws) {
                    return Err(ErrorKind::WorkspaceAlreadyExist(ws));
                }
                let path = cwd?;
                create_workspace(&mut workspaces, ws, path)?;
                let text = save_ws_data(&workspaces)?;
                Ok(Outcome { report: Report::Done, saved: Some(text) })
            },
            Command::Delete(ws) => {
                let mut workspaces = get_ws_data(data)?;
                delete_workspace(&mut workspaces, ws)?;
                let text = save_ws_data(&workspaces)?;
                Ok(Outcome { report: Report::Done, saved: Some(text) })
            },
        }
    }

    /// Delegate that returns a command variant, or an error when no command
    /// word follows the program or the command is not passed valid
    /// arguments; at most two words after the program are read.
    fn find_cmd(args: &Vec<String>) -> (r: Result<Command, ErrorKind>)
        requires
            1 <= args@.len() <= 3,
        ensures
            args@.len() == 1 ==> r matches Err(ErrorKind::CommandNotFound),
            args@.len() > 1 ==> command_result_view(r) == command_for(args.deep_view()),
    {
        if args.len() < 2 {
            return Err(ErrorKind::CommandNotFound);
        }
        let cmd = &args[1];
        let has_operand = args.len() == 3;
        if is_any_word(cmd, &["list", "ls", "l"]) {
            Ok(Command::List)
        } else if is_any_word(cmd, &["help", "h"]) {
            Ok(Command::Help)
        } else if is_any_word(cmd, &["version", "v"]) {
            Ok(Command::Version)
        } else if is_any_word(cmd, &["create", "c", "new", "n", "insert", "i"]) {
            if has_operand {
                Ok(Command::Create(args[2].clone()))
            } else {
                Err(ErrorKind::WorkspaceRequired)
            }
        } else if is_any_word(cmd, &["delete", "d", "remove", "rm"]) {
            if has_operand {
                Ok(Command::Delete(args[2].clone()))
            } else {
                Err(ErrorKind::WorkspaceRequired)
            }
        } else if has_operand {
            Err(ErrorKind::TooManyArgs)
        } else {
            Ok(Command::Goto(cmd.clone()))
        }
    }
}

} // verus!
