//! The preview command as a machine that never acts itself: each state
//! names what the host has to find out next, and each event is the host's
//! answer.

use crate::error::{ErrorView, PreviewError};
use crate::output::{
    announces, is_preview_output, output_for_path, preview_output, CommandOutput, OutputView,
};
use crate::path::{
    after_last_slash, is_portable_path, is_qmd_file, lemma_after_last_slash,
    lemma_qmd_path_ends_in_file_name, names_qmd_file,
};
use crate::text::{decode_lossy, lossy_text, same_text};
use vstd::prelude::*;
use vstd::utf8::{decode_utf8, valid_utf8};

verus! {

/// Where a preview stands. All but `Done` ask the host a question.
#[derive(Debug, PartialEq, Eq)]
pub enum PreviewState {
    /// Is the Quarto command-line tool installed?
    CheckCli { args: Vec<String>, has_worktree: bool },
    /// What is the root path of the worktree?
    ResolveRoot { args: Vec<String> },
    /// Does a file exist at `path`?
    CheckFile { path: String },
    /// Run `quarto preview` on `path`: how did it end?
    RunPreview { path: String },
    /// The command has its answer.
    Done { result: Result<CommandOutput, PreviewError> },
}

/// What the host reports back.
#[derive(Clone, Debug, PartialEq, Eq)]
pub enum PreviewEvent {
    /// Whether the Quarto command-line tool is installed.
    CliChecked { available: bool },
    /// The root path of the worktree.
    RootResolved { root: String },
    /// Whether the file exists.
    FileChecked { exists: bool },
    /// The Quarto process could not be started.
    SpawnFailed { reason: String },
    /// The Quarto process ended, with what it wrote to standard error.
    Exited { success: bool, stderr: Vec<u8> },
}

/// A `PreviewState` as a mathematical value.
pub enum StateView {
    CheckCli { args: Seq<Seq<char>>, has_worktree: bool },
    ResolveRoot { args: Seq<Seq<char>> },
    CheckFile { path: Seq<char> },
    RunPreview { path: Seq<char> },
    Done { result: Result<OutputView, ErrorView> },
}

/// A `PreviewEvent` as a mathematical value.
pub enum EventView {
    CliChecked { available: bool },
    RootResolved { root: Seq<char> },
    FileChecked { exists: bool },
    SpawnFailed { reason: Seq<char> },
    Exited { success: bool, stderr: Seq<u8> },
}

/// The arguments of a command as character sequences.
pub open spec fn texts(args: Seq<String>) -> Seq<Seq<char>> {
    Seq::new(args.len(), |i: int| args[i]@)
}

/// The result of a command as a mathematical value.
pub open spec fn result_view(result: Result<CommandOutput, PreviewError>) -> Result<
    OutputView,
    ErrorView,
> {
    match result {
        Ok(out) => Ok(out@),
        Err(e) => Err(e@),
    }
}

/// The outcome of a search for the file as a mathematical value.
pub open spec fn file_view(file: Result<String, PreviewError>) -> Result<Seq<char>, ErrorView> {
    match file {
        Ok(path) => Ok(path@),
        Err(e) => Err(e@),
    }
}

/// The root path of the worktree, if there is one, as a mathematical value.
pub open spec fn root_view(root: Option<String>) -> Option<Seq<char>> {
    match root {
        Some(path) => Some(path@),
        None => None,
    }
}

impl View for PreviewState {
    type V = StateView;

    open spec fn view(&self) -> StateView {
        match self {
            PreviewState::CheckCli { args, has_worktree } => StateView::CheckCli {
                args: texts(args@),
                has_worktree: *has_worktree,
            },
            PreviewState::ResolveRoot { args } => StateView::ResolveRoot { args: texts(args@) },
            PreviewState::CheckFile { path } => StateView::CheckFile { path: path@ },
            PreviewState::RunPreview { path } => StateView::RunPreview { path: path@ },
            PreviewState::Done { result } => StateView::Done { result: result_view(*result) },
        }
    }
}

impl View for PreviewEvent {
    type V = EventView;

    open spec fn view(&self) -> EventView {
        match self {
            PreviewEvent::CliChecked { available } => EventView::CliChecked {
                available: *available,
            },
            PreviewEvent::RootResolved { root } => EventView::RootResolved { root: root@ },
            PreviewEvent::FileChecked { exists } => EventView::FileChecked { exists: *exists },
            PreviewEvent::SpawnFailed { reason } => EventView::SpawnFailed { reason: reason@ },
            PreviewEvent::Exited { success, stderr } => EventView::Exited {
                success: *success,
                stderr: stderr@,
            },
        }
    }
}

/// The name of the one slash command.
pub open spec fn preview_command() -> Seq<char> {
    "quarto-preview"@
}

/// The file to preview: the first argument, else the worktree's root path,
/// else none.
pub open spec fn current_file(args: Seq<Seq<char>>, root: Option<Seq<char>>) -> Result<
    Seq<char>,
    ErrorView,
> {
    if args.len() > 0 {
        Ok(args[0])
    } else {
        match root {
            Some(path) => Ok(path),
            None => Err(ErrorView::NoFile),
        }
    }
}

/// The state of a command that failed with `error`.
pub open spec fn failed(error: ErrorView) -> StateView {
    StateView::Done { result: Err(error) }
}

/// The state once the search for the file has ended in `file`: only a
/// `.qmd` file goes on to the next check.
pub open spec fn after_file(file: Result<Seq<char>, ErrorView>) -> StateView {
    match file {
        Err(error) => failed(error),
        Ok(path) => if names_qmd_file(path) {
            StateView::CheckFile { path }
        } else {
            failed(ErrorView::NotQmd)
        },
    }
}

/// The state in which the command called `name` starts.
pub open spec fn start_state(name: Seq<char>, args: Seq<Seq<char>>, has_worktree: bool)
    -> StateView {
    if name == preview_command() {
        StateView::CheckCli { args, has_worktree }
    } else {
        failed(ErrorView::UnknownCommand { name })
    }
}

/// True when `event` is the answer to the question that `state` asks.
pub open spec fn answers(state: StateView, event: EventView) -> bool {
    match state {
        StateView::CheckCli { .. } => event is CliChecked,
        StateView::ResolveRoot { .. } => event is RootResolved,
        StateView::CheckFile { .. } => event is FileChecked,
        StateView::RunPreview { .. } => event is SpawnFailed || event is Exited,
        StateView::Done { .. } => false,
    }
}

/// True when the machine may go from `state` to `next` on `event`. A run
/// that succeeded ends in an output that announces the file under the name
/// its path is shown under: the last segment of a portable path, and on
/// other paths what the platform's path rules pick. Every other step has a
/// single outcome. A run that failed is reported with what it
/// wrote to standard error: as it stands where that is UTF-8, and with
/// replacements where it is not.
pub open spec fn steps_to(state: StateView, event: EventView, next: StateView) -> bool {
    match (state, event) {
        (StateView::CheckCli { args, has_worktree }, EventView::CliChecked { available }) => {
            next == if !available {
                failed(ErrorView::CliNotFound)
            } else if args.len() == 0 && has_worktree {
                StateView::ResolveRoot { args }
            } else {
                after_file(current_file(args, None))
            }
        },
        (StateView::ResolveRoot { args }, EventView::RootResolved { root }) => {
            next == after_file(current_file(args, Some(root)))
        },
        (StateView::CheckFile { path }, EventView::FileChecked { exists }) => {
            next == if exists {
                StateView::RunPreview { path }
            } else {
                failed(ErrorView::FileNotFound { path })
            }
        },
        (StateView::RunPreview { .. }, EventView::SpawnFailed { reason }) => {
            next == failed(ErrorView::SpawnFailed { reason })
        },
        (StateView::RunPreview { path }, EventView::Exited { success, stderr }) => {
            if success {
                next matches StateView::Done { result: Ok(out) } && announces(out, path)
            } else {
                &&& next == failed(ErrorView::PreviewFailed { stderr: lossy_text(stderr) })
                &&& valid_utf8(stderr) ==> next == failed(
                    ErrorView::PreviewFailed { stderr: decode_utf8(stderr) },
                )
            }
        },
        _ => next == state,
    }
}

/// Finds the file to preview: the first argument if there is one, else the
/// worktree's root path if there is one.
pub fn get_current_file(args: &[String], worktree_root: Option<String>) -> (file: Result<
    String,
    PreviewError,
>)
    ensures
        file_view(file) == current_file(texts(args@), root_view(worktree_root)),
{
    if args.len() > 0 {
        return Ok(args[0].clone());
    }
    match worktree_root {
        Some(root) => Ok(root),
        None => Err(PreviewError::NoFile),
    }
}

/// The state of a command that goes on with the file found: only a `.qmd`
/// file goes on to the next check.
fn resolve(file: Result<String, PreviewError>) -> (next: PreviewState)
    ensures
        next@ == after_file(file_view(file)),
{
    match file {
        Err(error) => PreviewState::Done { result: Err(error) },
        Ok(path) => {
            if is_qmd_file(path.as_str()) {
                PreviewState::CheckFile { path }
            } else {
                PreviewState::Done { result: Err(PreviewError::NotQmd) }
            }
        },
    }
}

/// Starts a preview of the file that `args` name, or that the worktree
/// names if there is one.
pub fn preview_quarto(args: Vec<String>, has_worktree: bool) -> (state: PreviewState)
    ensures
        state@ == (StateView::CheckCli { args: texts(args@), has_worktree }),
{
    PreviewState::CheckCli { args, has_worktree }
}

/// Starts the slash command called `name`.
pub fn run_slash_command(name: &str, args: Vec<String>, has_worktree: bool) -> (state:
    PreviewState)
    ensures
        state@ == start_state(name@, texts(args@), has_worktree),
        reachable_shape(state@),
{
    if same_text(name, "quarto-preview") {
        preview_quarto(args, has_worktree)
    } else {
        PreviewState::Done { result: Err(PreviewError::UnknownCommand { name: name.to_owned() }) }
    }
}

impl PreviewState {
    /// Takes in the host's report and moves on. A report that does not
    /// answer the question asked changes nothing.
    pub fn step(self, event: PreviewEvent) -> (next: PreviewState)
        ensures
            steps_to(self@, event@, next@),
            reachable_shape(self@) ==> reachable_shape(next@),
    {
        match (self, event) {
            (PreviewState::CheckCli { args, has_worktree }, PreviewEvent::CliChecked { available }) => {
                if !available {
                    PreviewState::Done { result: Err(PreviewError::CliNotFound) }
                } else if args.len() == 0 && has_worktree {
                    PreviewState::ResolveRoot { args }
                } else {
                    resolve(get_current_file(args.as_slice(), None))
                }
            },
            (PreviewState::ResolveRoot { args }, PreviewEvent::RootResolved { root }) => {
                resolve(get_current_file(args.as_slice(), Some(root)))
            },
            (PreviewState::CheckFile { path }, PreviewEvent::FileChecked { exists }) => {
                if exists {
                    PreviewState::RunPreview { path }
                } else {
                    PreviewState::Done { result: Err(PreviewError::FileNotFound { path }) }
                }
            },
            (PreviewState::RunPreview { .. }, PreviewEvent::SpawnFailed { reason }) => {
                PreviewState::Done { result: Err(PreviewError::SpawnFailed { reason }) }
            },
            (PreviewState::RunPreview { path }, PreviewEvent::Exited { success, stderr }) => {
                if success {
                    PreviewState::Done { result: Ok(output_for_path(path.as_str())) }
                } else {
                    let stderr = decode_lossy(stderr.as_slice());
                    PreviewState::Done { result: Err(PreviewError::PreviewFailed { stderr }) }
                }
            },
            (state, _) => state,
        }
    }
}

/// How many questions a command in `state` may still ask.
pub open spec fn questions_left(state: StateView) -> nat {
    match state {
        StateView::CheckCli { .. } => 4,
        StateView::ResolveRoot { .. } => 3,
        StateView::CheckFile { .. } => 2,
        StateView::RunPreview { .. } => 1,
        StateView::Done { .. } => 0,
    }
}

/// What holds of every state that a command reaches: the worktree is asked
/// only where no argument names a file, only `.qmd` files are looked for and
/// run, and an output is that of a preview.
pub open spec fn reachable_shape(state: StateView) -> bool {
    match state {
        StateView::CheckCli { .. } => true,
        StateView::ResolveRoot { args } => args.len() == 0,
        StateView::CheckFile { path } => names_qmd_file(path),
        StateView::RunPreview { path } => names_qmd_file(path),
        StateView::Done { result: Ok(out) } => is_preview_output(out),
        StateView::Done { result: Err(_) } => true,
    }
}

/// What the host would answer to each question of one command.
pub struct Host {
    pub cli_available: bool,
    pub worktree_root: Seq<char>,
    pub file_exists: bool,
    pub run: EventView,
}

/// The host's answer to the question that `state` asks.
pub open spec fn answer(host: Host, state: StateView) -> EventView {
    match state {
        StateView::CheckCli { .. } => EventView::CliChecked { available: host.cli_available },
        StateView::ResolveRoot { .. } => EventView::RootResolved { root: host.worktree_root },
        StateView::CheckFile { .. } => EventView::FileChecked { exists: host.file_exists },
        StateView::RunPreview { .. } => host.run,
        StateView::Done { .. } => host.run,
    }
}

/// True when `result` is what a preview comes to on a host that answers as
/// `host` does. The checks come in a fixed order and the first that fails
/// decides: the tool, the file's name, its extension, its existence, the
/// run.
pub open spec fn is_verdict(
    args: Seq<Seq<char>>,
    has_worktree: bool,
    host: Host,
    result: Result<OutputView, ErrorView>,
) -> bool {
    let root = if has_worktree {
        Some(host.worktree_root)
    } else {
        None
    };
    if !host.cli_available {
        result == Err::<OutputView, ErrorView>(ErrorView::CliNotFound)
    } else {
        match current_file(args, root) {
            Err(error) => result == Err::<OutputView, ErrorView>(error),
            Ok(path) => {
                if !names_qmd_file(path) {
                    result == Err::<OutputView, ErrorView>(ErrorView::NotQmd)
                } else if !host.file_exists {
                    result == Err::<OutputView, ErrorView>(ErrorView::FileNotFound { path })
                } else {
                    steps_to(StateView::RunPreview { path }, host.run, StateView::Done { result })
                }
            },
        }
    }
}

/// A command that is done stays as it is, whatever the host reports.
pub proof fn lemma_done_is_final(state: StateView, event: EventView, next: StateView)
    requires
        state is Done,
        steps_to(state, event, next),
    ensures
        next == state,
{
}

/// A report that does not answer the question asked changes nothing.
pub proof fn lemma_stray_report_is_ignored(state: StateView, event: EventView, next: StateView)
    requires
        !answers(state, event),
        steps_to(state, event, next),
    ensures
        next == state,
{
}

/// Each answer brings the command nearer to its end, so no command asks
/// more than four questions.
pub proof fn lemma_answer_makes_progress(state: StateView, event: EventView, next: StateView)
    requires
        answers(state, event),
        steps_to(state, event, next),
    ensures
        questions_left(next) < questions_left(state),
{
}

/// Every command starts in a state of the reachable shape.
pub proof fn lemma_start_has_reachable_shape(
    name: Seq<char>,
    args: Seq<Seq<char>>,
    has_worktree: bool,
)
    ensures
        reachable_shape(start_state(name, args, has_worktree)),
{
}

/// A step keeps the reachable shape. With the law before, Quarto is only
/// ever asked to run on a file whose name ends in `.qmd`.
pub proof fn lemma_step_keeps_reachable_shape(
    state: StateView,
    event: EventView,
    next: StateView,
)
    requires
        reachable_shape(state),
        steps_to(state, event, next),
    ensures
        reachable_shape(next),
{
}

/// An output comes only of a run of Quarto that ended in success.
pub proof fn lemma_output_needs_successful_run(
    state: StateView,
    event: EventView,
    next: StateView,
)
    requires
        !(state is Done),
        steps_to(state, event, next),
        next matches StateView::Done { result } && result is Ok,
    ensures
        state is RunPreview,
        event matches EventView::Exited { success, .. } && success,
{
}

/// On a portable `.qmd` path a run that succeeded has one outcome: the
/// output for the last segment of the path. The name it shows holds no `/`,
/// and name and text end in `.qmd`.
pub proof fn lemma_portable_run_has_one_output(
    path: Seq<char>,
    stderr: Seq<u8>,
    next: StateView,
)
    requires
        names_qmd_file(path),
        is_portable_path(path),
        steps_to(
            StateView::RunPreview { path },
            EventView::Exited { success: true, stderr },
            next,
        ),
    ensures
        next == (StateView::Done { result: Ok(preview_output(after_last_slash(path))) }),
        !after_last_slash(path).contains('/'),
        names_qmd_file(after_last_slash(path)),
        names_qmd_file(preview_output(after_last_slash(path)).text),
{
    let name = after_last_slash(path);
    let text = preview_output(name).text;
    lemma_qmd_path_ends_in_file_name(path);
    lemma_after_last_slash(path);
    assert(text.subrange(text.len() - 4, text.len() as int) =~= name.subrange(
        name.len() - 4,
        name.len() as int,
    ));
}

/// Four truthful answers carry a preview from its start to its verdict.
pub proof fn lemma_four_answers_reach_verdict(
    args: Seq<Seq<char>>,
    has_worktree: bool,
    host: Host,
    s1: StateView,
    s2: StateView,
    s3: StateView,
    s4: StateView,
)
    requires
        host.run is SpawnFailed || host.run is Exited,
        steps_to(
            StateView::CheckCli { args, has_worktree },
            answer(host, StateView::CheckCli { args, has_worktree }),
            s1,
        ),
        steps_to(s1, answer(host, s1), s2),
        steps_to(s2, answer(host, s2), s3),
        steps_to(s3, answer(host, s3), s4),
    ensures
        s4 matches StateView::Done { result } && is_verdict(args, has_worktree, host, result),
{
}

} // verus!
