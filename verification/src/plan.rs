//! Plans: what an operation asks of the outside world, step by step.
//!
//! A plan is a list of [`Step`]s. Each names one [`Action`] and says what
//! becomes of the operation when the action cannot be carried out (a fault)
//! or is carried out and reports no success (an exit). The caller performs
//! the actions; a [`Runner`] keeps the place and makes every decision.
use crate::error::{Error, ErrorView};
use crate::text::{copy_texts, glue2, no_texts, push_text};
use crate::tool::search_path;
use vstd::prelude::*;

verus! {

/// One thing to be done outside the library. A path is given by its parts:
/// the first is the directory it starts from, each further one a name below
/// the one before.
#[derive(Debug, PartialEq, Eq)]
pub enum Action {
    /// Find `tool` on the search path.
    Require { tool: String },
    /// Create the directory at `path`, and its parents where they are missing.
    MakeDirs { path: Vec<String> },
    /// Create the one directory at `path`.
    MakeDir { path: Vec<String> },
    /// Write `content` to the file at `path`, in place of what it held.
    WriteFile { path: Vec<String>, content: String },
    /// Look whether anything exists at `path`; if nothing does, that is an exit.
    Probe { path: Vec<String> },
    /// Remove the directory at `path` with all that it holds.
    RemoveTree { path: Vec<String> },
    /// Run `program` with `args` in the directory `dir` and wait for it.
    Run { program: String, args: Vec<String>, dir: String },
    /// Hand `command` to the system's shell and wait for it.
    Shell { command: String },
    /// Run `program` with `args`, take what it prints, and show it as a list of options.
    Usage { program: String, args: Vec<String> },
}

/// An [`Action`] over sequences of characters.
pub enum ActionView {
    Require { tool: Seq<char> },
    MakeDirs { path: Seq<Seq<char>> },
    MakeDir { path: Seq<Seq<char>> },
    WriteFile { path: Seq<Seq<char>>, content: Seq<char> },
    Probe { path: Seq<Seq<char>> },
    RemoveTree { path: Seq<Seq<char>> },
    Run { program: Seq<char>, args: Seq<Seq<char>>, dir: Seq<char> },
    Shell { command: Seq<char> },
    Usage { program: Seq<char>, args: Seq<Seq<char>> },
}

impl View for Action {
    type V = ActionView;

    open spec fn view(&self) -> ActionView {
        match self {
            Action::Require { tool } => ActionView::Require { tool: tool@ },
            Action::MakeDirs { path } => ActionView::MakeDirs { path: path.deep_view() },
            Action::MakeDir { path } => ActionView::MakeDir { path: path.deep_view() },
            Action::WriteFile { path, content } => ActionView::WriteFile {
                path: path.deep_view(),
                content: content@,
            },
            Action::Probe { path } => ActionView::Probe { path: path.deep_view() },
            Action::RemoveTree { path } => ActionView::RemoveTree { path: path.deep_view() },
            Action::Run { program, args, dir } => ActionView::Run {
                program: program@,
                args: args.deep_view(),
                dir: dir@,
            },
            Action::Shell { command } => ActionView::Shell { command: command@ },
            Action::Usage { program, args } => ActionView::Usage {
                program: program@,
                args: args.deep_view(),
            },
        }
    }
}

impl Clone for Action {
    fn clone(&self) -> (r: Self)
        ensures
            r@ == self@,
    {
        match self {
            Action::Require { tool } => Action::Require { tool: tool.clone() },
            Action::MakeDirs { path } => Action::MakeDirs { path: copy_texts(path) },
            Action::MakeDir { path } => Action::MakeDir { path: copy_texts(path) },
            Action::WriteFile { path, content } => Action::WriteFile {
                path: copy_texts(path),
                content: content.clone(),
            },
            Action::Probe { path } => Action::Probe { path: copy_texts(path) },
            Action::RemoveTree { path } => Action::RemoveTree { path: copy_texts(path) },
            Action::Run { program, args, dir } => Action::Run {
                program: program.clone(),
                args: copy_texts(args),
                dir: dir.clone(),
            },
            Action::Shell { command } => Action::Shell { command: command.clone() },
            Action::Usage { program, args } => Action::Usage {
                program: program.clone(),
                args: copy_texts(args),
            },
        }
    }
}

/// What a fault does to the operation.
#[derive(Debug, PartialEq, Eq)]
pub enum OnFault {
    /// The operation fails with an I/O error that holds the fault's message.
    Io,
    /// The operation fails with a custom error that holds these words, then
    /// the fault's message.
    Custom(String),
    /// The user is told these words, and the next step follows.
    Warn(String),
}

/// An [`OnFault`] over sequences of characters.
pub enum OnFaultView {
    Io,
    Custom(Seq<char>),
    Warn(Seq<char>),
}

impl View for OnFault {
    type V = OnFaultView;

    open spec fn view(&self) -> OnFaultView {
        match self {
            OnFault::Io => OnFaultView::Io,
            OnFault::Custom(words) => OnFaultView::Custom(words@),
            OnFault::Warn(words) => OnFaultView::Warn(words@),
        }
    }
}

impl Clone for OnFault {
    fn clone(&self) -> (r: Self)
        ensures
            r@ == self@,
    {
        match self {
            OnFault::Io => OnFault::Io,
            OnFault::Custom(words) => OnFault::Custom(words.clone()),
            OnFault::Warn(words) => OnFault::Warn(words.clone()),
        }
    }
}

/// What an exit does to the operation.
#[derive(Debug, PartialEq, Eq)]
pub enum OnExit {
    /// Nothing: the next step follows.
    Ignore,
    /// The user is told these words, and the next step follows.
    Warn(String),
    /// The user is told these words and how the program ended, and the next step follows.
    WarnStatus(String),
    /// The operation fails with this error.
    Abort(Error),
    /// The operation ends here, with success; the steps that remain are left out.
    Finish,
    /// The next steps, as many as given, are left out.
    Skip(usize),
}

/// An [`OnExit`] over sequences of characters.
pub enum OnExitView {
    Ignore,
    Warn(Seq<char>),
    WarnStatus(Seq<char>),
    Abort(ErrorView),
    Finish,
    Skip(nat),
}

impl View for OnExit {
    type V = OnExitView;

    open spec fn view(&self) -> OnExitView {
        match self {
            OnExit::Ignore => OnExitView::Ignore,
            OnExit::Warn(words) => OnExitView::Warn(words@),
            OnExit::WarnStatus(words) => OnExitView::WarnStatus(words@),
            OnExit::Abort(error) => OnExitView::Abort(error@),
            OnExit::Finish => OnExitView::Finish,
            OnExit::Skip(n) => OnExitView::Skip(*n as nat),
        }
    }
}

impl Clone for OnExit {
    fn clone(&self) -> (r: Self)
        ensures
            r@ == self@,
    {
        match self {
            OnExit::Ignore => OnExit::Ignore,
            OnExit::Warn(words) => OnExit::Warn(words.clone()),
            OnExit::WarnStatus(words) => OnExit::WarnStatus(words.clone()),
            OnExit::Abort(error) => OnExit::Abort(error.clone()),
            OnExit::Finish => OnExit::Finish,
            OnExit::Skip(n) => OnExit::Skip(*n),
        }
    }
}

/// One step of a plan: an action, and what a fault and an exit of it lead to.
#[derive(Debug, PartialEq, Eq)]
pub struct Step {
    pub action: Action,
    pub on_fault: OnFault,
    pub on_exit: OnExit,
}

/// A [`Step`] over sequences of characters.
pub struct StepView {
    pub action: ActionView,
    pub on_fault: OnFaultView,
    pub on_exit: OnExitView,
}

impl View for Step {
    type V = StepView;

    open spec fn view(&self) -> StepView {
        StepView { action: self.action@, on_fault: self.on_fault@, on_exit: self.on_exit@ }
    }
}

impl DeepView for Step {
    type V = StepView;

    open spec fn deep_view(&self) -> StepView {
        self@
    }
}

impl Clone for Step {
    fn clone(&self) -> (r: Self)
        ensures
            r@ == self@,
    {
        Step {
            action: self.action.clone(),
            on_fault: self.on_fault.clone(),
            on_exit: self.on_exit.clone(),
        }
    }
}

/// A plan or the error in its place, over sequences of characters.
pub open spec fn planned(r: Result<Vec<Step>, Error>) -> Result<Seq<StepView>, ErrorView> {
    match r {
        Ok(plan) => Ok(plan.deep_view()),
        Err(error) => Err(error@),
    }
}

/// A plan with no step in it.
pub fn no_steps() -> (r: Vec<Step>)
    ensures
        r.deep_view() == Seq::<StepView>::empty(),
{
    let r: Vec<Step> = Vec::new();
    r
}

/// Puts `step` at the end of `plan`.
pub fn push_step(plan: &mut Vec<Step>, step: Step)
    ensures
        final(plan).deep_view() == old(plan).deep_view().push(step@),
{
    plan.push(step);
}

/// Puts the steps of `more` at the end of `plan`, in order.
pub fn push_steps(plan: &mut Vec<Step>, more: Vec<Step>)
    ensures
        final(plan).deep_view() == old(plan).deep_view() + more.deep_view(),
{
    let mut more = more;
    plan.append(&mut more);
}

/// The step that looks for `tool`; where it is not found, the operation
/// fails with a custom error of `words` and the words of the search.
pub fn require(tool: &str, words: &str) -> (r: Step)
    ensures
        r@ == required(tool@, words@),
{
    Step {
        action: Action::Require { tool: tool.to_string() },
        on_fault: OnFault::Custom(words.to_string()),
        on_exit: OnExit::Ignore,
    }
}

/// The view of what [`require`] gives.
pub open spec fn required(tool: Seq<char>, words: Seq<char>) -> StepView {
    StepView {
        action: ActionView::Require { tool },
        on_fault: OnFaultView::Custom(words),
        on_exit: OnExitView::Ignore,
    }
}

/// The step that runs `program` with `args` in `dir`. A fault is an I/O error.
pub fn launch(program: &str, args: Vec<String>, dir: &str, on_exit: OnExit) -> (r: Step)
    ensures
        r@ == launched(program@, args.deep_view(), dir@, on_exit@),
{
    Step {
        action: Action::Run { program: program.to_string(), args, dir: dir.to_string() },
        on_fault: OnFault::Io,
        on_exit,
    }
}

/// The view of what [`launch`] gives.
pub open spec fn launched(
    program: Seq<char>,
    args: Seq<Seq<char>>,
    dir: Seq<char>,
    on_exit: OnExitView,
) -> StepView {
    StepView { action: ActionView::Run { program, args, dir }, on_fault: OnFaultView::Io, on_exit }
}

/// The step that writes `content` to the file at `path`. A fault is an I/O error.
pub fn write_file(path: Vec<String>, content: String) -> (r: Step)
    ensures
        r@ == written(path.deep_view(), content@),
{
    Step {
        action: Action::WriteFile { path, content },
        on_fault: OnFault::Io,
        on_exit: OnExit::Ignore,
    }
}

/// The view of what [`write_file`] gives.
pub open spec fn written(path: Seq<Seq<char>>, content: Seq<char>) -> StepView {
    StepView {
        action: ActionView::WriteFile { path, content },
        on_fault: OnFaultView::Io,
        on_exit: OnExitView::Ignore,
    }
}

/// The step that creates the directory at `path` with its missing parents.
/// A fault is an I/O error.
pub fn make_dirs(path: Vec<String>) -> (r: Step)
    ensures
        r@ == dirs_made(path.deep_view()),
{
    Step { action: Action::MakeDirs { path }, on_fault: OnFault::Io, on_exit: OnExit::Ignore }
}

/// The view of what [`make_dirs`] gives.
pub open spec fn dirs_made(path: Seq<Seq<char>>) -> StepView {
    StepView {
        action: ActionView::MakeDirs { path },
        on_fault: OnFaultView::Io,
        on_exit: OnExitView::Ignore,
    }
}

/// The path that starts at `dir` and goes down by one name.
pub fn below(dir: &str, name: &str) -> (r: Vec<String>)
    ensures
        r.deep_view() == seq![dir@, name@],
{
    let mut r = no_texts();
    push_text(&mut r, dir);
    push_text(&mut r, name);
    r
}

/// The path that starts at `dir` and goes down by two names.
pub fn below2(dir: &str, first: &str, second: &str) -> (r: Vec<String>)
    ensures
        r.deep_view() == seq![dir@, first@, second@],
{
    let mut r = no_texts();
    push_text(&mut r, dir);
    push_text(&mut r, first);
    push_text(&mut r, second);
    r
}

/// The policy under which a fault gives a custom error that holds the line
/// shown for the error that `policy` gives. A policy that only warns stays
/// as it is.
pub open spec fn reworded_fault(policy: OnFaultView) -> OnFaultView {
    match policy {
        OnFaultView::Io => OnFaultView::Custom("Io Error: "@),
        OnFaultView::Custom(words) => OnFaultView::Custom("Custom Error: "@ + words),
        OnFaultView::Warn(words) => OnFaultView::Warn(words),
    }
}

/// The policy under which an exit that aborts gives a custom error that
/// holds the line shown for the error that `policy` aborts with. Every other
/// policy stays as it is.
pub open spec fn reworded_exit(policy: OnExitView) -> OnExitView {
    match policy {
        OnExitView::Abort(error) => OnExitView::Abort(ErrorView::CustomError(error.message())),
        other => other,
    }
}

/// `step` with every error it can end in turned into a custom error that
/// holds the line shown for that error.
pub open spec fn reworded(step: StepView) -> StepView {
    StepView {
        action: step.action,
        on_fault: reworded_fault(step.on_fault),
        on_exit: reworded_exit(step.on_exit),
    }
}

/// Every step of `plan`, reworded.
pub open spec fn reworded_plan(plan: Seq<StepView>) -> Seq<StepView> {
    Seq::new(plan.len(), |i: int| reworded(plan[i]))
}

/// A reworded step does to the operation what the step itself does, but
/// that an error comes out as the custom error that holds its line.
pub proof fn lemma_reworded_effect(step: StepView, outcome: OutcomeView)
    ensures
        effect(reworded(step), outcome) == match effect(step, outcome) {
            Effect::Fail(error) => Effect::Fail(ErrorView::CustomError(error.message())),
            other => other,
        },
{
    match outcome {
        OutcomeView::Fault(message) => {
            match step.on_fault {
                OnFaultView::Io => {},
                OnFaultView::Custom(words) => {
                    assert(("Custom Error: "@ + words) + message =~= "Custom Error: "@ + (words
                        + message));
                },
                OnFaultView::Warn(_) => {},
            }
        },
        _ => {},
    }
}

/// The steps of `plan`, each reworded.
pub fn reword(plan: Vec<Step>) -> (r: Vec<Step>)
    ensures
        r.deep_view() == reworded_plan(plan.deep_view()),
{
    let mut r = no_steps();
    let mut i: usize = 0;
    while i < plan.len()
        invariant
            i <= plan.len(),
            r.deep_view() == reworded_plan(plan.deep_view()).take(i as int),
        decreases plan.len() - i,
    {
        let step = &plan[i];
        let on_fault = match &step.on_fault {
            OnFault::Io => OnFault::Custom("Io Error: ".to_string()),
            OnFault::Custom(words) => OnFault::Custom(glue2("Custom Error: ", words.as_str())),
            OnFault::Warn(words) => OnFault::Warn(words.clone()),
        };
        let on_exit = match &step.on_exit {
            OnExit::Abort(error) => OnExit::Abort(Error::CustomError(error.message())),
            other => other.clone(),
        };
        let next = Step { action: step.action.clone(), on_fault, on_exit };
        push_step(&mut r, next);
        i = i + 1;
    }
    r
}

/// The steps of `plan` that look for a tool, in the plan's order.
pub open spec fn searches_of(plan: Seq<StepView>) -> Seq<StepView>
    decreases plan.len(),
{
    if plan.len() == 0 {
        Seq::empty()
    } else if plan.last().action is Require {
        searches_of(plan.drop_last()).push(plan.last())
    } else {
        searches_of(plan.drop_last())
    }
}

/// The steps of `plan` that do not look for a tool, in the plan's order.
pub open spec fn work_of(plan: Seq<StepView>) -> Seq<StepView>
    decreases plan.len(),
{
    if plan.len() == 0 {
        Seq::empty()
    } else if plan.last().action is Require {
        work_of(plan.drop_last())
    } else {
        work_of(plan.drop_last()).push(plan.last())
    }
}

/// The steps of `plan` in two lists: those that look for a tool, and the
/// others, each in the plan's order. With the first list put before other
/// steps, a tool that is missing is found out before anything is changed.
/// Places are not kept: this is for plans of which no step skips or finishes.
pub fn split(plan: Vec<Step>) -> (r: (Vec<Step>, Vec<Step>))
    ensures
        r.0.deep_view() == searches_of(plan.deep_view()),
        r.1.deep_view() == work_of(plan.deep_view()),
{
    let mut searches = no_steps();
    let mut work = no_steps();
    let mut i: usize = 0;
    assert(plan.deep_view().take(0) =~= Seq::empty());
    while i < plan.len()
        invariant
            i <= plan.len(),
            searches.deep_view() == searches_of(plan.deep_view().take(i as int)),
            work.deep_view() == work_of(plan.deep_view().take(i as int)),
        decreases plan.len() - i,
    {
        proof {
            let next = plan.deep_view().take(i + 1);
            assert(next.drop_last() =~= plan.deep_view().take(i as int));
            assert(next.last() == plan[i as int]@);
        }
        let step = plan[i].clone();
        match &step.action {
            Action::Require { .. } => push_step(&mut searches, step),
            _ => push_step(&mut work, step),
        }
        i = i + 1;
    }
    assert(plan.deep_view().take(plan.len() as int) =~= plan.deep_view());
    (searches, work)
}

/// No step among the searches of a plan does anything but look for a
/// tool, and no step of the rest looks for one.
pub proof fn lemma_split_sorts(plan: Seq<StepView>)
    ensures
        forall|i: int|
            0 <= i < searches_of(plan).len() ==> (#[trigger] searches_of(plan)[i]).action is Require,
        forall|i: int| 0 <= i < work_of(plan).len() ==> !((#[trigger] work_of(plan)[i]).action is Require),
    decreases plan.len(),
{
    if plan.len() > 0 {
        lemma_split_sorts(plan.drop_last());
    }
}

/// Where a plan begins with a search, its searches begin with that one.
pub proof fn lemma_first_search(plan: Seq<StepView>)
    requires
        plan.len() > 0,
        plan[0].action is Require,
    ensures
        searches_of(plan).len() > 0,
        searches_of(plan)[0] == plan[0],
    decreases plan.len(),
{
    if plan.len() > 1 {
        lemma_first_search(plan.drop_last());
    } else {
        assert(searches_of(plan.drop_last()).len() == 0);
    }
}

/// Every step of a plan that does not look for a tool is among the rest.
pub proof fn lemma_work_keeps(plan: Seq<StepView>, i: int)
    requires
        0 <= i < plan.len(),
        !(plan[i].action is Require),
    ensures
        exists|j: int| 0 <= j < work_of(plan).len() && #[trigger] work_of(plan)[j] == plan[i],
    decreases plan.len(),
{
    if i == plan.len() - 1 {
        let j = work_of(plan.drop_last()).len() as int;
        assert(work_of(plan)[j] == plan[i]);
    } else {
        lemma_work_keeps(plan.drop_last(), i);
        let j = choose|j: int|
            0 <= j < work_of(plan.drop_last()).len() && #[trigger] work_of(plan.drop_last())[j]
                == plan.drop_last()[i];
        assert(work_of(plan)[j] == plan[i]);
    }
}

/// How an action ended, as the caller reports it.
#[derive(Debug, PartialEq, Eq)]
pub enum Outcome {
    /// It was carried out, and a program that was run reported success.
    Done,
    /// It was carried out without success: a program ended otherwise (the
    /// text says how), or a probe found nothing.
    Exit(String),
    /// It could not be carried out; the text is the system's message.
    Fault(String),
}

/// An [`Outcome`] over sequences of characters.
pub enum OutcomeView {
    Done,
    Exit(Seq<char>),
    Fault(Seq<char>),
}

impl View for Outcome {
    type V = OutcomeView;

    open spec fn view(&self) -> OutcomeView {
        match self {
            Outcome::Done => OutcomeView::Done,
            Outcome::Exit(status) => OutcomeView::Exit(status@),
            Outcome::Fault(message) => OutcomeView::Fault(message@),
        }
    }
}

/// What one outcome makes of the operation.
pub enum Effect {
    /// It goes on, past `skip` further steps, after telling the user `warning` if there is one.
    Go { skip: nat, warning: Option<Seq<char>> },
    /// It ends with success.
    Stop,
    /// It ends with this error.
    Fail(ErrorView),
}

/// What a fault with `message` makes of the operation under `policy`.
pub open spec fn fault_effect(policy: OnFaultView, message: Seq<char>) -> Effect {
    match policy {
        OnFaultView::Io => Effect::Fail(ErrorView::IoError(message)),
        OnFaultView::Custom(words) => Effect::Fail(ErrorView::CustomError(words + message)),
        OnFaultView::Warn(words) => Effect::Go { skip: 0, warning: Some(words) },
    }
}

/// What `outcome` of the action of `step` makes of the operation.
pub open spec fn effect(step: StepView, outcome: OutcomeView) -> Effect {
    match outcome {
        OutcomeView::Done => Effect::Go { skip: 0, warning: None },
        OutcomeView::Fault(message) => fault_effect(step.on_fault, message),
        OutcomeView::Exit(status) => match step.on_exit {
            OnExitView::Ignore => Effect::Go { skip: 0, warning: None },
            OnExitView::Warn(words) => Effect::Go { skip: 0, warning: Some(words) },
            OnExitView::WarnStatus(words) => Effect::Go { skip: 0, warning: Some(words + status) },
            OnExitView::Abort(error) => Effect::Fail(error),
            OnExitView::Finish => Effect::Stop,
            OnExitView::Skip(n) => Effect::Go { skip: n, warning: None },
        },
    }
}

/// The place in a plan of `len` steps after `e` came about at place `at`.
/// The place `len` means that the operation is over.
pub open spec fn place_after(len: nat, at: nat, e: Effect) -> nat {
    match e {
        Effect::Go { skip, warning } => if at + 1 + skip < len {
            at + 1 + skip
        } else {
            len
        },
        Effect::Stop => len,
        Effect::Fail(_) => len,
    }
}

/// What the caller is told after `e`: a warning to pass on, nothing, or the error.
pub open spec fn reply(e: Effect) -> Result<Option<Seq<char>>, ErrorView> {
    match e {
        Effect::Go { skip, warning } => Ok(warning),
        Effect::Stop => Ok(None),
        Effect::Fail(error) => Err(error),
    }
}

/// The view of what [`Runner::report`] returns.
pub open spec fn reply_view(r: Result<Option<String>, Error>) -> Result<
    Option<Seq<char>>,
    ErrorView,
> {
    match r {
        Ok(Some(words)) => Ok(Some(words@)),
        Ok(None) => Ok(None),
        Err(error) => Err(error@),
    }
}

/// What became of a plan that was carried out against a list of outcomes.
pub struct Trace {
    /// The actions that were performed, in order.
    pub performed: Seq<ActionView>,
    /// What the user was told, in order.
    pub warnings: Seq<Seq<char>>,
    /// The error that ended the operation, if one did.
    pub failure: Option<ErrorView>,
    /// The place in the plan at which the outcomes ran out or the operation ended.
    pub place: nat,
}

/// Carries out `plan` from place `at`: the action at the current place is
/// performed and meets the first of `outcomes`, and so on until the plan is
/// over or no outcome is left.
pub open spec fn run(plan: Seq<StepView>, at: nat, outcomes: Seq<OutcomeView>) -> Trace
    decreases outcomes.len(),
{
    if at >= plan.len() || outcomes.len() == 0 {
        Trace { performed: Seq::empty(), warnings: Seq::empty(), failure: None, place: at }
    } else {
        let e = effect(plan[at as int], outcomes[0]);
        let rest = run(plan, place_after(plan.len(), at, e), outcomes.drop_first());
        Trace {
            performed: seq![plan[at as int].action] + rest.performed,
            warnings: match e {
                Effect::Go { skip, warning: Some(words) } => seq![words] + rest.warnings,
                _ => rest.warnings,
            },
            failure: match e {
                Effect::Fail(error) => Some(error),
                _ => rest.failure,
            },
            place: rest.place,
        }
    }
}

/// The actions of `plan` from place `at` on, in order.
pub open spec fn actions_from(plan: Seq<StepView>, at: nat) -> Seq<ActionView> {
    Seq::new((plan.len() - at) as nat, |i: int| plan[at + i].action)
}

/// Where every action succeeds, every step of the plan is performed, in the
/// plan's order, nothing is told to the user, and the operation ends without
/// an error.
pub proof fn lemma_smooth_run(plan: Seq<StepView>, at: nat, outcomes: Seq<OutcomeView>)
    requires
        at <= plan.len(),
        outcomes.len() == plan.len() - at,
        forall|i: int| 0 <= i < outcomes.len() ==> outcomes[i] == OutcomeView::Done,
    ensures
        run(plan, at, outcomes).performed == actions_from(plan, at),
        run(plan, at, outcomes).warnings == Seq::<Seq<char>>::empty(),
        run(plan, at, outcomes).failure == None::<ErrorView>,
        run(plan, at, outcomes).place == plan.len(),
    decreases outcomes.len(),
{
    if at < plan.len() {
        lemma_smooth_run(plan, at + 1, outcomes.drop_first());
    }
}

/// A fault of a step that does not only warn ends the operation at once:
/// its action is the last one performed, and the error is the one that the
/// step's policy makes of the fault's message.
pub proof fn lemma_fault_ends_run(
    plan: Seq<StepView>,
    at: nat,
    message: Seq<char>,
    later: Seq<OutcomeView>,
)
    requires
        at < plan.len(),
        !(plan[at as int].on_fault is Warn),
    ensures
        run(plan, at, seq![OutcomeView::Fault(message)] + later).performed == seq![
            plan[at as int].action,
        ],
        run(plan, at, seq![OutcomeView::Fault(message)] + later).failure is Some,
        fault_effect(plan[at as int].on_fault, message) == Effect::Fail(
            run(plan, at, seq![OutcomeView::Fault(message)] + later).failure->0,
        ),
        run(plan, at, seq![OutcomeView::Fault(message)] + later).place == plan.len(),
{
    let outcomes = seq![OutcomeView::Fault(message)] + later;
    assert(run(plan, plan.len(), outcomes.drop_first()).performed =~= Seq::<ActionView>::empty());
}

/// What a search that ended in `outcome` amounts to: the path that it
/// found, or a custom error that holds the words with which it failed.
pub fn located(outcome: Result<String, String>) -> (r: Result<String, Error>)
    ensures
        match outcome {
            Ok(path) => r matches Ok(found) && found@ == path@,
            Err(words) => r matches Err(e) && e@ == ErrorView::CustomError(words@),
        },
{
    match outcome {
        Ok(path) => Ok(path),
        Err(words) => Err(Error::CustomError(words)),
    }
}

/// The path of the program `name` on the search path, or a custom error
/// that holds the words of the failed search. What is found depends on the
/// machine: the result is what [`located`] makes of the search for `name`.
pub fn locate(name: &str) -> (r: Result<String, Error>)
    ensures
        r matches Err(e) ==> e@ is CustomError,
{
    located(search_path(name))
}

/// Keeps the place in a plan while the caller carries it out.
pub struct Runner {
    steps: Vec<Step>,
    at: usize,
}

impl Runner {
    /// The plan that is carried out.
    pub closed spec fn plan(&self) -> Seq<StepView> {
        self.steps.deep_view()
    }

    /// The place of the step whose action is awaited; the plan's length when
    /// the operation is over.
    pub closed spec fn place(&self) -> nat {
        if self.at <= self.steps.len() {
            self.at as nat
        } else {
            self.steps.len() as nat
        }
    }

    /// A runner at the first step of `steps`.
    pub fn new(steps: Vec<Step>) -> (r: Runner)
        ensures
            r.plan() == steps.deep_view(),
            r.place() == 0,
    {
        Runner { steps, at: 0 }
    }

    /// The action that is to be performed next, or `None` when the operation is over.
    pub fn pending(&self) -> (r: Option<&Action>)
        ensures
            self.place() <= self.plan().len(),
            match r {
                Some(action) => self.place() < self.plan().len() && action@
                    == self.plan()[self.place() as int].action,
                None => self.place() == self.plan().len(),
            },
    {
        if self.at < self.steps.len() {
            Some(&self.steps[self.at].action)
        } else {
            None
        }
    }

    /// Takes the outcome of the pending action and moves on as the step's
    /// policies say. Returns a warning to pass on to the user, if there is
    /// one, or the error that ended the operation. Where nothing is pending
    /// the report is dropped.
    pub fn report(&mut self, outcome: Outcome) -> (r: Result<Option<String>, Error>)
        ensures
            final(self).plan() == old(self).plan(),
            old(self).place() >= old(self).plan().len() ==> {
                &&& final(self).place() == old(self).place()
                &&& reply_view(r) == Ok::<Option<Seq<char>>, ErrorView>(None)
            },
            old(self).place() < old(self).plan().len() ==> {
                let e = effect(old(self).plan()[old(self).place() as int], outcome@);
                &&& final(self).place() == place_after(old(self).plan().len(), old(self).place(), e)
                &&& reply_view(r) == reply(e)
            },
    {
        let len = self.steps.len();
        if self.at >= len {
            return Ok(None);
        }
        let at = self.at;
        let step = &self.steps[at];
        match outcome {
            Outcome::Done => {
                self.at = at + 1;
                Ok(None)
            },
            Outcome::Fault(message) => match &step.on_fault {
                OnFault::Io => {
                    self.at = len;
                    Err(Error::IoError(message))
                },
                OnFault::Custom(words) => {
                    let error = Error::CustomError(glue2(words.as_str(), message.as_str()));
                    self.at = len;
                    Err(error)
                },
                OnFault::Warn(words) => {
                    let told = words.clone();
                    self.at = at + 1;
                    Ok(Some(told))
                },
            },
            Outcome::Exit(status) => match &step.on_exit {
                OnExit::Ignore => {
                    self.at = at + 1;
                    Ok(None)
                },
                OnExit::Warn(words) => {
                    let told = words.clone();
                    self.at = at + 1;
                    Ok(Some(told))
                },
                OnExit::WarnStatus(words) => {
                    let told = glue2(words.as_str(), status.as_str());
                    self.at = at + 1;
                    Ok(Some(told))
                },
                OnExit::Abort(error) => {
                    let error = error.clone();
                    self.at = len;
                    Err(error)
                },
                OnExit::Finish => {
                    self.at = len;
                    Ok(None)
                },
                OnExit::Skip(n) => {
                    let n = *n;
                    if n < len - at - 1 {
                        self.at = at + 1 + n;
                    } else {
                        self.at = len;
                    }
                    Ok(None)
                },
            },
        }
    }

    /// Answers every pending search for a tool by looking on the search path,
    /// until an action is pending that the caller has to perform, or the
    /// operation is over. A tool that is not found ends the operation with
    /// the error that its step makes of the words of the search; where its
    /// step only warns, the warning is among those returned, and the
    /// searching goes on.
    pub fn settle(&mut self) -> (r: Result<Vec<String>, Error>)
        ensures
            final(self).plan() == old(self).plan(),
            old(self).place() <= final(self).place() <= final(self).plan().len(),
            r is Ok ==> searches(final(self).plan(), old(self).place() as int, final(self).place() as int),
            r is Ok && final(self).place() < final(self).plan().len() ==> !(final(self).plan()[final(
                self
            ).place() as int].action is Require),
            r matches Ok(told) ==> forall|k: int|
                0 <= k < told.len() ==> warned(
                    final(self).plan(),
                    old(self).place() as int,
                    final(self).place() as int,
                    (#[trigger] told[k])@,
                ),
            r matches Err(e) ==> final(self).place() == final(self).plan().len() && exists|
                i: int,
                words: Seq<char>,
            |
                old(self).place() <= i < final(self).plan().len() && searches(
                    final(self).plan(),
                    old(self).place() as int,
                    i + 1,
                ) && Effect::Fail(e@) == #[trigger] fault_effect(
                    final(self).plan()[i].on_fault,
                    words,
                ),
    {
        let mut told: Vec<String> = Vec::new();
        loop
            invariant
                self.plan() == old(self).plan(),
                old(self).place() <= self.place() <= self.plan().len(),
                searches(self.plan(), old(self).place() as int, self.place() as int),
                forall|k: int|
                    0 <= k < told.len() ==> warned(
                        self.plan(),
                        old(self).place() as int,
                        self.place() as int,
                        (#[trigger] told[k])@,
                    ),
            decreases self.plan().len() - self.place(),
        {
            let found = match self.pending() {
                Some(Action::Require { tool }) => locate(tool.as_str()),
                _ => {
                    return Ok(told);
                },
            };
            let ghost at = self.place() as int;
            let ghost before = told@;
            let outcome = match found {
                Ok(_) => Outcome::Done,
                Err(error) => Outcome::Fault(error.detail()),
            };
            let reply = self.report(outcome);
            assert forall|k: int| 0 <= k < before.len() implies warned(
                self.plan(),
                old(self).place() as int,
                self.place() as int,
                (#[trigger] before[k])@,
            ) by {
                let i = choose|i: int|
                    old(self).place() <= i < at && (#[trigger] self.plan()[i]).on_fault
                        == OnFaultView::Warn(before[k]@);
                assert(self.plan()[i].on_fault == OnFaultView::Warn(before[k]@));
            }
            match reply {
                Ok(Some(warning)) => {
                    assert(self.plan()[at].on_fault == OnFaultView::Warn(warning@));
                    told.push(warning);
                },
                Ok(None) => {},
                Err(error) => {
                    return Err(error);
                },
            }
        }
    }
}

/// Whether a step of `plan` from place `from` up to place `to` warns of a
/// fault with `words`.
pub open spec fn warned(plan: Seq<StepView>, from: int, to: int, words: Seq<char>) -> bool {
    exists|i: int| from <= i < to && (#[trigger] plan[i]).on_fault == OnFaultView::Warn(words)
}

/// Whether every step of `plan` from place `from` up to place `to` looks for a tool.
pub open spec fn searches(plan: Seq<StepView>, from: int, to: int) -> bool {
    forall|k: int| from <= k < to ==> (#[trigger] plan[k]).action is Require
}

} // verus!
