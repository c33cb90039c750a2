//! The two wallpaper backends. Setting a wallpaper alternates commands sent
//! to the compositor's helper, a look at the chosen file, and decisions; the
//! decisions stand here as a state machine. The caller performs each
//! [`Step`] and hands back what came of it as an [`Event`].

use vstd::prelude::*;

use crate::command::{
    handle_cmd_result, judged, run_view, CommandOutput, CommandSpec, CommandView, OutputView,
};

verus! {

/// What is known of the path of a chosen wallpaper: whether it exists, is a
/// regular file, and is absolute, and its text where it is valid UTF-8.
#[derive(Debug, Clone, PartialEq, Eq)]
pub struct WallPath {
    pub exists: bool,
    pub is_file: bool,
    pub is_absolute: bool,
    pub text: Option<String>,
}

/// The mathematical model of a [`WallPath`].
pub struct WallPathView {
    pub exists: bool,
    pub is_file: bool,
    pub is_absolute: bool,
    pub text: Option<Seq<char>>,
}

/// The model of an optional string.
pub open spec fn opt_text(o: Option<String>) -> Option<Seq<char>> {
    match o {
        Some(s) => Some(s@),
        None => None,
    }
}

impl View for WallPath {
    type V = WallPathView;

    open spec fn view(&self) -> WallPathView {
        WallPathView {
            exists: self.exists,
            is_file: self.is_file,
            is_absolute: self.is_absolute,
            text: opt_text(self.text),
        }
    }
}

/// The first thing wrong with a wallpaper path, as the message that reports
/// it, or none.
pub open spec fn path_problem(p: WallPathView) -> Option<Seq<char>> {
    if !p.exists {
        Some("File does not exist"@)
    } else if !p.is_file {
        Some("Path is not a file"@)
    } else if !p.is_absolute {
        Some("Path is not absolute"@)
    } else {
        None
    }
}

/// The verdict on a wallpaper path.
pub open spec fn validation_result(p: WallPathView) -> Result<(), Seq<char>> {
    match path_problem(p) {
        Some(m) => Err(m),
        None => Ok(()),
    }
}

/// The model of a result without a value.
pub open spec fn unit_view(r: Result<(), String>) -> Result<(), Seq<char>> {
    match r {
        Ok(_) => Ok(()),
        Err(e) => Err(e@),
    }
}

/// Checks that a wallpaper path names an existing regular file by an
/// absolute path.
pub trait ValidateWallPath {
    fn validate_wall_path(&self, path: &WallPath) -> (r: Result<(), String>)
        ensures
            unit_view(r) == validation_result(path@),
    ;
}

fn check_wall_path(path: &WallPath) -> (r: Result<(), String>)
    ensures
        unit_view(r) == validation_result(path@),
{
    if !path.exists {
        return Err(String::from_str("File does not exist"));
    }
    if !path.is_file {
        return Err(String::from_str("Path is not a file"));
    }
    if !path.is_absolute {
        return Err(String::from_str("Path is not absolute"));
    }
    Ok(())
}

/// Why a command of a wallpaper job runs: to unload the loaded wallpaper,
/// to preload the new one, or to apply it. The last two carry the new
/// wallpaper's path.
#[derive(Debug, Clone, PartialEq, Eq)]
pub enum Stage {
    Unloading,
    Preloading(String),
    Applying(String),
}

/// The mathematical model of a [`Stage`].
pub enum StageView {
    Unloading,
    Preloading(Seq<char>),
    Applying(Seq<char>),
}

impl View for Stage {
    type V = StageView;

    open spec fn view(&self) -> StageView {
        match self {
            Stage::Unloading => StageView::Unloading,
            Stage::Preloading(t) => StageView::Preloading(t@),
            Stage::Applying(t) => StageView::Applying(t@),
        }
    }
}

/// What a wallpaper job asks of its caller next: run a command, look at the
/// chosen path, or nothing, since the job has finished with this result.
#[derive(Debug, PartialEq, Eq)]
pub enum Step {
    Run { stage: Stage, command: CommandSpec },
    Inspect,
    Done(Result<(), String>),
}

/// The mathematical model of a [`Step`].
pub enum StepView {
    Run(StageView, CommandView),
    Inspect,
    Done(Result<(), Seq<char>>),
}

impl View for Step {
    type V = StepView;

    open spec fn view(&self) -> StepView {
        match self {
            Step::Run { stage, command } => StepView::Run(stage@, command@),
            Step::Inspect => StepView::Inspect,
            Step::Done(r) => StepView::Done(unit_view(*r)),
        }
    }
}

/// What came of a step: how the command ran, or what the look at the path
/// found.
#[derive(Debug, PartialEq, Eq)]
pub enum Event {
    Ran(Result<CommandOutput, String>),
    Inspected(WallPath),
}

/// The mathematical model of an [`Event`].
pub enum EventView {
    Ran(Result<OutputView, Seq<char>>),
    Inspected(WallPathView),
}

impl View for Event {
    type V = EventView;

    open spec fn view(&self) -> EventView {
        match self {
            Event::Ran(r) => EventView::Ran(run_view(*r)),
            Event::Inspected(p) => EventView::Inspected(p@),
        }
    }
}

/// The job a backend is in the middle of, which decides what answer it
/// waits for: none, how the unload, preload or apply command ran, what the
/// look at the new path found, or how the unload of a clean-up ran.
#[derive(Debug, Clone, PartialEq, Eq)]
pub enum Task {
    Idle,
    Unloading,
    Inspecting,
    Preloading(String),
    Applying(String),
    CleaningUp,
}

/// The mathematical model of a [`Task`].
pub enum TaskView {
    Idle,
    Unloading,
    Inspecting,
    Preloading(Seq<char>),
    Applying(Seq<char>),
    CleaningUp,
}

impl View for Task {
    type V = TaskView;

    open spec fn view(&self) -> TaskView {
        match self {
            Task::Idle => TaskView::Idle,
            Task::Unloading => TaskView::Unloading,
            Task::Inspecting => TaskView::Inspecting,
            Task::Preloading(t) => TaskView::Preloading(t@),
            Task::Applying(t) => TaskView::Applying(t@),
            Task::CleaningUp => TaskView::CleaningUp,
        }
    }
}

/// Whether a set-wallpaper job in `task` waits for `event`: a command's
/// outcome while unloading, preloading or applying, a look at the path while
/// inspecting.
pub open spec fn task_awaits(task: TaskView, event: EventView) -> bool {
    match task {
        TaskView::Unloading => event is Ran,
        TaskView::Preloading(_) => event is Ran,
        TaskView::Applying(_) => event is Ran,
        TaskView::Inspecting => event is Inspected,
        _ => false,
    }
}

fn copy_task(task: &Task) -> (r: Task)
    ensures
        r@ == task@,
{
    match task {
        Task::Idle => Task::Idle,
        Task::Unloading => Task::Unloading,
        Task::Inspecting => Task::Inspecting,
        Task::Preloading(t) => Task::Preloading(t.clone()),
        Task::Applying(t) => Task::Applying(t.clone()),
        Task::CleaningUp => Task::CleaningUp,
    }
}

fn task_awaits_exec(task: &Task, event: &Event) -> (r: bool)
    ensures
        r == task_awaits(task@, event@),
{
    match task {
        Task::Unloading | Task::Preloading(_) | Task::Applying(_) => match event {
            Event::Ran(_) => true,
            Event::Inspected(_) => false,
        },
        Task::Inspecting => match event {
            Event::Ran(_) => false,
            Event::Inspected(_) => true,
        },
        _ => false,
    }
}

/// Sets a wallpaper as a sequence of steps. `begin_set_wallpaper` starts a
/// job (dropping any unfinished one) and gives its first step;
/// `advance_set_wallpaper` takes what came of the step, updates the backend
/// and gives the next step, until a step is `Done`. The backend keeps the
/// job, so that it only takes the answer it waits for.
pub trait SetWallpaper: View + Sized {
    /// Whether a backend in `state` waits for `event`.
    spec fn awaits(state: Self::V, event: EventView) -> bool;

    /// The backend's state and the first step when a job starts.
    spec fn set_begin(state: Self::V) -> (Self::V, StepView);

    /// The backend's next state and the next step, after `event`.
    spec fn set_advance(state: Self::V, event: EventView) -> (Self::V, StepView);

    fn awaits_event(&self, event: &Event) -> (r: bool)
        ensures
            r == Self::awaits(self@, event@),
    ;

    fn begin_set_wallpaper(&mut self) -> (s: Step)
        ensures
            (final(self)@, s@) == Self::set_begin(old(self)@),
    ;

    fn advance_set_wallpaper(&mut self, event: Event) -> (s: Step)
        requires
            Self::awaits(old(self)@, event@),
        ensures
            (final(self)@, s@) == Self::set_advance(old(self)@, event@),
    ;
}

/// Releases what a backend holds, as a sequence of steps: at most one
/// command, whose outcome `advance_clean_up` takes.
pub trait CleanUp: View + Sized {
    /// Whether a backend in `state` waits for the outcome of a clean-up
    /// command.
    spec fn cleaning_up(state: Self::V) -> bool;

    /// The backend's state and the first step when a clean-up starts.
    spec fn clean_up_begin(state: Self::V) -> (Self::V, StepView);

    /// The backend's state and the step after the clean-up command ran with
    /// `outcome`.
    spec fn clean_up_advance(state: Self::V, outcome: Result<OutputView, Seq<char>>) -> (Self::V, StepView);

    fn is_cleaning_up(&self) -> (r: bool)
        ensures
            r == Self::cleaning_up(self@),
    ;

    fn begin_clean_up(&mut self) -> (s: Step)
        ensures
            (final(self)@, s@) == Self::clean_up_begin(old(self)@),
    ;

    fn advance_clean_up(&mut self, outcome: Result<CommandOutput, String>) -> (s: Step)
        requires
            Self::cleaning_up(old(self)@),
        ensures
            (final(self)@, s@) == Self::clean_up_advance(old(self)@, run_view(outcome)),
    ;
}

/// Where a backend in `state`, whose last step was `step`, stands after the
/// answers `events`, taken in order for as long as the backend waits for
/// each: its state and the next step.
pub open spec fn drive<B: SetWallpaper>(state: B::V, step: StepView, events: Seq<EventView>) -> (B::V, StepView)
    decreases events.len(),
{
    if events.len() == 0 || !B::awaits(state, events[0]) {
        (state, step)
    } else {
        let (next_state, next_step) = B::set_advance(state, events[0]);
        drive::<B>(next_state, next_step, events.drop_first())
    }
}

/// The commands that the steps along the way that [`drive`] describes ask
/// for, in order, starting with that of `step`.
pub open spec fn issued<B: SetWallpaper>(state: B::V, step: StepView, events: Seq<EventView>) -> Seq<CommandView>
    decreases events.len(),
{
    let here = match step {
        StepView::Run(_, c) => seq![c],
        _ => Seq::empty(),
    };
    if events.len() == 0 || !B::awaits(state, events[0]) {
        here
    } else {
        let (next_state, next_step) = B::set_advance(state, events[0]);
        here + issued::<B>(next_state, next_step, events.drop_first())
    }
}

/// A job's final step after its last command ran.
pub open spec fn finish(r: Result<OutputView, Seq<char>>) -> StepView {
    match r {
        Ok(_) => StepView::Done(Ok(())),
        Err(m) => StepView::Done(Err(m)),
    }
}

fn finish_step(r: Result<CommandOutput, String>) -> (s: Step)
    ensures
        s@ == finish(run_view(r)),
{
    match r {
        Ok(_) => Step::Done(Ok(())),
        Err(m) => Step::Done(Err(m)),
    }
}

/// What the look at the new path decides: the path's text, or the message
/// that stops the job, where `bad_text` reports a path that is not UTF-8.
pub open spec fn after_inspection(p: WallPathView, bad_text: Seq<char>) -> Result<Seq<char>, Seq<char>> {
    match path_problem(p) {
        Some(m) => Err(m),
        None => match p.text {
            None => Err(bad_text),
            Some(t) => Ok(t),
        },
    }
}

fn inspect(p: WallPath, bad_text: &str) -> (r: Result<String, String>)
    ensures
        match r {
            Ok(t) => after_inspection(p@, bad_text@) == Ok::<Seq<char>, Seq<char>>(t@),
            Err(m) => after_inspection(p@, bad_text@) == Err::<Seq<char>, Seq<char>>(m@),
        },
{
    match check_wall_path(&p) {
        Err(m) => Err(m),
        Ok(()) => match p.text {
            None => Err(String::from_str(bad_text)),
            Some(t) => Ok(t),
        },
    }
}

/// The command `hyprctl hyprpaper <verb> <arg>`, with `hyprctl` the path of
/// the program.
pub open spec fn hyprpaper_command(hyprctl: Seq<char>, verb: Seq<char>, arg: Seq<char>) -> CommandView {
    CommandView { program: hyprctl, args: seq!["hyprpaper"@, verb, arg] }
}

fn make_hyprpaper_command(hyprctl: &String, verb: &str, arg: &String) -> (c: CommandSpec)
    ensures
        c@ == hyprpaper_command(hyprctl@, verb@, arg@),
{
    let mut args: Vec<String> = Vec::new();
    args.push(String::from_str("hyprpaper"));
    args.push(String::from_str(verb));
    args.push(arg.clone());
    let c = CommandSpec { program: hyprctl.clone(), args };
    assert(c@.args =~= seq!["hyprpaper"@, verb@, arg@]);
    c
}

/// The argument that applies wallpaper `t` to every monitor: `,` then `t`.
pub open spec fn apply_target(t: Seq<char>) -> Seq<char> {
    ","@ + t
}

/// Drives hyprpaper through `hyprctl`, remembers which wallpaper it has
/// loaded so that it can unload it again, and keeps the job it is in.
#[derive(Debug, Clone)]
pub struct HyprpaperBackend {
    hyprctl_path: String,
    current_wallpaper_path: Option<String>,
    task: Task,
}

/// The mathematical model of a [`HyprpaperBackend`]: the path of `hyprctl`,
/// the loaded wallpaper, if any, and the job it is in.
pub struct HyprView {
    pub hyprctl: Seq<char>,
    pub current: Option<Seq<char>>,
    pub task: TaskView,
}

impl View for HyprpaperBackend {
    type V = HyprView;

    closed spec fn view(&self) -> HyprView {
        HyprView {
            hyprctl: self.hyprctl_path@,
            current: opt_text(self.current_wallpaper_path),
            task: self.task@,
        }
    }
}

/// The backend in `st`, now in job `task`.
pub open spec fn hypr_in(st: HyprView, task: TaskView) -> HyprView {
    HyprView { hyprctl: st.hyprctl, current: st.current, task }
}

/// The step that unloads the loaded wallpaper, or none when nothing is
/// loaded.
pub open spec fn hypr_unload_step(st: HyprView) -> Option<StepView> {
    match st.current {
        Some(p) => Some(StepView::Run(StageView::Unloading, hyprpaper_command(st.hyprctl, "unload"@, p))),
        None => None,
    }
}

/// The start of setting a wallpaper through hyprpaper: unload the loaded
/// wallpaper, or, with none loaded, look at the new path.
pub open spec fn hypr_set_begin(st: HyprView) -> (HyprView, StepView) {
    match hypr_unload_step(st) {
        Some(s) => (hypr_in(st, TaskView::Unloading), s),
        None => (hypr_in(st, TaskView::Inspecting), StepView::Inspect),
    }
}

/// One transition of setting a wallpaper through hyprpaper. Unloading the
/// old wallpaper, preloading the new one and applying it each stop the job
/// with the judged error when they fail; only a successful apply changes
/// the loaded wallpaper, to the one it applied.
pub open spec fn hypr_set_advance(st: HyprView, event: EventView) -> (HyprView, StepView) {
    let idle = hypr_in(st, TaskView::Idle);
    match event {
        EventView::Inspected(p) => match after_inspection(p, "Error parsing path to string"@) {
            Err(m) => (idle, StepView::Done(Err(m))),
            Ok(t) => (
                hypr_in(st, TaskView::Preloading(t)),
                StepView::Run(StageView::Preloading(t), hyprpaper_command(st.hyprctl, "preload"@, t)),
            ),
        },
        EventView::Ran(r) => match st.task {
            TaskView::Unloading => match judged(r, "unloading"@) {
                Ok(_) => (hypr_in(st, TaskView::Inspecting), StepView::Inspect),
                Err(m) => (idle, StepView::Done(Err(m))),
            },
            TaskView::Preloading(t) => match judged(r, "preloading wallpaper"@) {
                Ok(_) => (
                    hypr_in(st, TaskView::Applying(t)),
                    StepView::Run(
                        StageView::Applying(t),
                        hyprpaper_command(st.hyprctl, "wallpaper"@, apply_target(t)),
                    ),
                ),
                Err(m) => (idle, StepView::Done(Err(m))),
            },
            TaskView::Applying(t) => match judged(r, "setting wallpaper"@) {
                Ok(_) => (
                    HyprView { hyprctl: st.hyprctl, current: Some(t), task: TaskView::Idle },
                    StepView::Done(Ok(())),
                ),
                Err(m) => (idle, StepView::Done(Err(m))),
            },
            _ => (idle, StepView::Done(Ok(()))),
        },
    }
}

impl HyprpaperBackend {
    /// A backend that calls the `hyprctl` at `hyprctl_path`, with no
    /// wallpaper loaded and no job.
    pub fn new(hyprctl_path: String) -> (r: Self)
        ensures
            r@ == (HyprView { hyprctl: hyprctl_path@, current: None, task: TaskView::Idle }),
    {
        Self { hyprctl_path, current_wallpaper_path: None, task: Task::Idle }
    }

    /// The wallpaper that the backend loaded last.
    pub fn current_wallpaper_path(&self) -> (r: Option<String>)
        ensures
            opt_text(r) == self@.current,
    {
        match &self.current_wallpaper_path {
            Some(p) => Some(p.clone()),
            None => None,
        }
    }

    fn unload_step(&self) -> (s: Option<Step>)
        ensures
            match s {
                Some(x) => hypr_unload_step(self@) == Some(x@),
                None => hypr_unload_step(self@) is None,
            },
    {
        match &self.current_wallpaper_path {
            Some(p) => Some(
                Step::Run {
                    stage: Stage::Unloading,
                    command: make_hyprpaper_command(&self.hyprctl_path, "unload", p),
                },
            ),
            None => None,
        }
    }
}

impl ValidateWallPath for HyprpaperBackend {
    fn validate_wall_path(&self, path: &WallPath) -> (r: Result<(), String>) {
        check_wall_path(path)
    }
}

impl SetWallpaper for HyprpaperBackend {
    open spec fn awaits(state: HyprView, event: EventView) -> bool {
        task_awaits(state.task, event)
    }

    open spec fn set_begin(state: HyprView) -> (HyprView, StepView) {
        hypr_set_begin(state)
    }

    open spec fn set_advance(state: HyprView, event: EventView) -> (HyprView, StepView) {
        hypr_set_advance(state, event)
    }

    fn awaits_event(&self, event: &Event) -> (r: bool) {
        task_awaits_exec(&self.task, event)
    }

    fn begin_set_wallpaper(&mut self) -> (s: Step) {
        match self.unload_step() {
            Some(s) => {
                self.task = Task::Unloading;
                s
            },
            None => {
                self.task = Task::Inspecting;
                Step::Inspect
            },
        }
    }

    fn advance_set_wallpaper(&mut self, event: Event) -> (s: Step) {
        match event {
            Event::Inspected(p) => match inspect(p, "Error parsing path to string") {
                Err(m) => {
                    self.task = Task::Idle;
                    Step::Done(Err(m))
                },
                Ok(t) => {
                    let command = make_hyprpaper_command(&self.hyprctl_path, "preload", &t);
                    self.task = Task::Preloading(t.clone());
                    Step::Run { stage: Stage::Preloading(t), command }
                },
            },
            Event::Ran(res) => {
                let task = copy_task(&self.task);
                self.task = Task::Idle;
                match task {
                    Task::Unloading => match handle_cmd_result(res, Some("unloading")) {
                        Ok(_) => {
                            self.task = Task::Inspecting;
                            Step::Inspect
                        },
                        Err(m) => Step::Done(Err(m)),
                    },
                    Task::Preloading(t) => match handle_cmd_result(res, Some("preloading wallpaper")) {
                        Ok(_) => {
                            let mut target = String::from_str(",");
                            target.append(t.as_str());
                            let command = make_hyprpaper_command(&self.hyprctl_path, "wallpaper", &target);
                            self.task = Task::Applying(t.clone());
                            Step::Run { stage: Stage::Applying(t), command }
                        },
                        Err(m) => Step::Done(Err(m)),
                    },
                    Task::Applying(t) => match handle_cmd_result(res, Some("setting wallpaper")) {
                        Ok(_) => {
                            self.current_wallpaper_path = Some(t);
                            Step::Done(Ok(()))
                        },
                        Err(m) => Step::Done(Err(m)),
                    },
                    _ => Step::Done(Ok(())),
                }
            },
        }
    }
}

impl CleanUp for HyprpaperBackend {
    open spec fn cleaning_up(state: HyprView) -> bool {
        state.task is CleaningUp
    }

    open spec fn clean_up_begin(state: HyprView) -> (HyprView, StepView) {
        match hypr_unload_step(state) {
            Some(s) => (hypr_in(state, TaskView::CleaningUp), s),
            None => (hypr_in(state, TaskView::Idle), StepView::Done(Ok(()))),
        }
    }

    open spec fn clean_up_advance(state: HyprView, outcome: Result<OutputView, Seq<char>>) -> (HyprView, StepView) {
        (hypr_in(state, TaskView::Idle), finish(judged(outcome, "unloading"@)))
    }

    fn is_cleaning_up(&self) -> (r: bool) {
        match self.task {
            Task::CleaningUp => true,
            _ => false,
        }
    }

    fn begin_clean_up(&mut self) -> (s: Step) {
        match self.unload_step() {
            Some(s) => {
                self.task = Task::CleaningUp;
                s
            },
            None => {
                self.task = Task::Idle;
                Step::Done(Ok(()))
            },
        }
    }

    fn advance_clean_up(&mut self, outcome: Result<CommandOutput, String>) -> (s: Step) {
        self.task = Task::Idle;
        finish_step(handle_cmd_result(outcome, Some("unloading")))
    }
}

/// Sets wallpapers through `swww`; it keeps only the job it is in.
#[derive(Debug, Clone)]
pub struct SwwwBackend {
    swaybg_path: String,
    task: Task,
}

/// The mathematical model of a [`SwwwBackend`]: the path of the program and
/// the job it is in.
pub struct SwwwView {
    pub program: Seq<char>,
    pub task: TaskView,
}

impl View for SwwwBackend {
    type V = SwwwView;

    closed spec fn view(&self) -> SwwwView {
        SwwwView { program: self.swaybg_path@, task: self.task@ }
    }
}

/// The command `<program> img <t>`.
pub open spec fn swww_command(program: Seq<char>, t: Seq<char>) -> CommandView {
    CommandView { program, args: seq!["img"@, t] }
}

/// One transition of setting a wallpaper through swww: after the look at
/// the path, the one command that sets it; after that command, the judged
/// result.
pub open spec fn swww_set_advance(st: SwwwView, event: EventView) -> (SwwwView, StepView) {
    let idle = SwwwView { program: st.program, task: TaskView::Idle };
    match event {
        EventView::Inspected(p) => match after_inspection(p, "cannot conver path to strings"@) {
            Err(m) => (idle, StepView::Done(Err(m))),
            Ok(t) => (
                SwwwView { program: st.program, task: TaskView::Applying(t) },
                StepView::Run(StageView::Applying(t), swww_command(st.program, t)),
            ),
        },
        EventView::Ran(r) => (idle, finish(judged(r, "setting wallpaper"@))),
    }
}

impl SwwwBackend {
    /// A backend that calls the `swww` program at `swaybg_path`, with no job.
    pub fn new(swaybg_path: String) -> (r: Self)
        ensures
            r@ == (SwwwView { program: swaybg_path@, task: TaskView::Idle }),
    {
        Self { swaybg_path, task: Task::Idle }
    }
}

impl ValidateWallPath for SwwwBackend {
    fn validate_wall_path(&self, path: &WallPath) -> (r: Result<(), String>) {
        check_wall_path(path)
    }
}

impl SetWallpaper for SwwwBackend {
    open spec fn awaits(state: SwwwView, event: EventView) -> bool {
        task_awaits(state.task, event)
    }

    open spec fn set_begin(state: SwwwView) -> (SwwwView, StepView) {
        (SwwwView { program: state.program, task: TaskView::Inspecting }, StepView::Inspect)
    }

    open spec fn set_advance(state: SwwwView, event: EventView) -> (SwwwView, StepView) {
        swww_set_advance(state, event)
    }

    fn awaits_event(&self, event: &Event) -> (r: bool) {
        task_awaits_exec(&self.task, event)
    }

    fn begin_set_wallpaper(&mut self) -> (s: Step) {
        self.task = Task::Inspecting;
        Step::Inspect
    }

    fn advance_set_wallpaper(&mut self, event: Event) -> (s: Step) {
        self.task = Task::Idle;
        match event {
            Event::Inspected(p) => match inspect(p, "cannot conver path to strings") {
                Err(m) => Step::Done(Err(m)),
                Ok(t) => {
                    let mut args: Vec<String> = Vec::new();
                    args.push(String::from_str("img"));
                    args.push(t.clone());
                    let command = CommandSpec { program: self.swaybg_path.clone(), args };
                    assert(command@.args =~= seq!["img"@, t@]);
                    self.task = Task::Applying(t.clone());
                    Step::Run { stage: Stage::Applying(t), command }
                },
            },
            Event::Ran(res) => finish_step(handle_cmd_result(res, Some("setting wallpaper"))),
        }
    }
}

} // verus!
