//! Laws of the library: properties that span several steps or functions,
//! stated over the models that the functions' contracts use.

use vstd::prelude::*;

use crate::backends::{
    apply_target, drive, hyprpaper_command, issued, swww_command, validation_result, CleanUp,
    EventView, HyprView, HyprpaperBackend, SetWallpaper, StageView, StepView, SwwwBackend, SwwwView,
    TaskView, WallPathView, hypr_in,
};
use crate::command::{judged, CommandView, OutputView};
use crate::text::{byte_list_text, decimal_text, digit_char, quoted_text};
use crate::utils::{
    attribute_lookup, comma_terminated, is_image_type, str_attribute, lemma_top_level_type, preview_of, thumbnail_path, top_level_type,
    FileDetailsView, PreviewView,
};

verus! {

/// A path that passes validation and has the text `t`.
pub open spec fn good_path(p: WallPathView, t: Seq<char>) -> bool {
    &&& p.exists
    &&& p.is_file
    &&& p.is_absolute
    &&& p.text == Some(t)
}

/// The answers to a hyprpaper job on a backend in `st` when unloading (if
/// anything is loaded) ends with `unloaded`, the look at the path finds `p`,
/// and the preload and apply commands end with `preloaded` and `applied`.
pub open spec fn hyprpaper_answers(
    st: HyprView,
    unloaded: OutputView,
    p: WallPathView,
    preloaded: OutputView,
    applied: OutputView,
) -> Seq<EventView> {
    let rest = seq![
        EventView::Inspected(p),
        EventView::Ran(Ok(preloaded)),
        EventView::Ran(Ok(applied)),
    ];
    if st.current is Some {
        seq![EventView::Ran(Ok(unloaded))] + rest
    } else {
        rest
    }
}

/// The command that unloads the loaded wallpaper, if any, as a sequence.
pub open spec fn unload_commands(st: HyprView) -> Seq<CommandView> {
    match st.current {
        Some(c) => seq![hyprpaper_command(st.hyprctl, "unload"@, c)],
        None => Seq::empty(),
    }
}

/// Setting a valid wallpaper through hyprpaper, with every command
/// succeeding, unloads the wallpaper loaded before (if any), preloads the
/// new one, applies it to every monitor, finishes with success, and leaves
/// the backend remembering the new wallpaper, with no job.
pub proof fn lemma_hyprpaper_set_success(
    st: HyprView,
    p: WallPathView,
    t: Seq<char>,
    unloaded: OutputView,
    preloaded: OutputView,
    applied: OutputView,
)
    requires
        good_path(p, t),
        unloaded.success,
        preloaded.success,
        applied.success,
    ensures
        ({
            let answers = hyprpaper_answers(st, unloaded, p, preloaded, applied);
            let (started, first) = HyprpaperBackend::set_begin(st);
            &&& drive::<HyprpaperBackend>(started, first, answers) == (
            HyprView { hyprctl: st.hyprctl, current: Some(t), task: TaskView::Idle },
            StepView::Done(Ok(())),
            )
            &&& issued::<HyprpaperBackend>(started, first, answers) == unload_commands(st) + seq![
                hyprpaper_command(st.hyprctl, "preload"@, t),
                hyprpaper_command(st.hyprctl, "wallpaper"@, apply_target(t)),
            ]
        }),
{
    let answers = hyprpaper_answers(st, unloaded, p, preloaded, applied);
    let (started, first) = HyprpaperBackend::set_begin(st);
    reveal_with_fuel(drive, 5);
    reveal_with_fuel(issued, 5);
    let inspecting = hypr_in(st, TaskView::Inspecting);
    let preloading = hypr_in(st, TaskView::Preloading(t));
    let applying = hypr_in(st, TaskView::Applying(t));
    let preload = StepView::Run(StageView::Preloading(t), hyprpaper_command(st.hyprctl, "preload"@, t));
    let apply = StepView::Run(
        StageView::Applying(t),
        hyprpaper_command(st.hyprctl, "wallpaper"@, apply_target(t)),
    );
    let rest = answers.skip(answers.len() - 3);
    assert(rest.drop_first() =~= seq![EventView::Ran(Ok(preloaded)), EventView::Ran(Ok(applied))]);
    assert(rest.drop_first().drop_first() =~= seq![EventView::Ran(Ok(applied))]);
    assert(rest.drop_first().drop_first().drop_first() =~= Seq::<EventView>::empty());
    assert(HyprpaperBackend::set_advance(inspecting, EventView::Inspected(p)) == (preloading, preload));
    assert(HyprpaperBackend::set_advance(preloading, EventView::Ran(Ok(preloaded))) == (applying, apply));
    let done = (HyprView { hyprctl: st.hyprctl, current: Some(t), task: TaskView::Idle }, StepView::Done(Ok(())));
    assert(HyprpaperBackend::set_advance(applying, EventView::Ran(Ok(applied))) == done);
    assert(drive::<HyprpaperBackend>(inspecting, StepView::Inspect, rest) == done);
    assert(issued::<HyprpaperBackend>(inspecting, StepView::Inspect, rest) =~= seq![
        hyprpaper_command(st.hyprctl, "preload"@, t),
        hyprpaper_command(st.hyprctl, "wallpaper"@, apply_target(t)),
    ]);
    if st.current is Some {
        assert(answers.drop_first() =~= rest);
        assert(answers[0] == EventView::Ran(Ok(unloaded)));
        assert(HyprpaperBackend::set_advance(started, answers[0]) == (inspecting, StepView::Inspect));
    } else {
        assert(answers =~= rest);
    }
    assert(issued::<HyprpaperBackend>(started, first, answers) =~= unload_commands(st) + seq![
        hyprpaper_command(st.hyprctl, "preload"@, t),
        hyprpaper_command(st.hyprctl, "wallpaper"@, apply_target(t)),
    ]);
}

/// A hyprpaper job never changes the path of `hyprctl`, and changes the
/// remembered wallpaper only when it finishes with success: whatever the
/// answers, a job that failed or has not finished leaves the remembered
/// wallpaper as it was.
pub proof fn lemma_hyprpaper_changes_only_on_success(st: HyprView, step: StepView, events: Seq<EventView>)
    ensures
        ({
            let (end_state, end_step) = drive::<HyprpaperBackend>(st, step, events);
            &&& end_state.hyprctl == st.hyprctl
            &&& end_state.current == st.current || end_step == StepView::Done(Ok(()))
        }),
    decreases events.len(),
{
    if events.len() > 0 && HyprpaperBackend::awaits(st, events[0]) {
        let (next_state, next_step) = HyprpaperBackend::set_advance(st, events[0]);
        lemma_hyprpaper_changes_only_on_success(next_state, next_step, events.drop_first());
        if next_state.current != st.current {
            assert(next_step == StepView::Done(Ok(())));
            assert(next_state.task is Idle);
            if events.drop_first().len() > 0 {
                assert(!HyprpaperBackend::awaits(next_state, events.drop_first()[0]));
            }
            assert(drive::<HyprpaperBackend>(next_state, next_step, events.drop_first()) == (
            next_state,
            next_step,
            ));
        }
    }
}

/// After a wallpaper was set through hyprpaper with success, the next job on
/// the backend, whether it sets another wallpaper or cleans up, begins by
/// unloading the wallpaper that was set.
pub proof fn lemma_hyprpaper_unloads_what_it_set(
    st: HyprView,
    p: WallPathView,
    t: Seq<char>,
    unloaded: OutputView,
    preloaded: OutputView,
    applied: OutputView,
)
    requires
        good_path(p, t),
        unloaded.success,
        preloaded.success,
        applied.success,
    ensures
        ({
            let answers = hyprpaper_answers(st, unloaded, p, preloaded, applied);
            let (started, first) = HyprpaperBackend::set_begin(st);
            let after = drive::<HyprpaperBackend>(started, first, answers).0;
            let unload = StepView::Run(StageView::Unloading, hyprpaper_command(st.hyprctl, "unload"@, t));
            &&& HyprpaperBackend::set_begin(after).1 == unload
            &&& HyprpaperBackend::clean_up_begin(after).1 == unload
        }),
{
    lemma_hyprpaper_set_success(st, p, t, unloaded, preloaded, applied);
}

/// Setting a valid wallpaper through swww asks for exactly one command,
/// `<swww> img <path>`, and finishes with success when that command
/// succeeds; the backend is left with no job.
pub proof fn lemma_swww_set_success(st: SwwwView, p: WallPathView, t: Seq<char>, applied: OutputView)
    requires
        good_path(p, t),
        applied.success,
    ensures
        ({
            let answers = seq![EventView::Inspected(p), EventView::Ran(Ok(applied))];
            let (started, first) = SwwwBackend::set_begin(st);
            &&& drive::<SwwwBackend>(started, first, answers) == (
            SwwwView { program: st.program, task: TaskView::Idle },
            StepView::Done(Ok(())),
            )
            &&& issued::<SwwwBackend>(started, first, answers) == seq![swww_command(st.program, t)]
        }),
{
    let answers = seq![EventView::Inspected(p), EventView::Ran(Ok(applied))];
    let (started, first) = SwwwBackend::set_begin(st);
    reveal_with_fuel(drive, 3);
    reveal_with_fuel(issued, 3);
    assert(answers.drop_first() =~= seq![EventView::Ran(Ok(applied))]);
    assert(answers.drop_first().drop_first() =~= Seq::<EventView>::empty());
    assert(issued::<SwwwBackend>(started, first, answers) =~= seq![swww_command(st.program, t)]);
}

/// A wallpaper path that fails validation never reaches the compositor:
/// once the look at the path finds a problem, the job of either backend ends
/// with the very error that `validate_wall_path` gives for the path, whatever
/// answers follow, and asks for no preload or apply command.
pub proof fn lemma_bad_path_stops_job(
    st: HyprView,
    program: Seq<char>,
    p: WallPathView,
    later: Seq<EventView>,
)
    requires
        validation_result(p) is Err,
    ensures
        ({
            let answers = seq![EventView::Inspected(p)] + later;
            let stop = StepView::Done(validation_result(p));
            let hypr = hypr_in(st, TaskView::Inspecting);
            let swww = SwwwView { program, task: TaskView::Inspecting };
            &&& drive::<HyprpaperBackend>(hypr, StepView::Inspect, answers) == (hypr_in(st, TaskView::Idle), stop)
            &&& issued::<HyprpaperBackend>(hypr, StepView::Inspect, answers) == Seq::<CommandView>::empty()
            &&& drive::<SwwwBackend>(swww, StepView::Inspect, answers) == (
            SwwwView { program, task: TaskView::Idle },
            stop,
            )
            &&& issued::<SwwwBackend>(swww, StepView::Inspect, answers) == Seq::<CommandView>::empty()
        }),
{
    let answers = seq![EventView::Inspected(p)] + later;
    let stop = StepView::Done(validation_result(p));
    let hypr = hypr_in(st, TaskView::Inspecting);
    let swww = SwwwView { program, task: TaskView::Inspecting };
    let hypr_idle = hypr_in(st, TaskView::Idle);
    let swww_idle = SwwwView { program, task: TaskView::Idle };
    assert(answers[0] == EventView::Inspected(p));
    assert(answers.drop_first() =~= later);
    assert(HyprpaperBackend::set_advance(hypr, answers[0]) == (hypr_idle, stop));
    assert(SwwwBackend::set_advance(swww, answers[0]) == (swww_idle, stop));
    if later.len() > 0 {
        assert(!HyprpaperBackend::awaits(hypr_idle, later[0]));
        assert(!SwwwBackend::awaits(swww_idle, later[0]));
    }
    assert(drive::<HyprpaperBackend>(hypr_idle, stop, later) == (hypr_idle, stop));
    assert(drive::<SwwwBackend>(swww_idle, stop, later) == (swww_idle, stop));
    assert(issued::<HyprpaperBackend>(hypr_idle, stop, later) =~= Seq::<CommandView>::empty());
    assert(issued::<SwwwBackend>(swww_idle, stop, later) =~= Seq::<CommandView>::empty());
    assert(issued::<HyprpaperBackend>(hypr, StepView::Inspect, answers) =~= Seq::<CommandView>::empty());
    assert(issued::<SwwwBackend>(swww, StepView::Inspect, answers) =~= Seq::<CommandView>::empty());
}

/// A call on a hyprpaper backend, as a model: starting a set job, answering
/// its step, starting a clean-up, or answering the clean-up's command.
pub enum HyprCall {
    BeginSet,
    AdvanceSet(EventView),
    BeginCleanUp,
    AdvanceCleanUp(Result<OutputView, Seq<char>>),
}

/// Whether `call` meets the `requires` of its function on a backend in
/// `st`, and the backend's state and the step after it.
pub open spec fn hypr_call(st: HyprView, call: HyprCall) -> (bool, HyprView, StepView) {
    match call {
        HyprCall::BeginSet => {
            let (next, step) = HyprpaperBackend::set_begin(st);
            (true, next, step)
        },
        HyprCall::AdvanceSet(e) => {
            let (next, step) = HyprpaperBackend::set_advance(st, e);
            (HyprpaperBackend::awaits(st, e), next, step)
        },
        HyprCall::BeginCleanUp => {
            let (next, step) = HyprpaperBackend::clean_up_begin(st);
            (true, next, step)
        },
        HyprCall::AdvanceCleanUp(o) => {
            let (next, step) = HyprpaperBackend::clean_up_advance(st, o);
            (HyprpaperBackend::cleaning_up(st), next, step)
        },
    }
}

/// The text of the path that the current set job looked at, after `call`:
/// forgotten when a set job starts, replaced by each look at a path.
pub open spec fn looked_after(looked: Option<Seq<char>>, call: HyprCall) -> Option<Seq<char>> {
    match call {
        HyprCall::BeginSet => None,
        HyprCall::AdvanceSet(EventView::Inspected(p)) => p.text,
        _ => looked,
    }
}

/// Makes `calls` in order on a backend in `st`, where `looked` is the text
/// of the path that the current set job looked at and `last` that of the
/// path of the last set job that finished with success. `None` when a call
/// does not meet its `requires`; else the final state and the final `last`.
pub open spec fn hypr_calls(
    st: HyprView,
    calls: Seq<HyprCall>,
    looked: Option<Seq<char>>,
    last: Option<Seq<char>>,
) -> Option<(HyprView, Option<Seq<char>>)>
    decreases calls.len(),
{
    if calls.len() == 0 {
        Some((st, last))
    } else {
        let (allowed, next, step) = hypr_call(st, calls[0]);
        let now_looked = looked_after(looked, calls[0]);
        let now_last = if calls[0] is AdvanceSet && step == StepView::Done(Ok(())) {
            now_looked
        } else {
            last
        };
        if !allowed {
            None
        } else {
            hypr_calls(next, calls.drop_first(), now_looked, now_last)
        }
    }
}

/// What holds between calls: the `hyprctl` path is `h`, the remembered
/// wallpaper is that of the last successful set job, and a path being
/// preloaded or applied is the one the current job looked at.
pub open spec fn hypr_record(st: HyprView, h: Seq<char>, looked: Option<Seq<char>>, last: Option<Seq<char>>) -> bool {
    &&& st.hyprctl == h
    &&& st.current == last
    &&& st.task matches TaskView::Preloading(t) ==> looked == Some(t)
    &&& st.task matches TaskView::Applying(t) ==> looked == Some(t)
}

proof fn lemma_hypr_calls_keep_record(
    st: HyprView,
    calls: Seq<HyprCall>,
    h: Seq<char>,
    looked: Option<Seq<char>>,
    last: Option<Seq<char>>,
)
    requires
        hypr_record(st, h, looked, last),
    ensures
        match hypr_calls(st, calls, looked, last) {
            Some((end, end_last)) => end.hyprctl == h && end.current == end_last,
            None => true,
        },
    decreases calls.len(),
{
    if calls.len() > 0 {
        let (allowed, next, step) = hypr_call(st, calls[0]);
        let now_looked = looked_after(looked, calls[0]);
        let now_last = if calls[0] is AdvanceSet && step == StepView::Done(Ok(())) {
            now_looked
        } else {
            last
        };
        if allowed {
            assert(hypr_record(next, h, now_looked, now_last));
            lemma_hypr_calls_keep_record(next, calls.drop_first(), h, now_looked, now_last);
        }
    }
}

/// Starting from `HyprpaperBackend::new(h)`, after any sequence of set and
/// clean-up calls that meet their `requires`, the `hyprctl` path is still
/// `h`, and the remembered wallpaper is the text of the path of the last set
/// job that finished with success, or none when no set job has.
pub proof fn lemma_hyprpaper_remembers_last_success(h: Seq<char>, calls: Seq<HyprCall>)
    ensures
        match hypr_calls(HyprView { hyprctl: h, current: None, task: TaskView::Idle }, calls, None, None) {
            Some((end, last)) => end.hyprctl == h && end.current == last,
            None => true,
        },
{
    lemma_hypr_calls_keep_record(
        HyprView { hyprctl: h, current: None, task: TaskView::Idle },
        calls,
        h,
        None,
        None,
    );
}

/// The attribute list of two lists of names, one after the other, is the
/// two attribute lists one after the other.
pub proof fn lemma_attrs_concat(a: Seq<Seq<char>>, b: Seq<Seq<char>>)
    ensures
        comma_terminated(a + b) == comma_terminated(a) + comma_terminated(b),
    decreases b.len(),
{
    if b.len() == 0 {
        assert(a + b =~= a);
        assert(comma_terminated(a) + comma_terminated(b) =~= comma_terminated(a));
    } else {
        lemma_attrs_concat(a, b.drop_last());
        assert((a + b).drop_last() =~= a + b.drop_last());
        assert((a + b).last() == b.last());
        assert(comma_terminated(a + b) =~= comma_terminated(a) + comma_terminated(b));
    }
}

/// The pieces of `s` between commas, as `str::split(',')` gives them: a
/// string with `n` commas has `n + 1` pieces.
pub open spec fn split_at_commas(s: Seq<char>) -> Seq<Seq<char>>
    decreases s.len(),
{
    if s.len() == 0 {
        seq![Seq::<char>::empty()]
    } else {
        let rest = split_at_commas(s.drop_first());
        if s[0] == ',' {
            seq![Seq::<char>::empty()] + rest
        } else {
            rest.update(0, seq![s[0]] + rest[0])
        }
    }
}

proof fn lemma_split_not_empty(s: Seq<char>)
    ensures
        split_at_commas(s).len() >= 1,
    decreases s.len(),
{
    if s.len() > 0 {
        lemma_split_not_empty(s.drop_first());
    }
}

proof fn lemma_split_after_name(x: Seq<char>, y: Seq<char>)
    requires
        !x.contains(','),
    ensures
        split_at_commas(x + seq![','] + y) == seq![x] + split_at_commas(y),
    decreases x.len(),
{
    let s = x + seq![','] + y;
    if x.len() == 0 {
        assert(s[0] == ',');
        assert(s.drop_first() =~= y);
        assert(x =~= Seq::<char>::empty());
    } else {
        let tail = x.drop_first();
        assert forall|c: char| tail.contains(c) implies x.contains(c) by {
            let i = choose|i: int| 0 <= i < tail.len() && tail[i] == c;
            assert(x[i + 1] == c);
        }
        lemma_split_after_name(tail, y);
        assert(s.drop_first() =~= tail + seq![','] + y);
        assert(s[0] == x[0]);
        assert(x[0] != ',') by {
            if x[0] == ',' {
                assert(x.contains(','));
            }
        }
        assert(seq![x[0]] + tail =~= x);
        assert(split_at_commas(s) =~= seq![x] + split_at_commas(y));
    }
}

/// Splitting an attribute list at its commas gives the names back in order,
/// and one empty piece after the final comma, when no name holds a comma.
pub proof fn lemma_attrs_split_back(names: Seq<Seq<char>>)
    requires
        forall|i: int| 0 <= i < names.len() ==> !(#[trigger] names[i]).contains(','),
    ensures
        split_at_commas(comma_terminated(names)) == names.push(Seq::<char>::empty()),
    decreases names.len(),
{
    reveal_strlit(",");
    if names.len() == 0 {
        assert(comma_terminated(names) =~= Seq::<char>::empty());
        assert(names.push(Seq::<char>::empty()) =~= seq![Seq::<char>::empty()]);
    } else {
        let first = seq![names[0]];
        let rest = names.drop_first();
        assert(names =~= first + rest);
        lemma_attrs_concat(first, rest);
        assert(first.drop_last() =~= Seq::<Seq<char>>::empty());
        assert(comma_terminated(first.drop_last()) == Seq::<char>::empty());
        assert(first.last() == names[0]);
        assert(","@ =~= seq![',']);
        assert(comma_terminated(first) =~= names[0] + seq![',']);
        assert forall|i: int| 0 <= i < rest.len() implies !(#[trigger] rest[i]).contains(',') by {
            assert(rest[i] == names[i + 1]);
        }
        lemma_attrs_split_back(rest);
        assert(comma_terminated(names) =~= names[0] + seq![','] + comma_terminated(rest));
        lemma_split_after_name(names[0], comma_terminated(rest));
        assert(names.push(Seq::<char>::empty()) =~= seq![names[0]] + rest.push(Seq::<char>::empty()));
    }
}

/// Whether a command ran and exited with success.
pub open spec fn ran_ok(r: Result<OutputView, Seq<char>>) -> bool {
    r matches Ok(o) && o.success
}

/// The message that reports a command labelled `label` that did not run
/// with success: the quoted label, ` failed: `, then the bytes it wrote to
/// stderr as a list, or the error that kept it from starting.
pub open spec fn failure_message(label: Seq<char>, r: Result<OutputView, Seq<char>>) -> Seq<char> {
    match r {
        Ok(o) => quoted_text(label) + " failed: "@ + byte_list_text(o.stderr),
        Err(e) => quoted_text(label) + " failed: "@ + e,
    }
}

/// How each command of a hyprpaper job ends. A successful unload leads to
/// the look at the new path; a successful preload to the apply command
/// `hyprctl hyprpaper wallpaper ,<t>`; a successful apply finishes the job
/// with success and makes `t` the remembered wallpaper. Any command that
/// does not exit with success, or does not start, finishes the job with the
/// error that reports it, leaves the backend with no job, and keeps the
/// remembered wallpaper.
pub proof fn lemma_hyprpaper_command_outcomes(st: HyprView, r: Result<OutputView, Seq<char>>)
    ensures
        st.task is Unloading ==> HyprpaperBackend::set_advance(st, EventView::Ran(r)) == (if ran_ok(r) {
            (HyprView { hyprctl: st.hyprctl, current: st.current, task: TaskView::Inspecting }, StepView::Inspect)
        } else {
            (
                HyprView { hyprctl: st.hyprctl, current: st.current, task: TaskView::Idle },
                StepView::Done(Err(failure_message("unloading"@, r))),
            )
        }),
        st.task matches TaskView::Preloading(t) ==> HyprpaperBackend::set_advance(st, EventView::Ran(r)) == (
        if ran_ok(r) {
            (
                HyprView { hyprctl: st.hyprctl, current: st.current, task: TaskView::Applying(t) },
                StepView::Run(
                    StageView::Applying(t),
                    CommandView { program: st.hyprctl, args: seq!["hyprpaper"@, "wallpaper"@, ","@ + t] },
                ),
            )
        } else {
            (
                HyprView { hyprctl: st.hyprctl, current: st.current, task: TaskView::Idle },
                StepView::Done(Err(failure_message("preloading wallpaper"@, r))),
            )
        }),
        st.task matches TaskView::Applying(t) ==> HyprpaperBackend::set_advance(st, EventView::Ran(r)) == (
        if ran_ok(r) {
            (HyprView { hyprctl: st.hyprctl, current: Some(t), task: TaskView::Idle }, StepView::Done(Ok(())))
        } else {
            (
                HyprView { hyprctl: st.hyprctl, current: st.current, task: TaskView::Idle },
                StepView::Done(Err(failure_message("setting wallpaper"@, r))),
            )
        }),
{
}

/// A swww job finishes with success exactly when its one command exits with
/// success; otherwise it finishes with the error that reports the command.
/// Either way the backend is left with no job.
pub proof fn lemma_swww_command_outcome(st: SwwwView, r: Result<OutputView, Seq<char>>)
    requires
        st.task is Applying,
    ensures
        SwwwBackend::set_advance(st, EventView::Ran(r)) == (
            SwwwView { program: st.program, task: TaskView::Idle },
            if ran_ok(r) {
                StepView::Done(Ok(()))
            } else {
                StepView::Done(Err(failure_message("setting wallpaper"@, r)))
            },
        ),
{
}

/// The look at the new path, for both backends: a path that does not exist,
/// is not a regular file, or is not absolute (checked in that order) ends
/// the job with the message that says so; a good path that is not UTF-8 ends
/// it with the backend's own message; a good path with text `t` leads to the
/// preload of `t` (hyprpaper) or to `<swww> img <t>` (swww).
pub proof fn lemma_inspection_outcomes(st: HyprView, sw: SwwwView, p: WallPathView)
    requires
        st.task is Inspecting,
        sw.task is Inspecting,
    ensures
        ({
            let hypr = HyprpaperBackend::set_advance(st, EventView::Inspected(p));
            let swww = SwwwBackend::set_advance(sw, EventView::Inspected(p));
            let hypr_idle = HyprView { hyprctl: st.hyprctl, current: st.current, task: TaskView::Idle };
            let swww_idle = SwwwView { program: sw.program, task: TaskView::Idle };
            let problem = if !p.exists {
                Some("File does not exist"@)
            } else if !p.is_file {
                Some("Path is not a file"@)
            } else if !p.is_absolute {
                Some("Path is not absolute"@)
            } else {
                None::<Seq<char>>
            };
            &&& problem matches Some(m) ==> hypr == (hypr_idle, StepView::Done(Err(m)))
                && swww == (swww_idle, StepView::Done(Err(m)))
            &&& problem is None && p.text is None ==> hypr == (
            hypr_idle,
            StepView::Done(Err("Error parsing path to string"@)),
            ) && swww == (swww_idle, StepView::Done(Err("cannot conver path to strings"@)))
            &&& problem is None ==> (p.text matches Some(t) ==> hypr == (
            HyprView { hyprctl: st.hyprctl, current: st.current, task: TaskView::Preloading(t) },
            StepView::Run(
                StageView::Preloading(t),
                CommandView { program: st.hyprctl, args: seq!["hyprpaper"@, "preload"@, t] },
            ),
            ) && swww == (
            SwwwView { program: sw.program, task: TaskView::Applying(t) },
            StepView::Run(StageView::Applying(t), CommandView { program: sw.program, args: seq!["img"@, t] }),
            ))
        }),
{
}

/// A clean-up unloads the remembered wallpaper, if any, and finishes with
/// success exactly when that unload exits with success; otherwise it
/// finishes with the error that reports the unload. It never changes the
/// remembered wallpaper or the `hyprctl` path.
pub proof fn lemma_clean_up_outcomes(st: HyprView, r: Result<OutputView, Seq<char>>)
    ensures
        HyprpaperBackend::clean_up_begin(st) == (match st.current {
            Some(c) => (
                HyprView { hyprctl: st.hyprctl, current: st.current, task: TaskView::CleaningUp },
                StepView::Run(
                    StageView::Unloading,
                    CommandView { program: st.hyprctl, args: seq!["hyprpaper"@, "unload"@, c] },
                ),
            ),
            None => (
                HyprView { hyprctl: st.hyprctl, current: st.current, task: TaskView::Idle },
                StepView::Done(Ok(())),
            ),
        }),
        HyprpaperBackend::clean_up_advance(st, r) == (
            HyprView { hyprctl: st.hyprctl, current: st.current, task: TaskView::Idle },
            if ran_ok(r) {
                StepView::Done(Ok(()))
            } else {
                StepView::Done(Err(failure_message("unloading"@, r)))
            },
        ),
{
}

/// Whether a file's content type is `image` or begins with `image/`.
pub open spec fn has_image_type(d: FileDetailsView) -> bool {
    match d.content_type {
        Some(ct) => ct == "image"@ || (ct.len() >= 6 && ct.take(6) == "image/"@),
        None => false,
    }
}

/// A listed file counts as an image exactly when it has a content type that
/// is `image` or begins with `image/`.
pub proof fn lemma_is_image_exactly(d: FileDetailsView)
    ensures
        is_image_type(d) <==> has_image_type(d),
{
    if let Some(ct) = d.content_type {
        lemma_image_types(ct);
    }
}

/// A tile shows nothing for a file that is not an image, whatever its
/// attributes; for an image, its thumbnail when it has a valid one, else
/// the image itself.
pub proof fn lemma_preview_exactly(d: FileDetailsView)
    ensures
        !has_image_type(d) ==> preview_of(d) == PreviewView::Nothing,
        has_image_type(d) ==> preview_of(d) == (match thumbnail_path(d) {
            Some(p) => PreviewView::Thumbnail(p),
            None => PreviewView::Render,
        }),
{
    lemma_is_image_exactly(d);
}

/// Judging a command's run gives back a run that exited with success
/// unchanged, and reports every other run, or a failure to start, with the
/// quoted label, ` failed: ` and the stderr bytes or the error text.
pub proof fn lemma_judged_exactly(res: Result<OutputView, Seq<char>>, label: Seq<char>)
    ensures
        judged(res, label) == (if ran_ok(res) {
            res
        } else {
            Err(failure_message(label, res))
        }),
{
}

/// The value of a string of decimal digits.
pub open spec fn digits_value(s: Seq<char>) -> int
    decreases s.len(),
{
    if s.len() == 0 {
        0
    } else {
        digits_value(s.drop_last()) * 10 + (s.last() as int - 48)
    }
}

/// A byte is written with one to three decimal digits, without a leading
/// zero, whose value is the byte.
pub proof fn lemma_decimal_text(n: u8)
    ensures
        1 <= decimal_text(n as nat).len() <= 3,
        forall|i: int|
            0 <= i < decimal_text(n as nat).len() ==> 48 <= #[trigger] decimal_text(n as nat)[i] as int <= 57,
        decimal_text(n as nat).len() > 1 ==> decimal_text(n as nat)[0] != '0',
        digits_value(decimal_text(n as nat)) == n as int,
{
    let t = decimal_text(n as nat);
    let m = n as nat;
    assert(forall|d: int| 0 <= d < 10 ==> (#[trigger] digit_char(d)) as int == 48 + d);
    assert(digits_value(Seq::<char>::empty()) == 0);
    assert(digit_char((m % 10) as int) as int == 48 + m % 10);
    if m < 10 {
        assert(t == seq![digit_char(m as int)]);
        assert(t.drop_last() =~= Seq::<char>::empty());
    } else if m < 100 {
        let hi = decimal_text(m / 10);
        assert(hi == seq![digit_char((m / 10) as int)]);
        assert(t == hi.push(digit_char((m % 10) as int)));
        assert(t.drop_last() =~= hi);
        assert(hi.drop_last() =~= Seq::<char>::empty());
        assert(digit_char((m / 10) as int) as int == 48 + m / 10);
        assert(digits_value(hi) == m / 10);
        assert(t[0] == hi[0]);
    } else {
        let top = decimal_text(m / 100);
        assert(m / 10 / 10 == m / 100);
        assert(top == seq![digit_char((m / 100) as int)]);
        let hi = decimal_text(m / 10);
        assert(hi == top.push(digit_char((m / 10 % 10) as int)));
        assert(t == hi.push(digit_char((m % 10) as int)));
        assert(t.drop_last() =~= hi);
        assert(hi.drop_last() =~= top);
        assert(top.drop_last() =~= Seq::<char>::empty());
        assert(digit_char((m / 100) as int) as int == 48 + m / 100);
        assert(digit_char((m / 10 % 10) as int) as int == 48 + m / 10 % 10);
        assert(digits_value(top) == m / 100);
        assert(digits_value(hi) == m / 10);
        assert(t[0] == top[0]);
    }
}

/// The attribute found for `name` is the first one with that name: none
/// when no attribute has the name.
pub proof fn lemma_attribute_lookup_first(attrs: Seq<(Seq<char>, Option<Seq<char>>)>, name: Seq<char>)
    ensures
        attribute_lookup(attrs, name) is None <==> (forall|j: int| 0 <= j < attrs.len() ==> (#[trigger] attrs[j]).0 != name),
        attribute_lookup(attrs, name) matches Some(v) ==> exists|i: int|
            0 <= i < attrs.len() && (#[trigger] attrs[i]).0 == name && attrs[i].1 == v
                && forall|j: int| 0 <= j < i ==> (#[trigger] attrs[j]).0 != name,
    decreases attrs.len(),
{
    if attrs.len() > 0 {
        let rest = attrs.drop_first();
        lemma_attribute_lookup_first(rest, name);
        if attrs[0].0 != name {
            assert forall|j: int| 0 < j < attrs.len() implies attrs[j] == #[trigger] rest[j - 1] by {}
            match attribute_lookup(rest, name) {
                Some(v) => {
                    let i = choose|i: int|
                        0 <= i < rest.len() && (#[trigger] rest[i]).0 == name && rest[i].1 == v
                            && forall|j: int| 0 <= j < i ==> (#[trigger] rest[j]).0 != name;
                    assert(attrs[i + 1] == rest[i]);
                    assert forall|j: int| 0 <= j < i + 1 implies (#[trigger] attrs[j]).0 != name by {
                        if j > 0 {
                            assert(attrs[j] == rest[j - 1]);
                        }
                    }
                },
                None => {
                    assert forall|j: int| 0 <= j < attrs.len() implies (#[trigger] attrs[j]).0 != name by {
                        if j > 0 {
                            assert(attrs[j] == rest[j - 1]);
                        }
                    }
                },
            }
        }
    }
}

/// A file's thumbnail is shown exactly when its `thumbnail::is-valid`
/// attribute has a text other than `FALSE` and its `thumbnail::path`
/// attribute has a text, which is the thumbnail's path.
pub proof fn lemma_thumbnail_exactly(d: FileDetailsView, p: Seq<char>)
    ensures
        thumbnail_path(d) == Some(p) <==> (str_attribute(d, "thumbnail::is-valid"@) matches Some(v) && v
            != "FALSE"@ && str_attribute(d, "thumbnail::path"@) == Some(p)),
        thumbnail_path(d) is None <==> (str_attribute(d, "thumbnail::is-valid"@) matches Some(v) ==> (v
            == "FALSE"@ || str_attribute(d, "thumbnail::path"@) is None)),
{
}

/// A wallpaper path passes validation exactly when it exists, is a regular
/// file and is absolute.
pub proof fn lemma_validation_accepts_exactly(p: WallPathView)
    ensures
        validation_result(p) is Ok <==> p.exists && p.is_file && p.is_absolute,
{
}

/// Judging a command's run passes a successful run through unchanged and
/// turns every other run, or a failure to start, into an error.
pub proof fn lemma_judged_passes_only_success(res: Result<OutputView, Seq<char>>, label: Seq<char>)
    ensures
        judged(res, label) is Ok <==> (res matches Ok(o) && o.success),
        judged(res, label) is Ok ==> judged(res, label) == res,
{
}

/// A file counts as an image exactly when its content type is `image` or
/// begins with `image/`.
pub proof fn lemma_image_types(ct: Seq<char>)
    ensures
        top_level_type(ct) == "image"@ <==> (ct == "image"@ || (ct.len() >= 6 && ct.take(6) == "image/"@)),
{
    reveal_strlit("image");
    reveal_strlit("image/");
    let img = "image"@;
    assert(forall|j: int| 0 <= j < 5 ==> img[j] != '/');
    if top_level_type(ct) == img {
        let k = top_level_prefix_len(ct);
        assert(ct.take(5) =~= img);
        if ct.len() == 5 {
            assert(ct =~= img);
        } else {
            assert(ct[5] == '/');
            assert(ct.take(6) =~= "image/"@);
        }
    }
    if ct == img {
        lemma_top_level_type(ct, 5);
        assert(ct.take(5) =~= ct);
    }
    if ct.len() >= 6 && ct.take(6) == "image/"@ {
        let slashed = "image/"@;
        assert(forall|j: int| 0 <= j < 5 ==> slashed[j] != '/');
        assert forall|j: int| 0 <= j < 5 implies ct[j] != '/' by {
            assert(ct[j] == ct.take(6)[j]);
        }
        assert(ct[5] == ct.take(6)[5]);
        lemma_top_level_type(ct, 5);
        assert(ct.take(5) =~= img);
    }
}

/// The length of the top-level type of `ct`, with what characterizes it: no
/// `/` before it, and a `/` or the end right after it.
proof fn top_level_prefix_len(ct: Seq<char>) -> (k: int)
    ensures
        0 <= k <= ct.len(),
        top_level_type(ct) == ct.take(k),
        forall|j: int| 0 <= j < k ==> ct[j] != '/',
        k == ct.len() || ct[k] == '/',
    decreases ct.len(),
{
    if ct.len() == 0 || ct[0] == '/' {
        assert(ct.take(0) =~= Seq::<char>::empty());
        0
    } else {
        let k1 = top_level_prefix_len(ct.drop_first());
        assert(ct.take(k1 + 1) =~= seq![ct[0]] + ct.drop_first().take(k1));
        assert forall|j: int| 0 <= j < k1 + 1 implies ct[j] != '/' by {
            if j > 0 {
                assert(ct[j] == ct.drop_first()[j - 1]);
            }
        }
        k1 + 1
    }
}

} // verus!
