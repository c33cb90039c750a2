use wallselect::backends::{
    CleanUp, Event, HyprpaperBackend, SetWallpaper, Stage, Step, SwwwBackend, ValidateWallPath,
    WallPath,
};
use wallselect::command::{CommandOutput, CommandSpec};

fn good(text: &str) -> WallPath {
    WallPath { exists: true, is_file: true, is_absolute: true, text: Some(text.to_string()) }
}

fn output(success: bool, stderr: &[u8]) -> CommandOutput {
    CommandOutput { success, stdout: vec![], stderr: stderr.to_vec() }
}

fn ok_run() -> Event {
    Event::Ran(Ok(output(true, &[])))
}

fn failed_run(stderr: &[u8]) -> Event {
    Event::Ran(Ok(output(false, stderr)))
}

fn command(program: &str, args: &[&str]) -> CommandSpec {
    CommandSpec { program: program.to_string(), args: args.iter().map(|a| a.to_string()).collect() }
}

fn run_step(stage: Stage, program: &str, args: &[&str]) -> Step {
    Step::Run { stage, command: command(program, args) }
}

/// Answers a backend's steps, checking each answer is awaited, and returns
/// the last step.
fn answer<B: SetWallpaper>(b: &mut B, events: Vec<Event>) -> Step {
    let mut last = Step::Done(Ok(()));
    for e in events {
        assert!(b.awaits_event(&e));
        last = b.advance_set_wallpaper(e);
    }
    last
}

/// A full successful hyprpaper job for `path`.
fn set_ok(b: &mut HyprpaperBackend, path: &str) -> Step {
    let first = b.begin_set_wallpaper();
    let mut events = vec![];
    if first != Step::Inspect {
        events.push(ok_run());
    }
    events.extend([Event::Inspected(good(path)), ok_run(), ok_run()]);
    answer(b, events)
}

#[test]
fn validation_errors_in_order() {
    let hypr = HyprpaperBackend::new("hyprctl".to_string());
    let swww = SwwwBackend::new("swww".to_string());
    let cases = [
        (WallPath { exists: false, is_file: false, is_absolute: false, text: None }, Err("File does not exist")),
        (WallPath { exists: true, is_file: false, is_absolute: false, text: None }, Err("Path is not a file")),
        (WallPath { exists: true, is_file: true, is_absolute: false, text: None }, Err("Path is not absolute")),
        (WallPath { exists: true, is_file: true, is_absolute: true, text: None }, Ok(())),
    ];
    for (path, expected) in cases {
        let expected = expected.map_err(|m: &str| m.to_string());
        assert_eq!(hypr.validate_wall_path(&path), expected);
        assert_eq!(swww.validate_wall_path(&path), expected);
    }
}

#[test]
fn new_hyprpaper_backend_has_nothing_loaded() {
    let mut b = HyprpaperBackend::new("/usr/bin/hyprctl".to_string());
    assert_eq!(b.current_wallpaper_path(), None);
    assert!(!b.awaits_event(&ok_run()));
    assert!(!b.awaits_event(&Event::Inspected(good("/a"))));
    assert_eq!(b.begin_clean_up(), Step::Done(Ok(())));
    assert!(!b.is_cleaning_up());
    assert_eq!(b.begin_set_wallpaper(), Step::Inspect);
}

#[test]
fn hyprpaper_sets_and_remembers_wallpaper() {
    let mut b = HyprpaperBackend::new("hyprctl".to_string());
    assert_eq!(b.begin_set_wallpaper(), Step::Inspect);
    assert!(!b.awaits_event(&ok_run()));
    let s = b.advance_set_wallpaper(Event::Inspected(good("/w/a.png")));
    assert_eq!(s, run_step(Stage::Preloading("/w/a.png".to_string()), "hyprctl", &["hyprpaper", "preload", "/w/a.png"]));
    assert!(!b.awaits_event(&Event::Inspected(good("/w/b.png"))));
    let s = b.advance_set_wallpaper(ok_run());
    assert_eq!(s, run_step(Stage::Applying("/w/a.png".to_string()), "hyprctl", &["hyprpaper", "wallpaper", ",/w/a.png"]));
    assert_eq!(b.current_wallpaper_path(), None);
    let s = b.advance_set_wallpaper(ok_run());
    assert_eq!(s, Step::Done(Ok(())));
    assert_eq!(b.current_wallpaper_path(), Some("/w/a.png".to_string()));
    assert!(!b.awaits_event(&ok_run()));
}

#[test]
fn hyprpaper_unloads_what_it_set() {
    let mut b = HyprpaperBackend::new("hyprctl".to_string());
    assert_eq!(set_ok(&mut b, "/w/a.png"), Step::Done(Ok(())));
    let unload = run_step(Stage::Unloading, "hyprctl", &["hyprpaper", "unload", "/w/a.png"]);
    assert_eq!(b.begin_clean_up(), unload);
    assert_eq!(b.begin_set_wallpaper(), unload);
    assert_eq!(b.advance_set_wallpaper(ok_run()), Step::Inspect);
    assert_eq!(answer(&mut b, vec![Event::Inspected(good("/w/b.png")), ok_run(), ok_run()]), Step::Done(Ok(())));
    assert_eq!(b.current_wallpaper_path(), Some("/w/b.png".to_string()));
}

#[test]
fn hyprpaper_failed_unload_stops_and_keeps_state() {
    let mut b = HyprpaperBackend::new("hyprctl".to_string());
    set_ok(&mut b, "/w/a.png");
    b.begin_set_wallpaper();
    let s = b.advance_set_wallpaper(failed_run(b"no"));
    assert_eq!(s, Step::Done(Err("\"unloading\" failed: [110, 111]".to_string())));
    assert_eq!(b.current_wallpaper_path(), Some("/w/a.png".to_string()));
}

#[test]
fn hyprpaper_rejects_bad_paths() {
    let mut b = HyprpaperBackend::new("hyprctl".to_string());
    let cases = [
        (WallPath { exists: false, is_file: false, is_absolute: true, text: Some("/x".to_string()) }, "File does not exist"),
        (WallPath { exists: true, is_file: true, is_absolute: false, text: Some("x.png".to_string()) }, "Path is not absolute"),
        (WallPath { exists: true, is_file: true, is_absolute: true, text: None }, "Error parsing path to string"),
    ];
    for (path, message) in cases {
        assert_eq!(b.begin_set_wallpaper(), Step::Inspect);
        assert_eq!(b.advance_set_wallpaper(Event::Inspected(path)), Step::Done(Err(message.to_string())));
        assert!(!b.awaits_event(&ok_run()));
    }
    assert_eq!(b.current_wallpaper_path(), None);
}

#[test]
fn hyprpaper_failed_preload_or_apply_keeps_state() {
    let mut b = HyprpaperBackend::new("hyprctl".to_string());
    b.begin_set_wallpaper();
    let s = answer(&mut b, vec![Event::Inspected(good("/w/a.png")), failed_run(b"x")]);
    assert_eq!(s, Step::Done(Err("\"preloading wallpaper\" failed: [120]".to_string())));
    b.begin_set_wallpaper();
    let s = answer(
        &mut b,
        vec![Event::Inspected(good("/w/a.png")), ok_run(), Event::Ran(Err("broken pipe".to_string()))],
    );
    assert_eq!(s, Step::Done(Err("\"setting wallpaper\" failed: broken pipe".to_string())));
    assert_eq!(b.current_wallpaper_path(), None);
}

#[test]
fn hyprpaper_clean_up_unloads_and_keeps_wallpaper() {
    let mut b = HyprpaperBackend::new("hyprctl".to_string());
    set_ok(&mut b, "/w/a.png");
    assert_eq!(
        b.begin_clean_up(),
        run_step(Stage::Unloading, "hyprctl", &["hyprpaper", "unload", "/w/a.png"])
    );
    assert!(b.is_cleaning_up());
    assert_eq!(b.advance_clean_up(Ok(output(true, &[]))), Step::Done(Ok(())));
    assert!(!b.is_cleaning_up());
    assert_eq!(b.current_wallpaper_path(), Some("/w/a.png".to_string()));
    b.begin_clean_up();
    assert_eq!(b.advance_clean_up(Err("gone".to_string())), Step::Done(Err("\"unloading\" failed: gone".to_string())));
    assert_eq!(b.current_wallpaper_path(), Some("/w/a.png".to_string()));
}

#[test]
fn hyprpaper_remembers_last_successful_job() {
    let mut b = HyprpaperBackend::new("hyprctl".to_string());
    set_ok(&mut b, "/w/a.png");
    // an abandoned job: started, path looked at, then a new job begins
    b.begin_set_wallpaper();
    answer(&mut b, vec![ok_run(), Event::Inspected(good("/w/b.png"))]);
    assert_eq!(b.current_wallpaper_path(), Some("/w/a.png".to_string()));
    // a job whose apply fails
    b.begin_set_wallpaper();
    answer(&mut b, vec![ok_run(), Event::Inspected(good("/w/c.png")), ok_run(), failed_run(b"")]);
    assert_eq!(b.current_wallpaper_path(), Some("/w/a.png".to_string()));
    // a clean-up in between changes nothing
    b.begin_clean_up();
    b.advance_clean_up(Ok(output(true, &[])));
    assert_eq!(set_ok(&mut b, "/w/d.png"), Step::Done(Ok(())));
    assert_eq!(b.current_wallpaper_path(), Some("/w/d.png".to_string()));
    assert_eq!(
        b.begin_set_wallpaper(),
        run_step(Stage::Unloading, "hyprctl", &["hyprpaper", "unload", "/w/d.png"])
    );
}

#[test]
fn swww_sets_wallpaper_with_one_command() {
    let mut b = SwwwBackend::new("swww".to_string());
    assert!(!b.awaits_event(&Event::Inspected(good("/w/a.png"))));
    assert_eq!(b.begin_set_wallpaper(), Step::Inspect);
    let s = b.advance_set_wallpaper(Event::Inspected(good("/w/a.png")));
    assert_eq!(s, run_step(Stage::Applying("/w/a.png".to_string()), "swww", &["img", "/w/a.png"]));
    assert!(b.awaits_event(&ok_run()));
    assert_eq!(b.advance_set_wallpaper(ok_run()), Step::Done(Ok(())));
    assert!(!b.awaits_event(&ok_run()));
}

#[test]
fn swww_reports_failures() {
    let mut b = SwwwBackend::new("swww".to_string());
    let not_utf8 = WallPath { exists: true, is_file: true, is_absolute: true, text: None };
    b.begin_set_wallpaper();
    assert_eq!(
        b.advance_set_wallpaper(Event::Inspected(not_utf8)),
        Step::Done(Err("cannot conver path to strings".to_string()))
    );
    let dir = WallPath { exists: true, is_file: false, is_absolute: true, text: Some("/w".to_string()) };
    b.begin_set_wallpaper();
    assert_eq!(
        b.advance_set_wallpaper(Event::Inspected(dir)),
        Step::Done(Err("Path is not a file".to_string()))
    );
    b.begin_set_wallpaper();
    let s = answer(&mut b, vec![Event::Inspected(good("/w/a.png")), failed_run(&[1])]);
    assert_eq!(s, Step::Done(Err("\"setting wallpaper\" failed: [1]".to_string())));
}
