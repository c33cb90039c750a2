use wallselect::command::{handle_cmd_result, CommandOutput};
use wallselect::text::byte_list_string;

fn output(success: bool, stdout: &[u8], stderr: &[u8]) -> CommandOutput {
    CommandOutput { success, stdout: stdout.to_vec(), stderr: stderr.to_vec() }
}

#[test]
fn byte_lists_print_like_debug() {
    assert_eq!(byte_list_string(&[]), "[]");
    assert_eq!(byte_list_string(&[7]), "[7]");
    assert_eq!(byte_list_string(&[0, 9, 10, 99, 100, 255]), "[0, 9, 10, 99, 100, 255]");
    let bytes: Vec<u8> = vec![1, 200, 42];
    assert_eq!(byte_list_string(&bytes), format!("{:?}", bytes));
}

#[test]
fn successful_run_passes_unchanged() {
    let out = output(true, b"ok\n", b"");
    let res = handle_cmd_result(Ok(out.clone()), Some("setting wallpaper"));
    assert_eq!(res, Ok(out));
}

#[test]
fn failed_run_reports_stderr_bytes() {
    let res = handle_cmd_result(Ok(output(false, b"", b"hi")), Some("unloading"));
    assert_eq!(res, Err("\"unloading\" failed: [104, 105]".to_string()));
}

#[test]
fn failed_run_with_empty_stderr() {
    let res = handle_cmd_result(Ok(output(false, b"out", b"")), Some("preloading wallpaper"));
    assert_eq!(res, Err("\"preloading wallpaper\" failed: []".to_string()));
}

#[test]
fn run_that_did_not_start_reports_error_text() {
    let res = handle_cmd_result(
        Err("No such file or directory (os error 2)".to_string()),
        Some("setting wallpaper"),
    );
    assert_eq!(
        res,
        Err("\"setting wallpaper\" failed: No such file or directory (os error 2)".to_string())
    );
}

#[test]
fn missing_label_reads_as_empty() {
    let res = handle_cmd_result(Ok(output(false, b"", b"")), None);
    assert_eq!(res, Err("\"\" failed: []".to_string()));
}

#[test]
fn label_is_escaped_like_debug() {
    let label = "say \"hi\"\n";
    let res = handle_cmd_result(Ok(output(false, b"", &[0, 9, 255])), Some(label));
    assert_eq!(res, Err(format!("{:?} failed: [0, 9, 255]", label)));
    assert_eq!(res, Err("\"say \\\"hi\\\"\\n\" failed: [0, 9, 255]".to_string()));
}
