//! External commands as plain values, and the judgement of how one ran.

use vstd::prelude::*;

use crate::text::{byte_list_string, byte_list_text, quote_debug, quoted_text};

verus! {

/// A program to start and the arguments to hand it.
#[derive(Debug, Clone, PartialEq, Eq)]
pub struct CommandSpec {
    pub program: String,
    pub args: Vec<String>,
}

/// The mathematical model of a [`CommandSpec`].
pub struct CommandView {
    pub program: Seq<char>,
    pub args: Seq<Seq<char>>,
}

impl View for CommandSpec {
    type V = CommandView;

    open spec fn view(&self) -> CommandView {
        CommandView { program: self.program@, args: self.args@.map_values(|a: String| a@) }
    }
}

/// What a finished process left behind: whether its exit status counts as
/// success, and what it wrote to its two output streams.
#[derive(Debug, Clone, PartialEq, Eq)]
pub struct CommandOutput {
    pub success: bool,
    pub stdout: Vec<u8>,
    pub stderr: Vec<u8>,
}

/// The mathematical model of a [`CommandOutput`].
pub struct OutputView {
    pub success: bool,
    pub stdout: Seq<u8>,
    pub stderr: Seq<u8>,
}

impl View for CommandOutput {
    type V = OutputView;

    open spec fn view(&self) -> OutputView {
        OutputView { success: self.success, stdout: self.stdout@, stderr: self.stderr@ }
    }
}

/// The model of an attempt to run a command: the output, or the text of
/// the error that kept it from running.
pub open spec fn run_view(r: Result<CommandOutput, String>) -> Result<OutputView, Seq<char>> {
    match r {
        Ok(o) => Ok(o@),
        Err(e) => Err(e@),
    }
}

/// The label that names a command in error messages; none reads as empty.
pub open spec fn label_text(label: Option<&str>) -> Seq<char> {
    match label {
        Some(s) => s@,
        None => Seq::empty(),
    }
}

/// The error message for a command labelled `label` that failed with
/// `detail`: the label as `{:?}` prints it, then ` failed: `, then the detail.
pub open spec fn failure_text(label: Seq<char>, detail: Seq<char>) -> Seq<char> {
    quoted_text(label) + " failed: "@ + detail
}

/// How an attempt to run a command is judged: a run whose exit status is a
/// success passes unchanged; a run that failed is reported with the bytes it
/// wrote to stderr as a list; an attempt that did not run is reported with
/// its error text.
pub open spec fn judged(res: Result<OutputView, Seq<char>>, label: Seq<char>) -> Result<OutputView, Seq<char>> {
    match res {
        Ok(o) => if o.success {
            Ok(o)
        } else {
            Err(failure_text(label, byte_list_text(o.stderr)))
        },
        Err(e) => Err(failure_text(label, e)),
    }
}

/// Judges how a command ran; `error_idf` labels it in the error message.
pub fn handle_cmd_result(res: Result<CommandOutput, String>, error_idf: Option<&str>) -> (r: Result<
    CommandOutput,
    String,
>)
    ensures
        run_view(r) == judged(run_view(res), label_text(error_idf)),
        res matches Ok(o) && o.success ==> r == res,
{
    let idf: &str = match error_idf {
        Some(s) => s,
        None => {
            proof {
                reveal_strlit("");
            }
            ""
        },
    };
    assert(idf@ == label_text(error_idf));
    match res {
        Ok(output) => {
            if output.success {
                Ok(output)
            } else {
                let mut msg = quote_debug(idf);
                msg.append(" failed: ");
                let list = byte_list_string(output.stderr.as_slice());
                msg.append(list.as_str());
                Err(msg)
            }
        },
        Err(err) => {
            let mut msg = quote_debug(idf);
            msg.append(" failed: ");
            msg.append(err.as_str());
            Err(msg)
        },
    }
}

} // verus!
