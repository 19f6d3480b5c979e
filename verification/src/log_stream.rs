use vstd::prelude::*;

verus! {

/// One item read from a job's remote log stream.
#[derive(Clone, Debug)]
pub enum LogStreamItem {
    /// A log message; `is_error` marks standard-error output and
    /// `is_final` the job's last message.
    Message { log: String, is_error: bool, is_final: bool },
    /// The stream broke.
    Failure,
}

/// What to send on to the log view for one stream item, and whether the
/// stream is done after it.
#[derive(Clone, Debug)]
pub struct ForwardedLine {
    pub line: String,
    pub stop: bool,
}

/// The tag put before a log message: `[ERR] ` for error output, else
/// `[OUT] `.
pub open spec fn log_prefix(is_error: bool) -> Seq<char> {
    if is_error {
        "[ERR] "@
    } else {
        "[OUT] "@
    }
}

/// The line sent to the log view when the stream breaks.
pub open spec fn stream_failure_line() -> Seq<char> {
    "[FATAL] Stream error while receiving logs!"@
}

/// Turns one stream item into the line shown for it: a message becomes its
/// text tagged `[ERR] ` or `[OUT] `, and forwarding stops after the job's
/// final message; a broken stream becomes a fatal-error line and stops
/// forwarding.
pub fn forward_log_item(item: LogStreamItem) -> (r: ForwardedLine)
    ensures
        match item {
            LogStreamItem::Message { log, is_error, is_final } => {
                &&& r.line@ == log_prefix(is_error) + log@
                &&& r.stop == is_final
            },
            LogStreamItem::Failure => {
                &&& r.line@ == stream_failure_line()
                &&& r.stop
            },
        },
{
    match item {
        LogStreamItem::Message { log, is_error, is_final } => {
            let prefix = if is_error {
                String::from_str("[ERR] ")
            } else {
                String::from_str("[OUT] ")
            };
            ForwardedLine { line: prefix.concat(log.as_str()), stop: is_final }
        },
        LogStreamItem::Failure => ForwardedLine {
            line: String::from_str("[FATAL] Stream error while receiving logs!"),
            stop: true,
        },
    }
}

} // verus!
