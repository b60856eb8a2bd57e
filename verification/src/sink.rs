//! The file sink model: an append-only text file with a lazy, truncating
//! size bound.
//!
//! A [`LogFile`] holds the sink file's contents. A write appends the line
//! and a newline; when a size bound is configured and the contents already
//! exceed it, the file is truncated to empty first (rollover). A logger
//! whose sink is off, or that has no path, skips the write entirely.

use vstd::prelude::*;
use vstd::string::StrSliceExecFns;
use vstd::string::StringExecFns;

use crate::logger::Logger;

verus! {

/// What one file-sink write does.
#[derive(Clone, Copy, Debug, PartialEq, Eq, Structural)]
pub enum SinkAction {
    /// The sink is off or has no path: nothing is written.
    Skip,
    /// The line is appended to what is already there.
    Append,
    /// The contents exceed the configured bound: the file is emptied, then
    /// the line is appended.
    TruncateThenAppend,
}

/// The sink file's contents. Its view is the text held, one rendered line
/// plus newline per emitted message.
pub struct LogFile {
    text: String,
}

impl View for LogFile {
    type V = Seq<char>;

    closed spec fn view(&self) -> Seq<char> {
        self.text@
    }
}

impl LogFile {
    /// An empty file.
    pub fn new() -> (f: LogFile)
        ensures
            f@ == Seq::<char>::empty(),
    {
        LogFile { text: String::new() }
    }

    /// A file that already holds `text`.
    pub fn from_text(text: String) -> (f: LogFile)
        ensures
            f@ == text@,
    {
        LogFile { text }
    }

    /// How many characters the file holds.
    pub fn len(&self) -> (n: usize)
        ensures
            n == self@.len(),
    {
        self.text.as_str().unicode_len()
    }

    /// The file's contents.
    pub fn text(&self) -> (s: &String)
        ensures
            s@ == self@,
    {
        &self.text
    }

    /// Appends `line` and a newline.
    fn append_line(&mut self, line: &str)
        ensures
            final(self)@ == old(self)@ + line@ + "\n"@,
    {
        self.text.append(line);
        self.text.append("\n");
    }

    /// Empties the file.
    fn clear(&mut self)
        ensures
            final(self)@ == Seq::<char>::empty(),
    {
        self.text = String::new();
    }
}

impl Logger {
    /// What a file-sink write does when the file holds `file_len`
    /// characters: nothing unless the sink is on and has a path; a rollover
    /// exactly when a size bound is configured and already exceeded; a
    /// plain append otherwise.
    pub open spec fn spec_sink_action(self, file_len: nat) -> SinkAction {
        if !self.file_sink_enabled || self.file_path is None {
            SinkAction::Skip
        } else {
            match self.max_file_bytes {
                Some(max) => if file_len > max {
                    SinkAction::TruncateThenAppend
                } else {
                    SinkAction::Append
                },
                None => SinkAction::Append,
            }
        }
    }

    /// The file's contents after one write of `line`.
    pub open spec fn spec_file_after_write(self, contents: Seq<char>, line: Seq<char>) -> Seq<
        char,
    > {
        match self.spec_sink_action(contents.len()) {
            SinkAction::Skip => contents,
            SinkAction::Append => contents + line + "\n"@,
            SinkAction::TruncateThenAppend => line + "\n"@,
        }
    }

    /// Decides what a write would do to a sink file of `file_len` bytes.
    pub fn sink_action(&self, file_len: u64) -> (a: SinkAction)
        ensures
            a == self.spec_sink_action(file_len as nat),
    {
        if !self.file_sink_enabled {
            SinkAction::Skip
        } else if self.file_path.is_none() {
            SinkAction::Skip
        } else {
            match &self.max_file_bytes {
                Some(max) => if file_len > *max {
                    SinkAction::TruncateThenAppend
                } else {
                    SinkAction::Append
                },
                None => SinkAction::Append,
            }
        }
    }

    /// Performs one file-sink write of `line` on the file model: skips,
    /// appends, or rolls over and appends, as the configuration says.
    pub fn write_log_to_file(&self, line: &str, file: &mut LogFile)
        ensures
            final(file)@ == self.spec_file_after_write(old(file)@, line@),
    {
        let len = file.len();
        let action = self.sink_action(len as u64);
        match action {
            SinkAction::Skip => {},
            SinkAction::Append => {
                file.append_line(line);
            },
            SinkAction::TruncateThenAppend => {
                file.clear();
                file.append_line(line);
            },
        }
    }
}

/// Rollover: once the sink file's contents exceed a configured size bound,
/// the next write truncates first, so the file afterwards holds exactly the
/// one new line — its length is the line's length plus one for the newline,
/// independent of what the file held before.
pub proof fn lemma_rollover(cfg: Logger, contents: Seq<char>, line: Seq<char>)
    requires
        cfg.file_sink_enabled,
        cfg.file_path is Some,
        cfg.max_file_bytes matches Some(max) && contents.len() > max,
    ensures
        cfg.spec_file_after_write(contents, line) == line + "\n"@,
        cfg.spec_file_after_write(contents, line).len() == line.len() + 1,
{
    reveal_strlit("\n");
}

} // verus!
