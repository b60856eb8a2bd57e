//! The logger: a write-once configuration handle, the level filter, and the
//! `log` entry points.
//!
//! Configuration fields follow first-write-wins semantics: each setter
//! writes its field at most once, and a later call with a different value is
//! a silent no-op. A `log` call filters by level, renders the line once, and
//! hands the styled form to the console and the unstyled form to the file
//! sink model.

use vstd::prelude::*;

use crate::clock::Timestamp;
use crate::clock::now_local;
use crate::level::Level;
use crate::level::level_priority;
use crate::render::render_line;
use crate::render::spec_render;
use crate::render::spec_styled;
use crate::render::styled_line;
use crate::sink::LogFile;

verus! {

/// Write-once logger configuration. A field that is still unset can be
/// written once through its setter; afterwards the setters leave it alone.
pub struct Logger {
    /// Whether emitted lines are also appended to the sink file.
    pub file_sink_enabled: bool,
    /// Where the file sink writes; `None` until the sink is enabled.
    pub file_path: Option<String>,
    /// Size bound of the sink file; `None` means unbounded.
    pub max_file_bytes: Option<u64>,
    /// Minimum severity that is emitted; `None` means everything is emitted.
    pub min_level: Option<Level>,
}

/// First-write-wins update of a configuration field: a field that already
/// holds a value keeps it, an unset field takes the new value.
pub open spec fn set_once<A>(current: Option<A>, value: A) -> Option<A> {
    if current is Some {
        current
    } else {
        Some(value)
    }
}

impl Logger {
    /// A logger with nothing configured: no file sink, no size bound, no
    /// level filter.
    pub fn new() -> (l: Logger)
        ensures
            !l.file_sink_enabled,
            l.file_path is None,
            l.max_file_bytes is None,
            l.min_level is None,
    {
        Logger { file_sink_enabled: false, file_path: None, max_file_bytes: None, min_level: None }
    }

    /// The configured sink path, as text.
    pub open spec fn path_view(self) -> Option<Seq<char>> {
        match self.file_path {
            Some(p) => Some(p@),
            None => None,
        }
    }

    /// Turns the file sink on and sets its path, if no path is set yet. The
    /// path is write-once: a second call keeps the first path and only
    /// leaves the sink enabled.
    pub fn enable_log_saving(&mut self, path: &str)
        ensures
            final(self).file_sink_enabled,
            final(self).path_view() == set_once(old(self).path_view(), path@),
            final(self).max_file_bytes == old(self).max_file_bytes,
            final(self).min_level == old(self).min_level,
    {
        if self.file_path.is_none() {
            self.file_path = Some(path.to_owned());
        }
        self.file_sink_enabled = true;
    }

    /// Sets the sink file's size bound, if none is set yet (first write
    /// wins).
    pub fn set_max_log_file_size(&mut self, bytes: u64)
        ensures
            final(self).max_file_bytes == set_once(old(self).max_file_bytes, bytes),
            final(self).file_sink_enabled == old(self).file_sink_enabled,
            final(self).file_path == old(self).file_path,
            final(self).min_level == old(self).min_level,
    {
        if self.max_file_bytes.is_none() {
            self.max_file_bytes = Some(bytes);
        }
    }

    /// Sets the minimum severity that is emitted, if none is set yet (first
    /// write wins).
    pub fn set_log_level_filter(&mut self, level: Level)
        ensures
            final(self).min_level == set_once(old(self).min_level, level),
            final(self).file_sink_enabled == old(self).file_sink_enabled,
            final(self).file_path == old(self).file_path,
            final(self).max_file_bytes == old(self).max_file_bytes,
    {
        if self.min_level.is_none() {
            self.min_level = Some(level);
        }
    }

    /// Whether a message at `level` is emitted: always when no filter is
    /// configured, otherwise exactly when the level's rank reaches the
    /// filter's rank.
    pub open spec fn spec_should_log(self, level: Level) -> bool {
        match self.min_level {
            Some(filter) => level.spec_priority() >= filter.spec_priority(),
            None => true,
        }
    }

    /// Whether a message at `level` passes the configured filter.
    pub fn should_log(&self, level: &Level) -> (r: bool)
        ensures
            r == self.spec_should_log(*level),
    {
        match &self.min_level {
            Some(filter) => level_priority(level) >= level_priority(filter),
            None => true,
        }
    }

    /// What the console shows for a message at `level` whose unstyled line
    /// is `line`: the styled line when the filter passes it, nothing
    /// otherwise.
    pub open spec fn spec_console_line(self, level: Level, line: Seq<char>) -> Option<Seq<char>> {
        if self.spec_should_log(level) {
            Some(spec_styled(level, line))
        } else {
            None
        }
    }

    /// The sink file's contents after a `log` call: unchanged when the
    /// message is suppressed, otherwise whatever one file-sink write of the
    /// unstyled line leaves behind.
    pub open spec fn spec_file_after_log(
        self,
        contents: Seq<char>,
        level: Level,
        line: Seq<char>,
    ) -> Seq<char> {
        if self.spec_should_log(level) {
            self.spec_file_after_write(contents, line)
        } else {
            contents
        }
    }

    /// Filters, renders and emits one message at an explicit time. Returns
    /// the styled console line when the message passes the filter, `None`
    /// when it is suppressed; the file sink model is updated accordingly.
    pub fn log_at(&self, level: &Level, message: &str, now: &Timestamp, file: &mut LogFile) -> (console: Option<
        String,
    >)
        requires
            now.wf(),
        ensures
            (match self.spec_console_line(*level, spec_render(*now, *level, message@)) {
                Some(s) => console matches Some(c) && c@ == s,
                None => console is None,
            }),
            final(file)@ == self.spec_file_after_log(
                old(file)@,
                *level,
                spec_render(*now, *level, message@),
            ),
    {
        if !self.should_log(level) {
            return None;
        }
        let line = render_line(now, level, message);
        let styled = styled_line(level, line.as_str());
        self.write_log_to_file(line.as_str(), file);
        Some(styled)
    }

    /// Filters, renders and emits one message, stamped with the current
    /// local time. The console line and the file write both use one
    /// well-formed timestamp taken at the call.
    pub fn log(&self, level: &Level, message: &str, file: &mut LogFile) -> (console: Option<
        String,
    >)
        ensures
            (console is Some) == self.spec_should_log(*level),
            !self.spec_should_log(*level) ==> final(file)@ == old(file)@,
            self.spec_should_log(*level) ==> (exists |ts: Timestamp|
                #[trigger] ts.wf() && (console matches Some(c) && c@ == spec_styled(
                    *level,
                    spec_render(ts, *level, message@),
                )) && final(file)@ == self.spec_file_after_write(
                    old(file)@,
                    spec_render(ts, *level, message@),
                )),
    {
        let now = now_local();
        let console = self.log_at(level, message, &now, file);
        proof {
            if self.spec_should_log(*level) {
                assert(now.wf() && (console matches Some(c) && c@ == spec_styled(
                    *level,
                    spec_render(now, *level, message@),
                )) && file@ == self.spec_file_after_write(
                    old(file)@,
                    spec_render(now, *level, message@),
                ));
            }
        }
        console
    }
}

/// An unset minimum level suppresses nothing: every level passes the
/// filter.
pub proof fn lemma_unset_filter_logs_everything(cfg: Logger, level: Level)
    requires
        cfg.min_level is None,
    ensures
        cfg.spec_should_log(level),
{
}

/// Write-once semantics: once a configuration field holds a value, a later
/// set leaves it unchanged.
pub proof fn lemma_set_once_keeps_first<A>(current: Option<A>, value: A)
    requires
        current is Some,
    ensures
        set_once(current, value) == current,
{
}

/// A message strictly below the configured minimum level is suppressed
/// entirely: no console line and no change to the sink file.
pub proof fn lemma_below_filter_is_silent(
    cfg: Logger,
    filter: Level,
    level: Level,
    contents: Seq<char>,
    line: Seq<char>,
)
    requires
        cfg.min_level == Some(filter),
        level.spec_priority() < filter.spec_priority(),
    ensures
        !cfg.spec_should_log(level),
        cfg.spec_console_line(level, line) is None,
        cfg.spec_file_after_log(contents, level, line) == contents,
{
}

/// Enabling the file sink twice is idempotent on the path: after enabling
/// an unconfigured logger with `first` and then with `second`, the
/// configured path is still `first`.
pub proof fn lemma_enable_log_saving_idempotent(
    cfg0: Logger,
    cfg1: Logger,
    cfg2: Logger,
    first: Seq<char>,
    second: Seq<char>,
)
    requires
        cfg0.path_view() is None,
        cfg1.path_view() == set_once(cfg0.path_view(), first),
        cfg2.path_view() == set_once(cfg1.path_view(), second),
    ensures
        cfg2.path_view() == Some(first),
{
}

} // verus!
