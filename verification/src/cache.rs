//! The program cache: the compiled program that is drawn with, the source
//! text it was compiled from, and the rule by which a newly read source
//! replaces it or is turned down.
//!
//! The cache is generic in the program handle `P`, so its rules do not
//! depend on a GPU. It never reads a file or compiles anything itself:
//! whoever drives it reads the file, asks the cache whether the text has to
//! be compiled, has the driver compile it, and hands the answer back.
use crate::source::{has_nul, nul_free, NUL_IN_SOURCE};
use vstd::prelude::*;

verus! {

/// What one refresh did to the cache.
#[derive(Clone, Copy, Debug, PartialEq, Eq, Structural)]
pub enum RefreshOutcome {
    /// Nothing was compiled: the file could not be read, or its text is the
    /// one that was handed to the compiler last.
    Unchanged,
    /// A new text compiled, and its program replaced the previous one.
    Reloaded,
    /// A new text did not compile. The previous program is still in place.
    FailedKeptPrevious,
}

/// What is left to do of a refresh after a look at the source file.
#[derive(Debug, PartialEq, Eq)]
pub enum Observed {
    /// Nothing: the refresh is over, with this outcome.
    Settled(RefreshOutcome),
    /// This text has to go to the compiler, and the answer to `install`.
    Compile(String),
}

/// A fault that the cache recovered from, for the error sink.
#[derive(Debug)]
pub enum Diagnostic {
    /// A shader file could not be read.
    ShaderLoadError { path: String, message: String },
    /// A shader source did not compile or link. `log` is what the driver
    /// said, or `NUL_IN_SOURCE` for a text that was turned down before the
    /// driver saw it; `source` is the text that it was said of.
    ShaderCompileError { path: String, log: String, source: String },
}

/// The model of a `Diagnostic`.
pub enum Report {
    Load { path: Seq<char>, message: Seq<char> },
    Compile { path: Seq<char>, log: Seq<char>, source: Seq<char> },
}

impl View for Diagnostic {
    type V = Report;

    open spec fn view(&self) -> Report {
        match self {
            Diagnostic::ShaderLoadError { path, message } => Report::Load {
                path: path@,
                message: message@,
            },
            Diagnostic::ShaderCompileError { path, log, source } => Report::Compile {
                path: path@,
                log: log@,
                source: source@,
            },
        }
    }
}

impl Report {
    /// The report as one text: the path, then what went wrong, then, for a
    /// source that did not compile, the source itself.
    pub open spec fn text(self) -> Seq<char> {
        match self {
            Report::Load { path, message } => path + ": "@ + message,
            Report::Compile { path, log, source } => path + ": "@ + log + "\n"@ + source,
        }
    }

    /// The text that the compiler was last given, after a start in which the
    /// primary source failed with this report.
    pub open spec fn seen(self) -> Option<Seq<char>> {
        match self {
            Report::Load { .. } => None,
            Report::Compile { source, .. } => Some(source),
        }
    }
}

impl Diagnostic {
    /// The diagnostic as one text, for a log.
    pub fn render(&self) -> (text: String)
        ensures
            text@ == self@.text(),
    {
        match self {
            Diagnostic::ShaderLoadError { path, message } => {
                let mut text = path.clone();
                text.append(": ");
                text.append(message.as_str());
                text
            },
            Diagnostic::ShaderCompileError { path, log, source } => {
                let mut text = path.clone();
                text.append(": ");
                text.append(log.as_str());
                text.append("\n");
                text.append(source.as_str());
                text
            },
        }
    }
}

/// The models of the diagnostics in a sink, in order.
pub open spec fn reports(sink: Seq<Diagnostic>) -> Seq<Report> {
    sink.map_values(|d: Diagnostic| d@)
}

/// No valid program could be had at startup: the primary source failed, and
/// so did the fallback.
#[derive(Debug)]
pub struct FatalInitError {
    pub primary: Diagnostic,
    pub fallback: Diagnostic,
}

/// What a compiler made of a text, as a model: the program, or the log.
pub open spec fn compiled_view<P>(compiled: Result<P, String>) -> Result<P, Seq<char>> {
    match compiled {
        Ok(program) => Ok(program),
        Err(log) => Err(log@),
    }
}

/// What one look at the source file found: no text, or a text together with
/// what the compiler makes of it.
pub enum Reading<P> {
    Unreadable(Seq<char>),
    Text(Seq<char>, Result<P, Seq<char>>),
}

/// What reading a file gave, as a model: the text, or why there is none.
pub open spec fn read_view(read: Result<String, String>) -> Result<Seq<char>, Seq<char>> {
    match read {
        Ok(text) => Ok(text@),
        Err(message) => Err(message@),
    }
}

/// What a refresh finds when the read gave `read` and the compiler makes
/// `compiled` of the text.
pub open spec fn found<P>(read: Result<Seq<char>, Seq<char>>, compiled: Result<P, Seq<char>>) -> Reading<P> {
    match read {
        Ok(text) => Reading::Text(text, compiled),
        Err(message) => Reading::Unreadable(message),
    }
}

/// The model of a `ProgramCache`.
pub struct CacheView<P> {
    /// The text that `program` was compiled from.
    pub source: Seq<char>,
    /// The program that is drawn with.
    pub program: P,
    /// The text that was handed to the compiler last, whether it compiled or
    /// not.
    pub last_source_seen: Option<Seq<char>>,
    /// Whether the latest attempt to read the source file failed.
    pub read_failed: bool,
}

impl<P> CacheView<P> {
    /// The cache right after `text` compiled to `program`.
    pub open spec fn fresh(text: Seq<char>, program: P) -> Self {
        CacheView { source: text, program, last_source_seen: Some(text), read_failed: false }
    }

    /// The cache of a fallback program, after the primary source failed with
    /// `failure`: it remembers the primary text, so that the same text is not
    /// compiled again, or that the primary file could not be read.
    pub open spec fn after_primary_failure(self, failure: Report) -> Self {
        CacheView {
            source: self.source,
            program: self.program,
            last_source_seen: failure.seen(),
            read_failed: failure is Load,
        }
    }

    /// `text` is not the text that the compiler was given last.
    pub open spec fn unseen(self, text: Seq<char>) -> bool {
        self.last_source_seen != Some(text)
    }

    /// The cache after the compiler was given `text`.
    pub open spec fn after_compile(self, text: Seq<char>, compiled: Result<P, Seq<char>>) -> Self {
        match compiled {
            Ok(program) => Self::fresh(text, program),
            Err(_) => CacheView {
                source: self.source,
                program: self.program,
                last_source_seen: Some(text),
                read_failed: false,
            },
        }
    }

    /// The cache after the source file was read, or could not be.
    pub open spec fn noting_read(self, failed: bool) -> Self {
        CacheView {
            source: self.source,
            program: self.program,
            last_source_seen: self.last_source_seen,
            read_failed: failed,
        }
    }

    /// The cache after one refresh that found `reading`.
    pub open spec fn step(self, reading: Reading<P>) -> Self {
        match reading {
            Reading::Unreadable(_) => self.noting_read(true),
            Reading::Text(text, compiled) => if self.unseen(text) {
                self.after_compile(text, compiled)
            } else {
                self.noting_read(false)
            },
        }
    }

    /// What one refresh that found `reading` returns.
    pub open spec fn outcome(self, reading: Reading<P>) -> RefreshOutcome {
        match reading {
            Reading::Unreadable(_) => RefreshOutcome::Unchanged,
            Reading::Text(text, compiled) => if !self.unseen(text) {
                RefreshOutcome::Unchanged
            } else if compiled is Ok {
                RefreshOutcome::Reloaded
            } else {
                RefreshOutcome::FailedKeptPrevious
            },
        }
    }

    /// What one refresh that found `reading` in the file at `path` adds to
    /// the error sink: a text that did not compile is reported once, when it
    /// is compiled; a file that cannot be read is reported when a read fails
    /// after one that did not.
    pub open spec fn reported(self, path: Seq<char>, reading: Reading<P>) -> Seq<Report> {
        match reading {
            Reading::Unreadable(message) => if self.read_failed {
                seq![]
            } else {
                seq![Report::Load { path, message }]
            },
            Reading::Text(text, compiled) => match compiled {
                Err(log) if self.unseen(text) => seq![Report::Compile { path, log, source: text }],
                _ => seq![],
            },
        }
    }
}

/// A source text with the program that it compiled to.
#[derive(Debug)]
struct ProgramEntry<P> {
    source_text: String,
    compiled_program: P,
}

/// The current program, and what is remembered of the source file.
///
/// There is always a current program: a cache is only ever made from one,
/// and a refresh replaces it with another or leaves it alone.
#[derive(Debug)]
pub struct ProgramCache<P> {
    current: ProgramEntry<P>,
    last_source_seen: Option<String>,
    read_failed: bool,
}

impl<P> View for ProgramCache<P> {
    type V = CacheView<P>;

    closed spec fn view(&self) -> CacheView<P> {
        CacheView {
            source: self.current.source_text@,
            program: self.current.compiled_program,
            last_source_seen: match self.last_source_seen {
                Some(text) => Some(text@),
                None => None,
            },
            read_failed: self.read_failed,
        }
    }
}

/// What a compiler is spared: the answer that stands for a text with a NUL
/// character, without the compiler being asked.
pub open spec fn turned_down<P>() -> Result<P, Seq<char>> {
    Err(NUL_IN_SOURCE@)
}

/// The first step of loading the file at `path`: the text that has to go
/// to the compiler, or the diagnostic if there is nothing to compile.
///
/// There is nothing to compile where the file could not be read, and where
/// the text holds a NUL character: such a text counts as one that did not
/// compile, with `NUL_IN_SOURCE` as its log. Every other text is handed
/// back as it is.
pub fn to_compile(path: &str, read: Result<String, String>) -> (next: Result<String, Diagnostic>)
    ensures
        match read_view(read) {
            Err(message) => next matches Err(failure) && failure@ == (Report::Load { path: path@, message }),
            Ok(text) => if nul_free(text) {
                next matches Ok(same) && same@ == text
            } else {
                next matches Err(failure) && failure@ == (Report::Compile {
                    path: path@,
                    log: NUL_IN_SOURCE@,
                    source: text,
                })
            },
        },
{
    match read {
        Err(message) => Err(Diagnostic::ShaderLoadError { path: String::from_str(path), message }),
        Ok(text) => {
            if has_nul(text.as_str()) {
                Err(
                    Diagnostic::ShaderCompileError {
                        path: String::from_str(path),
                        log: String::from_str(NUL_IN_SOURCE),
                        source: text,
                    },
                )
            } else {
                Ok(text)
            }
        },
    }
}

impl<P> ProgramCache<P> {
    /// The cache for a text that was just given to the compiler, or the
    /// diagnostic if it did not compile.
    pub fn from_compiled(path: &str, text: String, compiled: Result<P, String>) -> (made: Result<
        ProgramCache<P>,
        Diagnostic,
    >)
        ensures
            match compiled {
                Ok(program) => made matches Ok(cache) && cache@ == CacheView::fresh(text@, program),
                Err(log) => made matches Err(failure) && failure@ == (Report::Compile {
                    path: path@,
                    log: log@,
                    source: text@,
                }),
            },
    {
        match compiled {
            Ok(program) => {
                let seen = text.clone();
                Ok(
                    ProgramCache {
                        current: ProgramEntry { source_text: text, compiled_program: program },
                        last_source_seen: Some(seen),
                        read_failed: false,
                    },
                )
            },
            Err(log) => Err(
                Diagnostic::ShaderCompileError { path: String::from_str(path), log, source: text },
            ),
        }
    }

    /// Finishes a start whose primary source failed with `primary`. Where
    /// the fallback gave a cache, that cache is the result, it remembers the
    /// primary failure, and the failure goes to the sink. Where the fallback
    /// failed too, there is no cache, and both failures are returned.
    pub fn recover(
        primary: Diagnostic,
        fallback: Result<ProgramCache<P>, Diagnostic>,
        sink: &mut Vec<Diagnostic>,
    ) -> (started: Result<ProgramCache<P>, FatalInitError>)
        ensures
            match fallback {
                Ok(loaded) => {
                    &&& started matches Ok(cache)
                    &&& cache@ == loaded@.after_primary_failure(primary@)
                    &&& reports(final(sink)@) == reports(old(sink)@).push(primary@)
                },
                Err(failure) => {
                    &&& started matches Err(fatal)
                    &&& fatal.primary@ == primary@
                    &&& fatal.fallback@ == failure@
                    &&& reports(final(sink)@) == reports(old(sink)@)
                },
            },
    {
        match fallback {
            Ok(loaded) => {
                let (seen, unreadable) = match &primary {
                    Diagnostic::ShaderLoadError { .. } => (None, true),
                    Diagnostic::ShaderCompileError { source, .. } => (Some(source.clone()), false),
                };
                let cache = ProgramCache {
                    current: loaded.current,
                    last_source_seen: seen,
                    read_failed: unreadable,
                };
                sink.push(primary);
                Ok(cache)
            },
            Err(failure) => Err(FatalInitError { primary, fallback: failure }),
        }
    }

    /// The current program, for one draw.
    pub fn program(&self) -> (program: &P)
        ensures
            *program == self@.program,
    {
        &self.current.compiled_program
    }

    /// The text that the current program was compiled from.
    pub fn source(&self) -> (text: &str)
        ensures
            text@ == self@.source,
    {
        self.current.source_text.as_str()
    }

    /// Takes note of what reading the source file at `path` gave, and says
    /// what is left to do.
    ///
    /// A file that cannot be read changes nothing but the note that it
    /// could not, and is reported to the sink unless the read before had
    /// failed already. A text equal to the one that the compiler was given
    /// last is not compiled again. In both cases the refresh is over and
    /// `Unchanged`. A new text with a NUL character is turned down here, as
    /// one that did not compile: the refresh is over and
    /// `FailedKeptPrevious`. Any other new text has to be compiled, and
    /// nothing changes until its answer comes to `install`.
    pub fn observe(&mut self, path: &str, read: Result<String, String>, sink: &mut Vec<Diagnostic>) -> (next:
        Observed)
        ensures
            match read_view(read) {
                Err(message) => {
                    &&& next == Observed::Settled(RefreshOutcome::Unchanged)
                    &&& final(self)@ == old(self)@.step(Reading::Unreadable(message))
                    &&& reports(final(sink)@) == reports(old(sink)@) + old(self)@.reported(
                        path@,
                        Reading::Unreadable(message),
                    )
                },
                Ok(text) => if !old(self)@.unseen(text) {
                    &&& next == Observed::Settled(RefreshOutcome::Unchanged)
                    &&& final(self)@ == old(self)@.noting_read(false)
                    &&& reports(final(sink)@) == reports(old(sink)@)
                } else if !nul_free(text) {
                    &&& next == Observed::Settled(RefreshOutcome::FailedKeptPrevious)
                    &&& final(self)@ == old(self)@.step(Reading::Text(text, turned_down()))
                    &&& reports(final(sink)@) == reports(old(sink)@) + old(self)@.reported(
                        path@,
                        Reading::Text(text, turned_down()),
                    )
                } else {
                    &&& next matches Observed::Compile(same)
                    &&& same@ == text
                    &&& final(self)@ == old(self)@
                    &&& reports(final(sink)@) == reports(old(sink)@)
                },
            },
    {
        match read {
            Err(message) => {
                if !self.read_failed {
                    let report = Diagnostic::ShaderLoadError { path: String::from_str(path), message };
                    sink.push(report);
                    self.read_failed = true;
                }
                Observed::Settled(RefreshOutcome::Unchanged)
            },
            Ok(text) => {
                let seen = match &self.last_source_seen {
                    Some(last) => *last == text,
                    None => false,
                };
                if seen {
                    self.read_failed = false;
                    Observed::Settled(RefreshOutcome::Unchanged)
                } else if has_nul(text.as_str()) {
                    let outcome = self.install(path, text, Err(String::from_str(NUL_IN_SOURCE)), sink);
                    Observed::Settled(outcome)
                } else {
                    Observed::Compile(text)
                }
            },
        }
    }

    /// Takes what the compiler made of `text`, which was read from `path`.
    ///
    /// A program replaces the current one, and the one it replaces is
    /// dropped. A log leaves the current program and its source as they
    /// are, and goes to the sink with the text. Either way `text` is now the
    /// text that the compiler was given last.
    pub fn install(&mut self, path: &str, text: String, compiled: Result<P, String>, sink: &mut Vec<Diagnostic>) -> (outcome:
        RefreshOutcome)
        ensures
            final(self)@ == old(self)@.after_compile(text@, compiled_view(compiled)),
            outcome == if compiled is Ok {
                RefreshOutcome::Reloaded
            } else {
                RefreshOutcome::FailedKeptPrevious
            },
            reports(final(sink)@) == reports(old(sink)@) + match compiled {
                Ok(_) => Seq::<Report>::empty(),
                Err(log) => seq![Report::Compile { path: path@, log: log@, source: text@ }],
            },
    {
        match compiled {
            Ok(program) => {
                self.last_source_seen = Some(text.clone());
                self.current = ProgramEntry { source_text: text, compiled_program: program };
                self.read_failed = false;
                RefreshOutcome::Reloaded
            },
            Err(log) => {
                self.last_source_seen = Some(text.clone());
                self.read_failed = false;
                let report = Diagnostic::ShaderCompileError {
                    path: String::from_str(path),
                    log,
                    source: text,
                };
                sink.push(report);
                RefreshOutcome::FailedKeptPrevious
            },
        }
    }
}

/// What a refresh finds when the read gave `read` and the compiler answers
/// each text as `driver` says.
pub open spec fn reading<P>(
    read: Result<Seq<char>, Seq<char>>,
    driver: spec_fn(Seq<char>) -> Result<P, Seq<char>>,
) -> Reading<P> {
    match read {
        Ok(text) => found(read, driver(text)),
        Err(_) => found(read, Err(Seq::empty())),
    }
}

/// The cache after one refresh for each of `reads`, in order.
pub open spec fn after_refreshes<P>(
    cache: CacheView<P>,
    reads: Seq<Result<Seq<char>, Seq<char>>>,
    driver: spec_fn(Seq<char>) -> Result<P, Seq<char>>,
) -> CacheView<P>
    decreases reads.len(),
{
    if reads.len() == 0 {
        cache
    } else {
        after_refreshes(cache, reads.drop_last(), driver).step(reading(reads.last(), driver))
    }
}

/// The last text among `reads` that compiles, or `start` if none does.
pub open spec fn latest_valid<P>(
    start: Seq<char>,
    reads: Seq<Result<Seq<char>, Seq<char>>>,
    driver: spec_fn(Seq<char>) -> Result<P, Seq<char>>,
) -> Seq<char>
    decreases reads.len(),
{
    if reads.len() == 0 {
        start
    } else {
        match reads.last() {
            Ok(text) if driver(text) is Ok => text,
            _ => latest_valid(start, reads.drop_last(), driver),
        }
    }
}

/// A refresh in two steps is one refresh: where `observe` hands a text out
/// for compiling, what `install` then makes of the compiler's answer is
/// what `step`, `outcome` and `reported` say of a refresh that found that
/// text and that answer.
pub proof fn lemma_install_completes_the_refresh<P>(
    cache: CacheView<P>,
    path: Seq<char>,
    text: Seq<char>,
    compiled: Result<P, Seq<char>>,
)
    requires
        cache.unseen(text),
    ensures
        cache.step(Reading::Text(text, compiled)) == cache.after_compile(text, compiled),
        cache.outcome(Reading::Text(text, compiled)) == if compiled is Ok {
            RefreshOutcome::Reloaded
        } else {
            RefreshOutcome::FailedKeptPrevious
        },
        cache.reported(path, Reading::Text(text, compiled)) == match compiled {
            Ok(_) => Seq::<Report>::empty(),
            Err(log) => seq![Report::Compile { path, log, source: text }],
        },
{
}

/// The cache agrees with a compiler that answers as `driver` says: its
/// program is the one that its source compiles to, and the text that the
/// compiler was given last is the source, unless that text does not
/// compile.
pub open spec fn coherent<P>(cache: CacheView<P>, driver: spec_fn(Seq<char>) -> Result<P, Seq<char>>)
    -> bool {
    &&& driver(cache.source) == Ok::<P, Seq<char>>(cache.program)
    &&& cache.last_source_seen matches Some(text) ==> (driver(text) is Ok ==> text == cache.source)
}

/// A cache that was made from a text that compiled agrees with the
/// compiler, and so does one that fell back after a primary text that did
/// not compile, or that could not be read.
pub proof fn lemma_start_is_coherent<P>(
    text: Seq<char>,
    program: P,
    failure: Report,
    driver: spec_fn(Seq<char>) -> Result<P, Seq<char>>,
)
    requires
        driver(text) == Ok::<P, Seq<char>>(program),
        failure matches Report::Compile { source, .. } ==> driver(source) is Err,
    ensures
        coherent(CacheView::fresh(text, program), driver),
        coherent(CacheView::fresh(text, program).after_primary_failure(failure), driver),
{
}

/// Over any run of refreshes, with a compiler for which each text either
/// compiles or does not, the cache holds the program of the most recent
/// text that compiled: its source is the last text of the run that compiles,
/// or the text it started with if none does, and its program is the one
/// that this source compiles to.
pub proof fn lemma_program_is_latest_valid<P>(
    cache: CacheView<P>,
    reads: Seq<Result<Seq<char>, Seq<char>>>,
    driver: spec_fn(Seq<char>) -> Result<P, Seq<char>>,
)
    requires
        coherent(cache, driver),
    ensures
        after_refreshes(cache, reads, driver).source == latest_valid(cache.source, reads, driver),
        driver(after_refreshes(cache, reads, driver).source) == Ok::<P, Seq<char>>(
            after_refreshes(cache, reads, driver).program,
        ),
        coherent(after_refreshes(cache, reads, driver), driver),
    decreases reads.len(),
{
    if reads.len() > 0 {
        lemma_program_is_latest_valid(cache, reads.drop_last(), driver);
    }
}

/// After a refresh that kept the previous program because the text did not
/// compile, a refresh that finds the same text compiles nothing: it gives
/// `Unchanged`, changes nothing, and reports nothing, whatever the compiler
/// would say of the text now.
pub proof fn lemma_failed_text_is_not_retried<P>(
    cache: CacheView<P>,
    path: Seq<char>,
    text: Seq<char>,
    first: Result<P, Seq<char>>,
    again: Result<P, Seq<char>>,
)
    requires
        cache.outcome(Reading::Text(text, first)) == RefreshOutcome::FailedKeptPrevious,
    ensures
        ({
            let failed = cache.step(Reading::Text(text, first));
            &&& failed.outcome(Reading::Text(text, again)) == RefreshOutcome::Unchanged
            &&& failed.step(Reading::Text(text, again)) == failed
            &&& failed.reported(path, Reading::Text(text, again)) == Seq::<Report>::empty()
            &&& failed.source == cache.source
            &&& failed.program == cache.program
        }),
{
}

/// After a refresh that kept the previous program, a refresh that finds a
/// text that compiles gives `Reloaded`, and the cache then holds that text
/// and its program.
pub proof fn lemma_valid_text_after_failure_reloads<P>(
    cache: CacheView<P>,
    failing: Seq<char>,
    valid: Seq<char>,
    driver: spec_fn(Seq<char>) -> Result<P, Seq<char>>,
)
    requires
        cache.outcome(reading(Ok(failing), driver)) == RefreshOutcome::FailedKeptPrevious,
        driver(valid) is Ok,
    ensures
        ({
            let failed = cache.step(reading(Ok(failing), driver));
            &&& failed.outcome(reading(Ok(valid), driver)) == RefreshOutcome::Reloaded
            &&& failed.step(reading(Ok(valid), driver)).source == valid
            &&& driver(valid) == Ok::<P, Seq<char>>(failed.step(reading(Ok(valid), driver)).program)
        }),
{
}

/// Whatever a refresh finds, there is a current program afterwards, and it
/// is the one from before unless the refresh gave `Reloaded`; a refresh
/// that gave `Reloaded` found a text that compiled, and holds that text and
/// its program.
pub proof fn lemma_refresh_keeps_or_replaces<P>(cache: CacheView<P>, found: Reading<P>)
    ensures
        cache.outcome(found) != RefreshOutcome::Reloaded ==> cache.step(found).source == cache.source
            && cache.step(found).program == cache.program,
        cache.outcome(found) == RefreshOutcome::Reloaded ==> (found matches Reading::Text(
            text,
            Ok(program),
        ) && cache.step(found) == CacheView::fresh(text, program)),
{
}

} // verus!
