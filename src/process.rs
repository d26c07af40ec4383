use vstd::prelude::*;
use crate::pattern::{found_in, regex_matches, regex_valid, replaced_text, Pattern, PatternError};
use crate::text::{
    decode_lossy, decoded_text, edit_lines, line_diff_of, lines_view, changed_lines, DiffLine,
    LineTag,
};

verus! {

/// Report matches only, or rewrite them with a replacement.
pub enum Mode {
    Report,
    Replace(String),
}

/// The validated settings of one run.
pub struct Config {
    pub content: Pattern,
    pub path_filter: Option<Pattern>,
    pub mode: Mode,
    pub show_diff: bool,
}

/// The settings of a run as sources and flags.
pub struct ConfigView {
    pub content: Seq<char>,
    pub path_filter: Option<Seq<char>>,
    pub replacement: Option<Seq<char>>,
    pub show_diff: bool,
}

/// Which pattern failed to compile, and why.
pub enum ConfigError {
    PathPattern(PatternError),
    ContentPattern(PatternError),
}

/// What processing one file came to.
pub enum FileOutcome {
    /// The path filter left the file out; it was not read.
    Skipped,
    /// Report mode: the number of matches, and the matched texts when they are to be shown.
    Matched { count: usize, shown: Vec<String> },
    /// Replace mode: the text stays as it was, so nothing is written.
    Unchanged,
    /// Replace mode: the new text to write, and the changed lines when they are to be shown.
    Changed { new_text: String, diff: Vec<DiffLine> },
}

/// The view of a file outcome.
pub enum OutcomeView {
    Skipped,
    Matched { count: nat, shown: Seq<Seq<char>> },
    Unchanged,
    Changed { new_text: Seq<char>, diff: Seq<(LineTag, Seq<char>)> },
}

pub open spec fn opt_chars(o: Option<String>) -> Option<Seq<char>> {
    match o {
        Some(s) => Some(s@),
        None => None,
    }
}

pub open spec fn strings_view(v: Seq<String>) -> Seq<Seq<char>> {
    v.map_values(|s: String| s@)
}

impl View for Config {
    type V = ConfigView;

    open spec fn view(&self) -> ConfigView {
        ConfigView {
            content: self.content@,
            path_filter: match self.path_filter {
                Some(p) => Some(p@),
                None => None,
            },
            replacement: match self.mode {
                Mode::Report => None,
                Mode::Replace(s) => Some(s@),
            },
            show_diff: self.show_diff,
        }
    }
}

impl View for FileOutcome {
    type V = OutcomeView;

    open spec fn view(&self) -> OutcomeView {
        match self {
            FileOutcome::Skipped => OutcomeView::Skipped,
            FileOutcome::Matched { count, shown } => OutcomeView::Matched {
                count: *count as nat,
                shown: strings_view(shown@),
            },
            FileOutcome::Unchanged => OutcomeView::Unchanged,
            FileOutcome::Changed { new_text, diff } => OutcomeView::Changed {
                new_text: new_text@,
                diff: lines_view(diff@),
            },
        }
    }
}

/// Whether a path passes the optional path filter.
pub open spec fn path_selected(filter: Option<Seq<char>>, path: Seq<char>) -> bool {
    match filter {
        None => true,
        Some(f) => found_in(f, path),
    }
}

/// What a file's text comes to under a configuration.
pub open spec fn text_outcome(c: ConfigView, text: Seq<char>) -> OutcomeView {
    match c.replacement {
        None => {
            let m = regex_matches(c.content, text);
            OutcomeView::Matched {
                count: m.len(),
                shown: if c.show_diff {
                    m
                } else {
                    seq![]
                },
            }
        },
        Some(rep) => {
            let new_text = replaced_text(c.content, text, rep);
            if new_text == text {
                OutcomeView::Unchanged
            } else {
                OutcomeView::Changed {
                    new_text,
                    diff: if c.show_diff {
                        edit_lines(line_diff_of(text, new_text))
                    } else {
                        seq![]
                    },
                }
            }
        },
    }
}

/// A file counts towards the total when it was changed, or had a match.
pub open spec fn outcome_success(o: OutcomeView) -> bool {
    match o {
        OutcomeView::Matched { count, .. } => count > 0,
        OutcomeView::Changed { .. } => true,
        _ => false,
    }
}

impl FileOutcome {
    /// Whether this outcome counts towards the run's total.
    pub fn is_success(&self) -> (r: bool)
        ensures
            r == outcome_success(self@),
    {
        match self {
            FileOutcome::Matched { count, .. } => *count > 0,
            FileOutcome::Changed { .. } => true,
            _ => false,
        }
    }
}

impl Config {
    /// Compiles the optional path pattern, then the content pattern; the
    /// first that fails to compile is the error.
    pub fn new(
        text_pattern: &str,
        file_pattern: Option<String>,
        replacement: Option<String>,
        show_diff: bool,
    ) -> (r: Result<Config, ConfigError>)
        ensures
            r matches Err(ConfigError::PathPattern(_)) <==> (file_pattern matches Some(f)
                && !regex_valid(f@)),
            r matches Err(ConfigError::ContentPattern(_)) <==> (!(file_pattern matches Some(f)
                && !regex_valid(f@)) && !regex_valid(text_pattern@)),
            r matches Ok(c) ==> c@ == (ConfigView {
                content: text_pattern@,
                path_filter: opt_chars(file_pattern),
                replacement: opt_chars(replacement),
                show_diff,
            }),
    {
        let path_filter = match file_pattern {
            Some(f) => match Pattern::new(f.as_str()) {
                Ok(p) => Some(p),
                Err(e) => {
                    return Err(ConfigError::PathPattern(e));
                },
            },
            None => None,
        };
        let content = match Pattern::new(text_pattern) {
            Ok(p) => p,
            Err(e) => {
                return Err(ConfigError::ContentPattern(e));
            },
        };
        let mode = match replacement {
            Some(s) => Mode::Replace(s),
            None => Mode::Report,
        };
        Ok(Config { content, path_filter, mode, show_diff })
    }

    /// Files are processed in parallel unless diffs are shown, which keeps
    /// their output in order.
    pub fn parallel(&self) -> (r: bool)
        ensures
            r == !self.show_diff,
    {
        !self.show_diff
    }

    /// Whether a file with this path is to be read at all.
    pub fn path_matches(&self, path: &str) -> (r: bool)
        ensures
            r == path_selected(self@.path_filter, path@),
    {
        match &self.path_filter {
            Some(p) => p.is_match(path),
            None => true,
        }
    }

    /// What a file's text comes to: its matches in report mode, or in replace
    /// mode the new text if it differs from the old.
    pub fn process_text(&self, text: &str) -> (r: FileOutcome)
        ensures
            r@ == text_outcome(self@, text@),
    {
        match &self.mode {
            Mode::Report => {
                let found = self.content.find_all(text);
                let count = found.len();
                let shown = if self.show_diff {
                    found
                } else {
                    Vec::new()
                };
                proof {
                    assert(strings_view(Seq::<String>::empty()) =~= seq![]);
                }
                FileOutcome::Matched { count, shown }
            },
            Mode::Replace(rep) => {
                let new_text = self.content.replace_all(text, rep.as_str());
                let old_text = text.to_string();
                if new_text == old_text {
                    FileOutcome::Unchanged
                } else {
                    let diff = if self.show_diff {
                        changed_lines(text, new_text.as_str())
                    } else {
                        Vec::new()
                    };
                    proof {
                        assert(lines_view(Seq::<DiffLine>::empty()) =~= seq![]);
                    }
                    FileOutcome::Changed { new_text, diff }
                }
            },
        }
    }

    /// What a file's bytes come to once decoded as text.
    pub fn process_bytes(&self, bytes: &[u8]) -> (r: FileOutcome)
        ensures
            r@ == text_outcome(self@, decoded_text(bytes@)),
    {
        let text = decode_lossy(bytes);
        self.process_text(text.as_str())
    }
}

} // verus!
