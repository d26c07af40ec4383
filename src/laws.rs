use vstd::prelude::*;
use vstd::utf8::{encode_utf8, encode_utf8_decode_utf8, encode_utf8_valid_utf8, valid_utf8};
use crate::aggregate::{result_success, success_count};
use crate::pattern::{found_in, regex_matches, replaced_text};
use crate::aggregate::FileError;
use crate::process::{outcome_success, path_selected, text_outcome, ConfigView, FileOutcome, OutcomeView};
use crate::text::decoded_text;

verus! {

/// The text a file holds after one run: the new text where it changed.
pub open spec fn content_after(c: ConfigView, text: Seq<char>) -> Seq<char> {
    match text_outcome(c, text) {
        OutcomeView::Changed { new_text, .. } => new_text,
        _ => text,
    }
}

/// In report mode a file's count is the number of non-overlapping matches of
/// the content pattern, and the file counts towards the total exactly when
/// that number is positive.
pub proof fn report_count_is_match_count(c: ConfigView, text: Seq<char>)
    requires
        c.replacement is None,
    ensures
        text_outcome(c, text) matches OutcomeView::Matched { count, .. } && count == regex_matches(
            c.content,
            text,
        ).len(),
        outcome_success(text_outcome(c, text)) <==> regex_matches(c.content, text).len() > 0,
{
}

/// In replace mode a file in which the pattern finds nothing is left
/// unchanged, so nothing is written to it.
pub proof fn no_match_is_unchanged(c: ConfigView, text: Seq<char>)
    requires
        c.replacement is Some,
        regex_matches(c.content, text).len() == 0,
    ensures
        text_outcome(c, text) == OutcomeView::Unchanged,
        !outcome_success(text_outcome(c, text)),
{
}

/// Replacing twice gives what replacing once gives, when the pattern finds
/// nothing in the text the first replacement produced.
pub proof fn replace_is_idempotent(c: ConfigView, text: Seq<char>)
    requires
        c.replacement is Some,
        regex_matches(c.content, content_after(c, text)).len() == 0,
    ensures
        content_after(c, content_after(c, text)) == content_after(c, text),
        text_outcome(c, content_after(c, text)) == OutcomeView::Unchanged,
{
}

/// A file whose path the path pattern does not match is not selected for
/// reading, whatever it holds.
pub proof fn filtered_path_is_skipped(c: ConfigView, path: Seq<char>)
    requires
        c.path_filter matches Some(f) && !found_in(f, path),
    ensures
        !path_selected(c.path_filter, path),
{
}

/// The text written for a changed file is what the global replacement
/// computes from the old text, and reading the written bytes back gives that
/// text again.
pub proof fn changed_text_round_trips(c: ConfigView, text: Seq<char>)
    requires
        text_outcome(c, text) is Changed,
    ensures
        c.replacement matches Some(rep) && content_after(c, text) == replaced_text(
            c.content,
            text,
            rep,
        ),
        valid_utf8(encode_utf8(content_after(c, text))),
        decoded_text(encode_utf8(content_after(c, text))) == content_after(c, text),
{
    encode_utf8_valid_utf8(content_after(c, text));
    encode_utf8_decode_utf8(content_after(c, text));
}

/// A run in which no file counts has a total of zero.
pub proof fn no_success_means_zero_total(results: Seq<Result<FileOutcome, FileError>>)
    requires
        forall|i: int| 0 <= i < results.len() ==> !result_success(#[trigger] results[i]),
    ensures
        success_count(results) == 0,
    decreases results.len(),
{
    if results.len() > 0 {
        no_success_means_zero_total(results.drop_last());
    }
}

} // verus!
