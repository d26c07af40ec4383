use vstd::prelude::*;

verus! {

#[verifier::external_type_specification]
#[verifier::external_body]
pub struct ExRegex(regex::Regex);

#[verifier::external_type_specification]
#[verifier::external_body]
pub struct ExRegexError(regex::Error);

/// Whether `regex::Regex::new` accepts the pattern.
pub uninterp spec fn regex_valid(pattern: Seq<char>) -> bool;

/// The successive non-overlapping leftmost-first matches of a pattern in a text.
pub uninterp spec fn regex_matches(pattern: Seq<char>, text: Seq<char>) -> Seq<Seq<char>>;

/// The text in which every match of the pattern has been replaced, where there is at least one.
pub uninterp spec fn regex_substituted(
    pattern: Seq<char>,
    text: Seq<char>,
    replacement: Seq<char>,
) -> Seq<char>;

/// The result of a global replacement: the text itself when nothing matches.
pub open spec fn replaced_text(pattern: Seq<char>, text: Seq<char>, replacement: Seq<char>) -> Seq<
    char,
> {
    if regex_matches(pattern, text).len() == 0 {
        text
    } else {
        regex_substituted(pattern, text, replacement)
    }
}

/// Whether a pattern matches anywhere in a text.
pub open spec fn found_in(pattern: Seq<char>, text: Seq<char>) -> bool {
    regex_matches(pattern, text).len() > 0
}

/// A compiled regular expression together with the text it was compiled from.
pub struct Pattern {
    re: regex::Regex,
    source: String,
}

/// Why a pattern was refused.
pub struct PatternError {
    pub message: String,
}

impl View for Pattern {
    type V = Seq<char>;

    /// The pattern's source text.
    closed spec fn view(&self) -> Seq<char> {
        self.source@
    }
}

/// Relies on `regex::Regex::new`: it accepts exactly the valid patterns, and
/// the compiled value keeps the source it was given.
#[verifier::external_body]
fn compile(source: &str) -> (r: Result<Pattern, regex::Error>)
    ensures
        r is Ok <==> regex_valid(source@),
        r matches Ok(p) ==> p@ == source@,
{
    match regex::Regex::new(source) {
        Ok(re) => Ok(Pattern { re, source: source.to_string() }),
        Err(e) => Err(e),
    }
}

/// Relies on the `Display` text of `regex::Error`, for messages only.
#[verifier::external_body]
fn error_message(e: &regex::Error) -> String {
    e.to_string()
}

/// Relies on `regex::Regex::is_match`: true if and only if the regex matches
/// anywhere in the haystack, that is when its first match exists.
#[verifier::external_body]
fn regex_is_match(p: &Pattern, text: &str) -> (r: bool)
    ensures
        r == found_in(p@, text@),
{
    p.re.is_match(text)
}

/// Relies on `regex::Regex::find_iter`: the matched substrings, in order.
#[verifier::external_body]
fn regex_find_all(p: &Pattern, text: &str) -> (r: Vec<String>)
    ensures
        r@.map_values(|s: String| s@) == regex_matches(p@, text@),
{
    let mut found = Vec::new();
    for m in p.re.find_iter(text) {
        found.push(m.as_str().to_string());
    }
    found
}

/// Relies on `regex::Regex::replace_all`, which hands back the haystack
/// unchanged when `find_iter` yields nothing.
#[verifier::external_body]
fn regex_replace_all(p: &Pattern, text: &str, replacement: &str) -> (r: String)
    ensures
        regex_matches(p@, text@).len() == 0 ==> r@ == text@,
        regex_matches(p@, text@).len() > 0 ==> r@ == regex_substituted(p@, text@, replacement@),
{
    p.re.replace_all(text, replacement).into_owned()
}

impl Pattern {
    /// Compiles a pattern; fails exactly on the sources the regex engine refuses.
    pub fn new(source: &str) -> (r: Result<Pattern, PatternError>)
        ensures
            r is Ok <==> regex_valid(source@),
            r matches Ok(p) ==> p@ == source@,
    {
        match compile(source) {
            Ok(p) => Ok(p),
            Err(e) => Err(PatternError { message: error_message(&e) }),
        }
    }

    /// The source text of the pattern.
    pub fn as_str(&self) -> (r: &str)
        ensures
            r@ == self@,
    {
        self.source.as_str()
    }

    /// Whether the pattern matches anywhere in `text`.
    pub fn is_match(&self, text: &str) -> (r: bool)
        ensures
            r == found_in(self@, text@),
    {
        regex_is_match(self, text)
    }

    /// The matched substrings of `text`, non-overlapping and in order.
    pub fn find_all(&self, text: &str) -> (r: Vec<String>)
        ensures
            r@.map_values(|s: String| s@) == regex_matches(self@, text@),
    {
        regex_find_all(self, text)
    }

    /// Every match of the pattern in `text` replaced by `replacement`, which
    /// may refer to capture groups as `$name`; `text` itself where nothing matches.
    pub fn replace_all(&self, text: &str, replacement: &str) -> (r: String)
        ensures
            r@ == replaced_text(self@, text@, replacement@),
    {
        regex_replace_all(self, text, replacement)
    }
}

} // verus!
