use vstd::prelude::*;
use vstd::utf8::{decode_utf8, valid_utf8};

verus! {

/// What the decoder makes of bytes that are not valid UTF-8.
pub uninterp spec fn lossy_decoded(bytes: Seq<u8>) -> Seq<char>;

/// The text read from a file's bytes: exact where they are valid UTF-8,
/// with replacement characters otherwise.
pub open spec fn decoded_text(bytes: Seq<u8>) -> Seq<char> {
    if valid_utf8(bytes) {
        decode_utf8(bytes)
    } else {
        lossy_decoded(bytes)
    }
}

/// Relies on `String::from_utf8_lossy`: valid UTF-8 comes back as the same text.
#[verifier::external_body]
fn from_utf8_lossy(bytes: &[u8]) -> (r: String)
    ensures
        valid_utf8(bytes@) ==> r@ == decode_utf8(bytes@),
        !valid_utf8(bytes@) ==> r@ == lossy_decoded(bytes@),
{
    String::from_utf8_lossy(bytes).into_owned()
}

/// Decodes a file's bytes as text, replacing invalid sequences.
pub fn decode_lossy(bytes: &[u8]) -> (r: String)
    ensures
        r@ == decoded_text(bytes@),
{
    from_utf8_lossy(bytes)
}

/// The role of one line in a line diff.
#[derive(Clone, Copy, Debug, PartialEq, Eq, Structural)]
pub enum LineTag {
    Kept,
    Removed,
    Added,
}

/// One line of a line diff.
#[derive(Clone, Debug)]
pub struct DiffLine {
    pub tag: LineTag,
    pub text: String,
}

impl View for DiffLine {
    type V = (LineTag, Seq<char>);

    open spec fn view(&self) -> (LineTag, Seq<char>) {
        (self.tag, self.text@)
    }
}

/// The view of a sequence of diff lines.
pub open spec fn lines_view(v: Seq<DiffLine>) -> Seq<(LineTag, Seq<char>)> {
    v.map_values(|d: DiffLine| d@)
}

/// The edit script between the lines of two texts, kept lines included.
pub uninterp spec fn line_diff_of(left: Seq<char>, right: Seq<char>) -> Seq<(LineTag, Seq<char>)>;

/// The lines of an edit script that are removed or added, in order.
pub open spec fn edit_lines(s: Seq<(LineTag, Seq<char>)>) -> Seq<(LineTag, Seq<char>)>
    decreases s.len(),
{
    if s.len() == 0 {
        s
    } else {
        let rest = edit_lines(s.drop_last());
        if s.last().0 == LineTag::Kept {
            rest
        } else {
            rest.push(s.last())
        }
    }
}

/// Relies on `diff::lines`: the longest-common-subsequence edit script
/// between the lines of `left` and those of `right`.
#[verifier::external_body]
fn diff_lines(left: &str, right: &str) -> (r: Vec<DiffLine>)
    ensures
        lines_view(r@) == line_diff_of(left@, right@),
{
    let mut out = Vec::new();
    for d in diff::lines(left, right) {
        out.push(
            match d {
                diff::Result::Left(l) => DiffLine { tag: LineTag::Removed, text: l.to_string() },
                diff::Result::Both(l, _) => DiffLine { tag: LineTag::Kept, text: l.to_string() },
                diff::Result::Right(r) => DiffLine { tag: LineTag::Added, text: r.to_string() },
            },
        );
    }
    out
}

/// The removed and added lines between two texts, in the order of the edit
/// script; kept lines are left out.
pub fn changed_lines(left: &str, right: &str) -> (r: Vec<DiffLine>)
    ensures
        lines_view(r@) == edit_lines(line_diff_of(left@, right@)),
{
    let all = diff_lines(left, right);
    let mut out: Vec<DiffLine> = Vec::new();
    let mut i: usize = 0;
    while i < all.len()
        invariant
            i <= all@.len(),
            lines_view(all@) == line_diff_of(left@, right@),
            lines_view(out@) == edit_lines(lines_view(all@).subrange(0, i as int)),
        decreases all@.len() - i,
    {
        let ghost s = lines_view(all@);
        assert(s.subrange(0, i + 1).drop_last() =~= s.subrange(0, i as int));
        let d = &all[i];
        if d.tag != LineTag::Kept {
            let ghost before = out@;
            out.push(DiffLine { tag: d.tag, text: d.text.clone() });
            assert(lines_view(out@) =~= lines_view(before).push(s[i as int]));
        }
        i = i + 1;
    }
    assert(lines_view(all@).subrange(0, all@.len() as int) =~= lines_view(all@));
    out
}

} // verus!
