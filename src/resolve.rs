use vstd::prelude::*;
use crate::process::strings_view;

verus! {

/// What the file system says a user-supplied input is.
#[derive(Clone, Copy, Debug, PartialEq, Eq, Structural)]
pub enum InputKind {
    Missing,
    File,
    Dir,
    Other,
}

/// One user-supplied input: its path as text, `None` where it is not valid
/// text, and what it is.
pub struct InputProbe {
    pub path: Option<String>,
    pub kind: InputKind,
}

/// What to do with one input.
pub enum InputAction {
    /// Process this file.
    Include(String),
    /// Walk this directory and process every file under it.
    Walk(String),
    /// Warn that the input at this index does not exist.
    Missing(usize),
    /// Warn that the input at this index is neither a file nor a directory.
    Unsupported(usize),
}

/// One entry met while walking a directory.
pub enum WalkEntry {
    /// The walk could not read this entry.
    Unreadable,
    /// An entry, whether it is a regular file, and its path where it is valid text.
    Found { is_file: bool, path: Option<String> },
}

/// An input that exists but whose path is not valid text.
pub open spec fn not_text(p: InputProbe) -> bool {
    p.kind != InputKind::Missing && p.path is None
}

/// The action owed to the input `p` at index `i`, which is not `not_text`.
pub open spec fn action_for(a: InputAction, i: int, p: InputProbe) -> bool {
    match p.kind {
        InputKind::Missing => a == InputAction::Missing(i as usize),
        InputKind::File => a matches InputAction::Include(s) && Some(s@) == opt_view(p.path),
        InputKind::Dir => a matches InputAction::Walk(s) && Some(s@) == opt_view(p.path),
        InputKind::Other => a == InputAction::Unsupported(i as usize),
    }
}

pub open spec fn opt_view(o: Option<String>) -> Option<Seq<char>> {
    match o {
        Some(s) => Some(s@),
        None => None,
    }
}

/// The directory walked when no input is given.
pub open spec fn current_dir() -> Seq<char> {
    seq!['.', '/']
}

/// Decides what to do with each input, in order. With no input the current
/// directory is walked. An input that exists but whose path is not valid text
/// is an error, reported by its index: the first such one. Overlapping inputs
/// are not merged: a file reached from two inputs is processed twice.
pub fn plan_inputs(inputs: &Vec<InputProbe>) -> (r: Result<Vec<InputAction>, usize>)
    ensures
        inputs@.len() == 0 ==> match r {
            Ok(v) => v@.len() == 1 && (v@[0] matches InputAction::Walk(d) && d@ == current_dir()),
            Err(_) => false,
        },
        inputs@.len() > 0 ==> match r {
            Ok(v) => {
                &&& forall|i: int| 0 <= i < inputs@.len() ==> !not_text(#[trigger] inputs@[i])
                &&& v@.len() == inputs@.len()
                &&& forall|i: int|
                    0 <= i < inputs@.len() ==> action_for(#[trigger] v@[i], i, inputs@[i])
            },
            Err(k) => {
                &&& k < inputs@.len()
                &&& not_text(inputs@[k as int])
                &&& forall|j: int| 0 <= j < k ==> !not_text(#[trigger] inputs@[j])
            },
        },
{
    let mut out: Vec<InputAction> = Vec::new();
    if inputs.len() == 0 {
        let d = "./".to_string();
        proof {
            reveal_strlit("./");
            assert(d@ =~= current_dir());
        }
        out.push(InputAction::Walk(d));
        return Ok(out);
    }
    let mut i: usize = 0;
    while i < inputs.len()
        invariant
            i <= inputs@.len(),
            out@.len() == i,
            forall|j: int| 0 <= j < i ==> !not_text(#[trigger] inputs@[j]),
            forall|j: int| 0 <= j < i ==> action_for(#[trigger] out@[j], j, inputs@[j]),
        decreases inputs@.len() - i,
    {
        let p = &inputs[i];
        let a = match p.kind {
            InputKind::Missing => InputAction::Missing(i),
            InputKind::Other => {
                if p.path.is_none() {
                    return Err(i);
                }
                InputAction::Unsupported(i)
            },
            InputKind::File => match &p.path {
                Some(s) => InputAction::Include(s.clone()),
                None => {
                    return Err(i);
                },
            },
            InputKind::Dir => match &p.path {
                Some(s) => InputAction::Walk(s.clone()),
                None => {
                    return Err(i);
                },
            },
        };
        out.push(a);
        i = i + 1;
    }
    Ok(out)
}

/// The paths of the regular files among walk entries, in order; unreadable
/// entries and paths that are not valid text are left out.
pub open spec fn walk_files(s: Seq<WalkEntry>) -> Seq<Seq<char>>
    decreases s.len(),
{
    if s.len() == 0 {
        seq![]
    } else {
        let rest = walk_files(s.drop_last());
        match s.last() {
            WalkEntry::Found { is_file: true, path: Some(p) } => rest.push(p@),
            _ => rest,
        }
    }
}

/// The indices of the regular files among walk entries whose path is not
/// valid text, in order.
pub open spec fn non_text_files(s: Seq<WalkEntry>) -> Seq<usize>
    decreases s.len(),
{
    if s.len() == 0 {
        seq![]
    } else {
        let rest = non_text_files(s.drop_last());
        match s.last() {
            WalkEntry::Found { is_file: true, path: None } => rest.push((s.len() - 1) as usize),
            _ => rest,
        }
    }
}

/// Appends to `files` the paths of the regular files among the entries of a
/// directory walk, and returns the indices of the regular files whose path is
/// not valid text, each of which is a per-file error for the caller to report.
pub fn collect_files(entries: &Vec<WalkEntry>, files: &mut Vec<String>) -> (r: Vec<usize>)
    ensures
        strings_view(final(files)@) == strings_view(old(files)@) + walk_files(entries@),
        r@ == non_text_files(entries@),
{
    let ghost start = strings_view(files@);
    let mut bad: Vec<usize> = Vec::new();
    let mut i: usize = 0;
    while i < entries.len()
        invariant
            i <= entries@.len(),
            strings_view(files@) == start + walk_files(entries@.subrange(0, i as int)),
            bad@ == non_text_files(entries@.subrange(0, i as int)),
        decreases entries@.len() - i,
    {
        assert(entries@.subrange(0, i + 1).drop_last() =~= entries@.subrange(0, i as int));
        match &entries[i] {
            WalkEntry::Found { is_file: true, path: Some(p) } => {
                let ghost before = files@;
                files.push(p.clone());
                assert(strings_view(files@) =~= strings_view(before).push(p@));
            },
            WalkEntry::Found { is_file: true, path: None } => {
                bad.push(i);
            },
            _ => {},
        }
        i = i + 1;
    }
    assert(entries@.subrange(0, entries@.len() as int) =~= entries@);
    bad
}

} // verus!
