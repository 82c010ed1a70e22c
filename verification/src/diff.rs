//! The advisory report of what a deployment would change: a line diff with
//! the deployed file as base and the source as target.

use vstd::prelude::*;

verus! {

/// How a line of the report relates the deployed file to the source.
#[derive(Clone, Copy, Debug, PartialEq, Eq, Structural)]
pub enum ChangeKind {
    /// The line is in both.
    Equal,
    /// The line is in the deployed file only: deploying removes it.
    Delete,
    /// The line is in the source only: deploying adds it.
    Insert,
}

/// One line of a diff, with its line ending if it has one.
#[derive(Clone, Debug, PartialEq, Eq)]
pub struct DiffLine {
    pub kind: ChangeKind,
    pub text: String,
}

impl View for DiffLine {
    type V = (ChangeKind, Seq<char>);

    open spec fn view(&self) -> (ChangeKind, Seq<char>) {
        (self.kind, self.text@)
    }
}

/// The views of a vector of diff lines.
pub open spec fn lines_view(v: Seq<DiffLine>) -> Seq<(ChangeKind, Seq<char>)> {
    v.map_values(|l: DiffLine| l@)
}

/// The changes that `similar::TextDiff::from_lines` finds between `old` and
/// `new`, in the order in which `iter_all_changes` yields them.
pub uninterp spec fn line_changes(old: Seq<char>, new: Seq<char>) -> Seq<(ChangeKind, Seq<char>)>;

/// Calls `similar::TextDiff::from_lines` and collects what its
/// `iter_all_changes` yields, each change as its tag and its text.  Trusted:
/// nothing is proved of the diff, and nothing is claimed of it but that it is
/// a function of the two texts alone; it is made with the crate's defaults,
/// which set no deadline.
#[verifier::external_body]
pub(crate) fn diff_lines(old: &str, new: &str) -> (r: Vec<DiffLine>)
    ensures
        lines_view(r@) == line_changes(old@, new@),
{
    similar::TextDiff::from_lines(old, new).iter_all_changes().map(
        |change| DiffLine {
            kind: match change.tag() {
                similar::ChangeTag::Equal => ChangeKind::Equal,
                similar::ChangeTag::Delete => ChangeKind::Delete,
                similar::ChangeTag::Insert => ChangeKind::Insert,
            },
            text: change.value().to_string(),
        },
    ).collect()
}

/// The colour in which a line of the report is shown.
#[derive(Clone, Copy, Debug, PartialEq, Eq, Structural)]
pub enum LineColor {
    Red,
    Green,
    White,
}

/// The sign that a line of the report is shown with.
pub open spec fn sign_of(kind: ChangeKind) -> char {
    match kind {
        ChangeKind::Delete => '-',
        ChangeKind::Insert => '+',
        ChangeKind::Equal => ' ',
    }
}

/// The colour that a line of the report is shown in.
pub open spec fn color_of(kind: ChangeKind) -> LineColor {
    match kind {
        ChangeKind::Delete => LineColor::Red,
        ChangeKind::Insert => LineColor::Green,
        ChangeKind::Equal => LineColor::White,
    }
}

/// The sign and the colour with which a line of this kind is shown.
pub fn marker(kind: ChangeKind) -> (r: (char, LineColor))
    ensures
        r.0 == sign_of(kind),
        r.1 == color_of(kind),
{
    match kind {
        ChangeKind::Delete => ('-', LineColor::Red),
        ChangeKind::Insert => ('+', LineColor::Green),
        ChangeKind::Equal => (' ', LineColor::White),
    }
}

/// A line of the report as it is shown: its sign, then its text, both in
/// its colour.
#[derive(Clone, Debug, PartialEq, Eq)]
pub struct ReportLine {
    pub sign: char,
    pub color: LineColor,
    pub text: String,
}

impl View for ReportLine {
    type V = (char, LineColor, Seq<char>);

    open spec fn view(&self) -> (char, LineColor, Seq<char>) {
        (self.sign, self.color, self.text@)
    }
}

/// How the changes are shown: each with the sign and colour of its kind, in
/// the order of the changes.
pub open spec fn rendering_of(changes: Seq<(ChangeKind, Seq<char>)>) -> Seq<
    (char, LineColor, Seq<char>),
> {
    changes.map_values(|c: (ChangeKind, Seq<char>)| (sign_of(c.0), color_of(c.0), c.1))
}

/// The lines of the report for `changes`, as they are shown.
pub fn render(changes: &Vec<DiffLine>) -> (r: Vec<ReportLine>)
    ensures
        r@.map_values(|l: ReportLine| l@) == rendering_of(lines_view(changes@)),
{
    let mut out: Vec<ReportLine> = Vec::new();
    let mut i: usize = 0;
    while i < changes.len()
        invariant
            i <= changes@.len(),
            out@.len() == i,
            forall|j: int|
                0 <= j < i ==> (#[trigger] out@[j])@ == (
                    sign_of(changes@[j].kind),
                    color_of(changes@[j].kind),
                    changes@[j].text@,
                ),
        decreases changes@.len() - i,
    {
        let (sign, color) = marker(changes[i].kind);
        out.push(ReportLine { sign, color, text: changes[i].text.clone() });
        i += 1;
    }
    assert(out@.map_values(|l: ReportLine| l@) =~= rendering_of(lines_view(changes@)));
    out
}

/// What was read of a file for the report.
#[derive(Clone, Debug, PartialEq, Eq)]
pub enum FileText {
    /// The file does not exist.
    Missing,
    /// The file exists but is not text that can be read.
    Unreadable,
    /// The content of the file.
    Text(String),
}

/// Which of the two files of a report.
#[derive(Clone, Copy, Debug, PartialEq, Eq, Structural)]
pub enum Side {
    Source,
    Destination,
}

/// The report for one tracked file.
#[derive(Clone, Debug, PartialEq, Eq)]
pub enum FileDiff {
    /// The source or the deployed file does not exist: nothing to compare.
    Skipped,
    /// Both exist, but this one could not be read as text.  The pass goes on.
    ReadFailed(Side),
    /// The changes that deploying would make to the deployed file.
    Changes(Vec<DiffLine>),
}

/// A report as contracts see it.
pub enum FileDiffView {
    Skipped,
    ReadFailed(Side),
    Changes(Seq<(ChangeKind, Seq<char>)>),
}

impl View for FileDiff {
    type V = FileDiffView;

    open spec fn view(&self) -> FileDiffView {
        match self {
            FileDiff::Skipped => FileDiffView::Skipped,
            FileDiff::ReadFailed(side) => FileDiffView::ReadFailed(*side),
            FileDiff::Changes(lines) => FileDiffView::Changes(lines_view(lines@)),
        }
    }
}

/// The report for a file of which `source` and `destination` were read: none
/// unless both exist; a read failure, that of the source first, where one of
/// them is not text; else the line changes from the deployed text to the
/// source text.
pub open spec fn report_of(source: FileText, destination: FileText) -> FileDiffView {
    if source is Missing || destination is Missing {
        FileDiffView::Skipped
    } else if source is Unreadable {
        FileDiffView::ReadFailed(Side::Source)
    } else if destination is Unreadable {
        FileDiffView::ReadFailed(Side::Destination)
    } else {
        FileDiffView::Changes(line_changes(destination->Text_0@, source->Text_0@))
    }
}

/// The diff report for one tracked file, from what was read of its source and
/// of its deployed copy.  The deployed copy is the base and the source the
/// target: the report says what deploying now would change.
pub fn show_diff(source: &FileText, destination: &FileText) -> (r: FileDiff)
    ensures
        r@ == report_of(*source, *destination),
{
    match (source, destination) {
        (FileText::Missing, _) => FileDiff::Skipped,
        (_, FileText::Missing) => FileDiff::Skipped,
        (FileText::Unreadable, _) => FileDiff::ReadFailed(Side::Source),
        (_, FileText::Unreadable) => FileDiff::ReadFailed(Side::Destination),
        (FileText::Text(source_content), FileText::Text(dest_content)) => FileDiff::Changes(
            diff_lines(dest_content.as_str(), source_content.as_str()),
        ),
    }
}

} // verus!
