//! The scanned form of a path expression: struct references, field paths and
//! the entry that pairs them, each with the plain-value model that contracts
//! speak of.

use vstd::prelude::*;
use crate::options::Options;
use crate::text::joined;

verus! {

/// The operator that joins a field segment to the one before it.
#[derive(Clone, Copy, Debug, PartialEq, Eq, Structural)]
pub enum JoinOp {
    /// `.`: plain traversal into a nested record.
    Required,
    /// `~`: traversal through an optional field. Accepted only where the
    /// syntax enables it; it is written out exactly as `.` is.
    Optional,
}

/// One field name of a path, tagged with the operator written before it.
#[derive(Clone, Debug, PartialEq, Eq)]
pub struct Segment {
    /// `None` for the first segment of a path, `Some` for every later one.
    pub join: Option<JoinOp>,
    pub name: String,
}

/// A `Segment` as plain values.
pub struct SegmentModel {
    pub join: Option<JoinOp>,
    pub name: Seq<char>,
}

impl DeepView for Segment {
    type V = SegmentModel;

    open spec fn deep_view(&self) -> SegmentModel {
        SegmentModel { join: self.join, name: self.name@ }
    }
}

/// The navigation from a record into a nested value: field names in order.
#[derive(Clone, Debug, PartialEq, Eq)]
pub struct FieldPath {
    pub segments: Vec<Segment>,
}

/// A `FieldPath` as plain values.
pub struct PathModel {
    pub segments: Seq<SegmentModel>,
}

/// At least one segment; the first without an operator, each later one with one.
pub open spec fn well_joined(segments: Seq<SegmentModel>) -> bool {
    &&& segments.len() >= 1
    &&& forall|i: int|
        0 <= i < segments.len() ==> ((#[trigger] segments[i]).join is None <==> i == 0)
}

impl PathModel {
    /// The field names alone, in order.
    pub open spec fn names(self) -> Seq<Seq<char>> {
        Seq::new(self.segments.len(), |i: int| self.segments[i].name)
    }

    /// The path as it is written with `.` between its segments.
    pub open spec fn dotted(self) -> Seq<char> {
        joined(self.names(), "."@)
    }

    /// At least one segment; the first without an operator, each later one with one.
    pub open spec fn well_formed(self) -> bool {
        well_joined(self.segments)
    }
}

impl DeepView for FieldPath {
    type V = PathModel;

    open spec fn deep_view(&self) -> PathModel {
        PathModel { segments: self.segments.deep_view() }
    }
}

/// The qualified name of a record type, one identifier per segment.
#[derive(Clone, Debug, PartialEq, Eq)]
pub struct StructReference {
    pub segments: Vec<String>,
}

/// The segments written with `::` between them.
pub open spec fn qualified_name(segments: Seq<Seq<char>>) -> Seq<char> {
    joined(segments, "::"@)
}

impl DeepView for StructReference {
    type V = Seq<Seq<char>>;

    open spec fn deep_view(&self) -> Seq<Seq<char>> {
        self.segments.deep_view()
    }
}

/// A struct reference with the field paths addressed on it.
#[derive(Clone, Debug, PartialEq, Eq)]
pub struct StructEntry {
    pub reference: StructReference,
    pub paths: Vec<FieldPath>,
}

/// A `StructEntry` as plain values.
pub struct EntryModel {
    pub reference: Seq<Seq<char>>,
    pub paths: Seq<PathModel>,
}

impl EntryModel {
    /// A named struct with at least one path, each path well formed.
    pub open spec fn well_formed(self) -> bool {
        &&& self.reference.len() >= 1
        &&& self.paths.len() >= 1
        &&& forall|i: int| 0 <= i < self.paths.len() ==> (#[trigger] self.paths[i]).well_formed()
    }
}

impl DeepView for StructEntry {
    type V = EntryModel;

    open spec fn deep_view(&self) -> EntryModel {
        EntryModel { reference: self.reference.deep_view(), paths: self.paths.deep_view() }
    }
}

/// Whether the output is one string or a sequence of strings.
#[derive(Clone, Copy, Debug, PartialEq, Eq, Structural)]
pub enum OutputShape {
    Scalar,
    Collection,
}

/// Everything a scan yields: the entries in the order written, the options,
/// and the shape of the output.
#[derive(Clone, Debug)]
pub struct ParsedExpression {
    pub entries: Vec<StructEntry>,
    pub options: Options,
    pub shape: OutputShape,
}

/// A `ParsedExpression` as plain values.
pub struct ExpressionModel {
    pub entries: Seq<EntryModel>,
    pub options: Map<Seq<char>, Seq<char>>,
    pub shape: OutputShape,
}

impl ExpressionModel {
    /// At least one entry, each entry well formed.
    pub open spec fn well_formed(self) -> bool {
        &&& self.entries.len() >= 1
        &&& forall|i: int|
            0 <= i < self.entries.len() ==> (#[trigger] self.entries[i]).well_formed()
    }
}

impl DeepView for ParsedExpression {
    type V = ExpressionModel;

    open spec fn deep_view(&self) -> ExpressionModel {
        ExpressionModel {
            entries: self.entries.deep_view(),
            options: self.options@,
            shape: self.shape,
        }
    }
}

/// Every path of every entry, in the order written.
pub open spec fn all_paths(entries: Seq<EntryModel>) -> Seq<PathModel>
    decreases entries.len(),
{
    if entries.len() == 0 {
        Seq::empty()
    } else {
        all_paths(entries.drop_last()) + entries.last().paths
    }
}

/// The field names of all the paths, one after another.
pub open spec fn all_names(paths: Seq<PathModel>) -> Seq<Seq<char>>
    decreases paths.len(),
{
    if paths.len() == 0 {
        Seq::empty()
    } else {
        all_names(paths.drop_last()) + paths.last().names()
    }
}

} // verus!
