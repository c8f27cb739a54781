//! The phases of a scan and the ways a path expression can be rejected.

use vstd::prelude::*;
use crate::model::JoinOp;

verus! {

/// Where a scan stands: what has been read of the current construct, and so
/// which tokens may follow.
#[derive(Clone, Copy, Debug, PartialEq, Eq, Structural)]
pub enum Phase {
    /// At the start of a struct entry: the first identifier of its reference is due.
    EntryStart,
    /// The first identifier of the reference is read: `::` is due.
    StructName,
    /// The first `:` of a `::` is read.
    StructColon,
    /// A `::` is complete: an identifier or a group is due.
    FieldOpen,
    /// One identifier follows the `::`. It is the first field segment unless
    /// another `::` follows, which makes it part of the struct reference.
    FieldFirst,
    /// A join operator is read: a field name is due.
    FieldJoin(JoinOp),
    /// A second or later field segment is read.
    FieldSegment,
    /// A group has supplied the paths of the entry.
    GroupClosed,
    /// In the options: an option name is due.
    OptionName,
    /// An option name is read: `=` is due.
    OptionAssign,
    /// `=` is read: the value is due.
    OptionValue,
    /// An option is complete: `,` or the end may follow.
    OptionEnd,
    /// Inside a group: the first identifier of a member is due.
    GroupMember,
    /// Inside a group: a segment of a member is read.
    GroupSegment,
    /// Inside a group: a join operator is read, a field name is due.
    GroupJoin(JoinOp),
}

/// Why a path expression was rejected. Nothing is produced for a rejected
/// expression.
#[derive(Clone, Copy, Debug, PartialEq, Eq, Structural)]
pub enum PathError {
    /// The token at `index` cannot follow in `phase`. An `index` equal to the
    /// number of tokens means that the input ended where more was due. For a
    /// token inside a group, the scan of the whole expression gives the index
    /// of the group and the phase reached inside it.
    UnexpectedToken { index: usize, phase: Phase },
    /// A struct entry was closed with no field path.
    EmptyEntry,
    /// A group with no member.
    EmptyGroup,
    /// There is no field path to write out.
    EmptyOutput,
    /// The `case` option has a value other than `camel` and `pascal`.
    UnknownOptionValue,
    /// The input ended, or a `:` came, where a struct name was still due.
    MissingStructName,
}

} // verus!
