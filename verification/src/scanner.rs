//! The scanner: one pass over the tokens of a path expression, one transition
//! per token, with no look-ahead and no backtracking.
//!
//! The grammar it accepts:
//!
//! ```text
//! expression ::= entry ("," entry)* (";" option ("," option)*)?
//! entry      ::= ident ("::" ident)* "::" (path | group)
//! path       ::= ident (join ident)*
//! group      ::= a token group holding  path ("," path)* ","?
//! join       ::= "." | "~"            ("~" only where the syntax enables it)
//! option     ::= ident "=" (ident | string literal)
//! ```
//!
//! An identifier that follows `::` belongs to the struct reference if another
//! `::` follows it, and is the first field segment otherwise. In the scalar
//! form a group is accepted only as the paths of the one and only entry.

use vstd::prelude::*;
use vstd::string::StrSliceExecFns;
use vstd::string::StringExecFns;
use crate::error::{PathError, Phase};
use crate::group::{group_paths, parse_multiple_fields};
use crate::model::{
    well_joined, EntryModel, ExpressionModel, FieldPath, OutputShape, ParsedExpression,
    PathModel, Segment, SegmentModel, StructEntry, StructReference,
};
use crate::options::{case_mode_of, Options};
use crate::token::{join_of, join_operator, Syntax, Token};

verus! {

/// The state of a scan as plain values.
pub struct ScanModel {
    /// The form that was asked for.
    pub form: OutputShape,
    pub syntax: Syntax,
    pub phase: Phase,
    /// The entries that are complete.
    pub entries: Seq<EntryModel>,
    /// The struct reference of the entry being read.
    pub reference: Seq<Seq<char>>,
    /// The segments of the path being read.
    pub segments: Seq<SegmentModel>,
    /// The paths that a group gave to the entry being read.
    pub paths: Seq<PathModel>,
    pub options: Map<Seq<char>, Seq<char>>,
    /// The name of the option being read.
    pub option_name: Seq<char>,
    /// Whether a group has been read.
    pub grouped: bool,
}

impl ScanModel {
    /// What holds of every state that a scan reaches.
    pub open spec fn consistent(self) -> bool {
        &&& forall|i: int|
            0 <= i < self.entries.len() ==> (#[trigger] self.entries[i]).well_formed()
        &&& match self.phase {
            Phase::EntryStart => true,
            Phase::StructName | Phase::StructColon | Phase::FieldOpen => self.reference.len() >= 1,
            Phase::FieldFirst => {
                &&& self.reference.len() >= 1
                &&& self.segments.len() == 1
                &&& self.segments[0].join is None
            },
            Phase::FieldJoin(_) | Phase::FieldSegment => {
                &&& self.reference.len() >= 1
                &&& well_joined(self.segments)
            },
            Phase::GroupClosed => {
                &&& self.reference.len() >= 1
                &&& self.paths.len() >= 1
                &&& forall|i: int|
                    0 <= i < self.paths.len() ==> (#[trigger] self.paths[i]).well_formed()
            },
            Phase::OptionName | Phase::OptionAssign | Phase::OptionValue | Phase::OptionEnd => {
                self.entries.len() >= 1
            },
            Phase::GroupMember | Phase::GroupSegment | Phase::GroupJoin(_) => false,
        }
    }

    /// The shape of the output: a collection where that form was asked for or
    /// a group was read, and a scalar otherwise.
    pub open spec fn shape(self) -> OutputShape {
        if self.form == OutputShape::Collection || self.grouped {
            OutputShape::Collection
        } else {
            OutputShape::Scalar
        }
    }
}

/// The state before the first token.
pub open spec fn scan_start(form: OutputShape, syntax: Syntax) -> ScanModel {
    ScanModel {
        form,
        syntax,
        phase: Phase::EntryStart,
        entries: Seq::empty(),
        reference: Seq::empty(),
        segments: Seq::empty(),
        paths: Seq::empty(),
        options: Map::empty(),
        option_name: Seq::empty(),
        grouped: false,
    }
}

/// The rejection of the token at `index` in the phase that `state` is in.
pub open spec fn unexpected(state: ScanModel, index: usize) -> Result<ScanModel, PathError> {
    Err(PathError::UnexpectedToken { index, phase: state.phase })
}

/// The paths of the entry being read: those of its group, or else the one
/// path whose segments were read.
pub open spec fn open_paths(state: ScanModel) -> Seq<PathModel> {
    if state.phase == Phase::GroupClosed {
        state.paths
    } else {
        seq![PathModel { segments: state.segments }]
    }
}

/// `state` with the entry being read added to the complete ones, in `next`.
pub open spec fn closed_entry(state: ScanModel, next: Phase) -> ScanModel {
    ScanModel {
        phase: next,
        entries: state.entries.push(
            EntryModel { reference: state.reference, paths: open_paths(state) },
        ),
        reference: Seq::empty(),
        segments: Seq::empty(),
        paths: Seq::empty(),
        ..state
    }
}

/// `state` moved on to `next`, with everything gathered so far.
pub open spec fn in_phase(state: ScanModel, next: Phase) -> ScanModel {
    ScanModel { phase: next, ..state }
}

/// `state` with the one identifier read after `::` made the last segment of
/// the struct reference, and one `:` of the next `::` read.
pub open spec fn reference_extended(state: ScanModel) -> ScanModel {
    ScanModel {
        phase: Phase::StructColon,
        reference: state.reference.push(state.segments[0].name),
        segments: Seq::empty(),
        ..state
    }
}

/// `state` with the option being read set to `value`.
pub open spec fn option_set(state: ScanModel, value: Seq<char>) -> ScanModel {
    ScanModel {
        phase: Phase::OptionEnd,
        options: state.options.insert(state.option_name, value),
        option_name: Seq::empty(),
        ..state
    }
}

/// The text between the quotes of a plain string literal, exactly as written
/// (escapes are not resolved); `None` for any other literal.
pub open spec fn unquoted(text: Seq<char>) -> Option<Seq<char>> {
    if text.len() >= 2 && text[0] == '"' && text.last() == '"' {
        Some(text.subrange(1, text.len() - 1))
    } else {
        None
    }
}

/// The state after an identifier.
pub open spec fn step_ident(state: ScanModel, name: Seq<char>, index: usize) -> Result<
    ScanModel,
    PathError,
> {
    match state.phase {
        Phase::EntryStart => Ok(
            ScanModel { phase: Phase::StructName, reference: seq![name], ..state },
        ),
        Phase::FieldOpen => Ok(
            ScanModel {
                phase: Phase::FieldFirst,
                segments: seq![SegmentModel { join: None, name }],
                ..state
            },
        ),
        Phase::FieldJoin(op) => Ok(
            ScanModel {
                phase: Phase::FieldSegment,
                segments: state.segments.push(SegmentModel { join: Some(op), name }),
                ..state
            },
        ),
        Phase::OptionName => Ok(
            ScanModel { phase: Phase::OptionAssign, option_name: name, ..state },
        ),
        Phase::OptionValue => Ok(option_set(state, name)),
        _ => unexpected(state, index),
    }
}

/// The state after punctuation that follows a field segment: `,` closes the
/// entry, `;` closes it and opens the options, a join operator asks for
/// another segment.
pub open spec fn step_after_segment(state: ScanModel, c: char, index: usize) -> Result<
    ScanModel,
    PathError,
> {
    if c == ',' {
        Ok(closed_entry(state, Phase::EntryStart))
    } else if c == ';' {
        Ok(closed_entry(state, Phase::OptionName))
    } else {
        match join_of(c, state.syntax) {
            Some(op) => Ok(in_phase(state, Phase::FieldJoin(op))),
            None => unexpected(state, index),
        }
    }
}

/// The state after punctuation where no field has been read for the entry:
/// `:` moves on to `then`, while `,` and `;` would close an entry without a
/// field.
pub open spec fn step_before_fields(state: ScanModel, c: char, index: usize, then: Phase) -> Result<
    ScanModel,
    PathError,
> {
    if c == ':' {
        Ok(in_phase(state, then))
    } else if c == ',' || c == ';' {
        Err(PathError::EmptyEntry)
    } else {
        unexpected(state, index)
    }
}

/// The state after a punctuation character.
pub open spec fn step_punct(state: ScanModel, c: char, index: usize) -> Result<
    ScanModel,
    PathError,
> {
    match state.phase {
        Phase::EntryStart => if c == ':' {
            Err(PathError::MissingStructName)
        } else if c == ',' {
            Err(PathError::EmptyEntry)
        } else {
            unexpected(state, index)
        },
        Phase::StructName => step_before_fields(state, c, index, Phase::StructColon),
        Phase::StructColon => step_before_fields(state, c, index, Phase::FieldOpen),
        Phase::FieldOpen => if c == ',' || c == ';' {
            Err(PathError::EmptyEntry)
        } else {
            unexpected(state, index)
        },
        Phase::FieldFirst => if c == ':' {
            Ok(reference_extended(state))
        } else {
            step_after_segment(state, c, index)
        },
        Phase::FieldSegment => step_after_segment(state, c, index),
        Phase::GroupClosed => if c == ',' && state.form == OutputShape::Collection {
            Ok(closed_entry(state, Phase::EntryStart))
        } else if c == ';' {
            Ok(closed_entry(state, Phase::OptionName))
        } else {
            unexpected(state, index)
        },
        Phase::OptionAssign => if c == '=' {
            Ok(in_phase(state, Phase::OptionValue))
        } else {
            unexpected(state, index)
        },
        Phase::OptionEnd => if c == ',' {
            Ok(in_phase(state, Phase::OptionName))
        } else {
            unexpected(state, index)
        },
        _ => unexpected(state, index),
    }
}

/// The state after a literal, given as its source text: a plain string
/// literal is an option value, and stands nowhere else.
pub open spec fn step_literal(state: ScanModel, text: Seq<char>, index: usize) -> Result<
    ScanModel,
    PathError,
> {
    match (state.phase, unquoted(text)) {
        (Phase::OptionValue, Some(value)) => Ok(option_set(state, value)),
        _ => unexpected(state, index),
    }
}

/// The state after a group. A group stands where the first field segment
/// would; in the scalar form only in the first entry. What its tokens spell
/// becomes the paths of the entry. A token rejected inside the group is
/// reported at the index of the group, with the phase reached inside it.
pub open spec fn step_group(state: ScanModel, inner: Seq<Token>, index: usize) -> Result<
    ScanModel,
    PathError,
> {
    if state.phase != Phase::FieldOpen || (state.form == OutputShape::Scalar
        && state.entries.len() > 0) {
        unexpected(state, index)
    } else {
        match group_paths(inner, state.syntax) {
            Ok(paths) => Ok(
                ScanModel { phase: Phase::GroupClosed, paths, grouped: true, ..state },
            ),
            Err(PathError::UnexpectedToken { index: _, phase }) => Err(
                PathError::UnexpectedToken { index, phase },
            ),
            Err(error) => Err(error),
        }
    }
}

/// The state after `token`, which stands at `index` in the expression, or
/// the reason why `token` is rejected.
pub open spec fn scan_step(state: ScanModel, token: Token, index: usize) -> Result<
    ScanModel,
    PathError,
> {
    match token {
        Token::Ident(name) => step_ident(state, name@, index),
        Token::Punct(c) => step_punct(state, c, index),
        Token::Literal(text) => step_literal(state, text@, index),
        Token::Group(inner) => step_group(state, inner@, index),
    }
}

/// The state after the first `count` tokens, or the error of the first token
/// that is rejected.
pub open spec fn scan_run(tokens: Seq<Token>, count: nat, form: OutputShape, syntax: Syntax) -> Result<
    ScanModel,
    PathError,
>
    decreases count,
{
    if count == 0 {
        Ok(scan_start(form, syntax))
    } else {
        match scan_run(tokens, (count - 1) as nat, form, syntax) {
            Ok(state) => scan_step(state, tokens[count - 1], (count - 1) as usize),
            Err(error) => Err(error),
        }
    }
}

/// The expression that a scan which stands in `state` amounts to, if its
/// options are acceptable.
pub open spec fn checked_expression(state: ScanModel) -> Result<ExpressionModel, PathError> {
    match case_mode_of(state.options) {
        Ok(_) => Ok(
            ExpressionModel {
                entries: state.entries,
                options: state.options,
                shape: state.shape(),
            },
        ),
        Err(error) => Err(error),
    }
}

/// What the input amounts to when it ends after `count` tokens in `state`.
///
/// The input may end after a field segment, after a group, or after a
/// complete option. Where it ends before any `::` of an entry, the struct
/// name is missing; right after `::`, the entry is empty; anywhere else the
/// end is unexpected. The value of `case` is checked last.
pub open spec fn scan_finish(state: ScanModel, count: usize) -> Result<ExpressionModel, PathError> {
    match state.phase {
        Phase::EntryStart | Phase::StructName | Phase::StructColon => Err(
            PathError::MissingStructName,
        ),
        Phase::FieldOpen => Err(PathError::EmptyEntry),
        Phase::FieldFirst | Phase::FieldSegment | Phase::GroupClosed => checked_expression(
            closed_entry(state, Phase::OptionEnd),
        ),
        Phase::OptionEnd => checked_expression(state),
        _ => Err(PathError::UnexpectedToken { index: count, phase: state.phase }),
    }
}

/// What a whole token sequence scans to in the given form.
pub open spec fn scanned(tokens: Seq<Token>, form: OutputShape, syntax: Syntax) -> Result<
    ExpressionModel,
    PathError,
> {
    match scan_run(tokens, tokens.len(), form, syntax) {
        Ok(state) => scan_finish(state, tokens.len() as usize),
        Err(error) => Err(error),
    }
}

/// Once a token is rejected, the error stands whatever follows.
pub proof fn lemma_scan_error_stands(
    tokens: Seq<Token>,
    failed: nat,
    count: nat,
    form: OutputShape,
    syntax: Syntax,
)
    requires
        failed <= count,
        scan_run(tokens, failed, form, syntax) is Err,
    ensures
        scan_run(tokens, count, form, syntax) == scan_run(tokens, failed, form, syntax),
    decreases count,
{
    if failed < count {
        lemma_scan_error_stands(tokens, failed, (count - 1) as nat, form, syntax);
    }
}

/// The text between the quotes of a plain string literal.
pub fn unquote(text: &str) -> (value: Option<String>)
    ensures
        match value {
            Some(inner) => unquoted(text@) == Some(inner@),
            None => unquoted(text@) is None,
        },
{
    let length: usize = text.unicode_len();
    if length >= 2 && text.get_char(0) == '"' && text.get_char(length - 1) == '"' {
        Some(String::from_str(text.substring_char(1, length - 1)))
    } else {
        None
    }
}

/// A scan in progress: the phase it is in and what it has gathered.
pub struct Scanner {
    form: OutputShape,
    syntax: Syntax,
    phase: Phase,
    entries: Vec<StructEntry>,
    reference: Vec<String>,
    segments: Vec<Segment>,
    paths: Vec<FieldPath>,
    options: Options,
    option_name: String,
    grouped: bool,
}

impl DeepView for Scanner {
    type V = ScanModel;

    closed spec fn deep_view(&self) -> ScanModel {
        ScanModel {
            form: self.form,
            syntax: self.syntax,
            phase: self.phase,
            entries: self.entries.deep_view(),
            reference: self.reference.deep_view(),
            segments: self.segments.deep_view(),
            paths: self.paths.deep_view(),
            options: self.options@,
            option_name: self.option_name@,
            grouped: self.grouped,
        }
    }
}

impl Scanner {
    #[verifier::type_invariant]
    spec fn consistent(self) -> bool {
        self.deep_view().consistent()
    }

    /// A scan that has read nothing yet.
    pub fn new(form: OutputShape, syntax: Syntax) -> (scanner: Scanner)
        ensures
            scanner.deep_view() == scan_start(form, syntax),
    {
        let scanner = Scanner {
            form,
            syntax,
            phase: Phase::EntryStart,
            entries: Vec::new(),
            reference: Vec::new(),
            segments: Vec::new(),
            paths: Vec::new(),
            options: Options::new(),
            option_name: String::new(),
            grouped: false,
        };
        proof {
            assert(scanner.entries.deep_view() =~= Seq::<EntryModel>::empty());
            assert(scanner.reference.deep_view() =~= Seq::<Seq<char>>::empty());
            assert(scanner.segments.deep_view() =~= Seq::<SegmentModel>::empty());
            assert(scanner.paths.deep_view() =~= Seq::<PathModel>::empty());
        }
        scanner
    }

    /// The phase the scan is in.
    pub fn phase(&self) -> (phase: Phase)
        ensures
            phase == self.deep_view().phase,
    {
        self.phase
    }

    /// Moves the entry being read to the complete ones and goes on in `next`.
    fn close_entry(self, next: Phase) -> (closed: Scanner)
        requires
            self.phase == Phase::FieldFirst || self.phase == Phase::FieldSegment || self.phase
                == Phase::GroupClosed,
            next == Phase::EntryStart || next == Phase::OptionName || next == Phase::OptionEnd,
        ensures
            closed.deep_view() == closed_entry(self.deep_view(), next),
    {
        proof {
            use_type_invariant(&self);
        }
        let ghost before = self.deep_view();
        let Scanner {
            form,
            syntax,
            phase,
            mut entries,
            reference,
            segments,
            paths,
            options,
            option_name,
            grouped,
        } = self;
        let entry_paths = match phase {
            Phase::GroupClosed => paths,
            _ => {
                let mut single: Vec<FieldPath> = Vec::new();
                single.push(FieldPath { segments });
                single
            },
        };
        proof {
            assert(entry_paths.deep_view() =~= open_paths(before));
        }
        let entry = StructEntry { reference: StructReference { segments: reference }, paths: entry_paths };
        proof {
            assert(entry.deep_view().well_formed());
        }
        entries.push(entry);
        proof {
            assert(entries.deep_view() =~= before.entries.push(
                EntryModel { reference: before.reference, paths: open_paths(before) },
            ));
        }
        let closed = Scanner {
            form,
            syntax,
            phase: next,
            entries,
            reference: Vec::new(),
            segments: Vec::new(),
            paths: Vec::new(),
            options,
            option_name,
            grouped,
        };
        proof {
            assert(closed.reference.deep_view() =~= Seq::<Seq<char>>::empty());
            assert(closed.segments.deep_view() =~= Seq::<SegmentModel>::empty());
            assert(closed.paths.deep_view() =~= Seq::<PathModel>::empty());
        }
        closed
    }

    /// Sets the option being read to `value`.
    fn set_option(self, value: String) -> (set: Scanner)
        requires
            self.phase == Phase::OptionValue,
        ensures
            set.deep_view() == option_set(self.deep_view(), value@),
    {
        proof {
            use_type_invariant(&self);
        }
        let Scanner {
            form,
            syntax,
            phase: _,
            entries,
            reference,
            segments,
            paths,
            mut options,
            option_name,
            grouped,
        } = self;
        options.insert(option_name, value);
        Scanner {
            form,
            syntax,
            phase: Phase::OptionEnd,
            entries,
            reference,
            segments,
            paths,
            options,
            option_name: String::new(),
            grouped,
        }
    }

    /// Goes on in `next` with everything gathered so far.
    fn enter(self, next: Phase) -> (entered: Scanner)
        requires
            in_phase(self.deep_view(), next).consistent(),
        ensures
            entered.deep_view() == in_phase(self.deep_view(), next),
    {
        let Scanner {
            form,
            syntax,
            phase: _,
            entries,
            reference,
            segments,
            paths,
            options,
            option_name,
            grouped,
        } = self;
        Scanner {
            form,
            syntax,
            phase: next,
            entries,
            reference,
            segments,
            paths,
            options,
            option_name,
            grouped,
        }
    }

    fn after_ident(self, name: &String, index: usize) -> (result: Result<Scanner, PathError>)
        ensures
            match result {
                Ok(next) => step_ident(self.deep_view(), name@, index) == Ok::<
                    ScanModel,
                    PathError,
                >(next.deep_view()),
                Err(error) => step_ident(self.deep_view(), name@, index) == Err::<
                    ScanModel,
                    PathError,
                >(error),
            },
    {
        proof {
            use_type_invariant(&self);
        }
        let ghost before = self.deep_view();
        match self.phase {
            Phase::EntryStart => {
                let Scanner {
                    form,
                    syntax,
                    phase: _,
                    entries,
                    reference: _,
                    segments,
                    paths,
                    options,
                    option_name,
                    grouped,
                } = self;
                let mut reference: Vec<String> = Vec::new();
                reference.push(name.clone());
                let next = Scanner {
                    form,
                    syntax,
                    phase: Phase::StructName,
                    entries,
                    reference,
                    segments,
                    paths,
                    options,
                    option_name,
                    grouped,
                };
                proof {
                    assert(next.reference.deep_view() =~= seq![name@]);
                }
                Ok(next)
            },
            Phase::FieldOpen => {
                let Scanner {
                    form,
                    syntax,
                    phase: _,
                    entries,
                    reference,
                    segments: _,
                    paths,
                    options,
                    option_name,
                    grouped,
                } = self;
                let mut segments: Vec<Segment> = Vec::new();
                segments.push(Segment { join: None, name: name.clone() });
                let next = Scanner {
                    form,
                    syntax,
                    phase: Phase::FieldFirst,
                    entries,
                    reference,
                    segments,
                    paths,
                    options,
                    option_name,
                    grouped,
                };
                proof {
                    assert(next.segments.deep_view() =~= seq![
                        SegmentModel { join: None, name: name@ },
                    ]);
                }
                Ok(next)
            },
            Phase::FieldJoin(op) => {
                let Scanner {
                    form,
                    syntax,
                    phase: _,
                    entries,
                    reference,
                    mut segments,
                    paths,
                    options,
                    option_name,
                    grouped,
                } = self;
                segments.push(Segment { join: Some(op), name: name.clone() });
                proof {
                    assert(segments.deep_view() =~= before.segments.push(
                        SegmentModel { join: Some(op), name: name@ },
                    ));
                }
                let next = Scanner {
                    form,
                    syntax,
                    phase: Phase::FieldSegment,
                    entries,
                    reference,
                    segments,
                    paths,
                    options,
                    option_name,
                    grouped,
                };
                Ok(next)
            },
            Phase::OptionName => {
                let Scanner {
                    form,
                    syntax,
                    phase: _,
                    entries,
                    reference,
                    segments,
                    paths,
                    options,
                    option_name: _,
                    grouped,
                } = self;
                Ok(
                    Scanner {
                        form,
                        syntax,
                        phase: Phase::OptionAssign,
                        entries,
                        reference,
                        segments,
                        paths,
                        options,
                        option_name: name.clone(),
                        grouped,
                    },
                )
            },
            Phase::OptionValue => Ok(self.set_option(name.clone())),
            _ => Err(PathError::UnexpectedToken { index, phase: self.phase }),
        }
    }

    fn after_segment(self, c: char, index: usize) -> (result: Result<Scanner, PathError>)
        requires
            self.phase == Phase::FieldFirst || self.phase == Phase::FieldSegment,
        ensures
            match result {
                Ok(next) => step_after_segment(self.deep_view(), c, index) == Ok::<
                    ScanModel,
                    PathError,
                >(next.deep_view()),
                Err(error) => step_after_segment(self.deep_view(), c, index) == Err::<
                    ScanModel,
                    PathError,
                >(error),
            },
    {
        proof {
            use_type_invariant(&self);
        }
        if c == ',' {
            Ok(self.close_entry(Phase::EntryStart))
        } else if c == ';' {
            Ok(self.close_entry(Phase::OptionName))
        } else {
            match join_operator(c, self.syntax) {
                Some(op) => Ok(self.enter(Phase::FieldJoin(op))),
                None => Err(PathError::UnexpectedToken { index, phase: self.phase }),
            }
        }
    }

    fn before_fields(self, c: char, index: usize, then: Phase) -> (result: Result<
        Scanner,
        PathError,
    >)
        requires
            self.phase == Phase::StructName || self.phase == Phase::StructColon,
            then == Phase::StructColon || then == Phase::FieldOpen,
        ensures
            match result {
                Ok(next) => step_before_fields(self.deep_view(), c, index, then) == Ok::<
                    ScanModel,
                    PathError,
                >(next.deep_view()),
                Err(error) => step_before_fields(self.deep_view(), c, index, then) == Err::<
                    ScanModel,
                    PathError,
                >(error),
            },
    {
        proof {
            use_type_invariant(&self);
        }
        if c == ':' {
            Ok(self.enter(then))
        } else if c == ',' || c == ';' {
            Err(PathError::EmptyEntry)
        } else {
            Err(PathError::UnexpectedToken { index, phase: self.phase })
        }
    }

    /// Makes the one identifier read after `::` the last segment of the
    /// struct reference.
    fn extend_reference(self) -> (next: Scanner)
        requires
            self.phase == Phase::FieldFirst,
        ensures
            next.deep_view() == reference_extended(self.deep_view()),
    {
        proof {
            use_type_invariant(&self);
        }
        let ghost before = self.deep_view();
        let Scanner {
            form,
            syntax,
            phase: _,
            entries,
            mut reference,
            mut segments,
            paths,
            options,
            option_name,
            grouped,
        } = self;
        let first = segments.pop();
        match first {
            Some(segment) => {
                reference.push(segment.name);
            },
            None => {},
        }
        let next = Scanner {
            form,
            syntax,
            phase: Phase::StructColon,
            entries,
            reference,
            segments,
            paths,
            options,
            option_name,
            grouped,
        };
        proof {
            assert(next.reference.deep_view() =~= before.reference.push(before.segments[0].name));
            assert(next.segments.deep_view() =~= Seq::<SegmentModel>::empty());
        }
        next
    }

    fn after_punct(self, c: char, index: usize) -> (result: Result<Scanner, PathError>)
        ensures
            match result {
                Ok(next) => step_punct(self.deep_view(), c, index) == Ok::<ScanModel, PathError>(
                    next.deep_view(),
                ),
                Err(error) => step_punct(self.deep_view(), c, index) == Err::<
                    ScanModel,
                    PathError,
                >(error),
            },
    {
        proof {
            use_type_invariant(&self);
        }
        let unexpected = PathError::UnexpectedToken { index, phase: self.phase };
        match self.phase {
            Phase::EntryStart => {
                if c == ':' {
                    Err(PathError::MissingStructName)
                } else if c == ',' {
                    Err(PathError::EmptyEntry)
                } else {
                    Err(unexpected)
                }
            },
            Phase::StructName => self.before_fields(c, index, Phase::StructColon),
            Phase::StructColon => self.before_fields(c, index, Phase::FieldOpen),
            Phase::FieldOpen => {
                if c == ',' || c == ';' {
                    Err(PathError::EmptyEntry)
                } else {
                    Err(unexpected)
                }
            },
            Phase::FieldFirst => {
                if c == ':' {
                    Ok(self.extend_reference())
                } else {
                    self.after_segment(c, index)
                }
            },
            Phase::FieldSegment => self.after_segment(c, index),
            Phase::GroupClosed => {
                if c == ',' && self.form == OutputShape::Collection {
                    Ok(self.close_entry(Phase::EntryStart))
                } else if c == ';' {
                    Ok(self.close_entry(Phase::OptionName))
                } else {
                    Err(unexpected)
                }
            },
            Phase::OptionAssign => {
                if c == '=' {
                    Ok(self.enter(Phase::OptionValue))
                } else {
                    Err(unexpected)
                }
            },
            Phase::OptionEnd => {
                if c == ',' {
                    Ok(self.enter(Phase::OptionName))
                } else {
                    Err(unexpected)
                }
            },
            _ => Err(unexpected),
        }
    }

    fn after_literal(self, text: &String, index: usize) -> (result: Result<Scanner, PathError>)
        ensures
            match result {
                Ok(next) => step_literal(self.deep_view(), text@, index) == Ok::<
                    ScanModel,
                    PathError,
                >(next.deep_view()),
                Err(error) => step_literal(self.deep_view(), text@, index) == Err::<
                    ScanModel,
                    PathError,
                >(error),
            },
    {
        let unexpected = PathError::UnexpectedToken { index, phase: self.phase };
        match self.phase {
            Phase::OptionValue => match unquote(text.as_str()) {
                Some(value) => Ok(self.set_option(value)),
                None => Err(unexpected),
            },
            _ => Err(unexpected),
        }
    }

    fn after_group(self, inner: &Vec<Token>, index: usize) -> (result: Result<Scanner, PathError>)
        ensures
            match result {
                Ok(next) => step_group(self.deep_view(), inner@, index) == Ok::<
                    ScanModel,
                    PathError,
                >(next.deep_view()),
                Err(error) => step_group(self.deep_view(), inner@, index) == Err::<
                    ScanModel,
                    PathError,
                >(error),
            },
    {
        proof {
            use_type_invariant(&self);
        }
        let scalar_continued = self.form == OutputShape::Scalar && self.entries.len() > 0;
        if self.phase != Phase::FieldOpen || scalar_continued {
            return Err(PathError::UnexpectedToken { index, phase: self.phase });
        }
        match parse_multiple_fields(inner, self.syntax) {
            Ok(group) => {
                let Scanner {
                    form,
                    syntax,
                    phase: _,
                    entries,
                    reference,
                    segments,
                    paths: _,
                    options,
                    option_name,
                    grouped: _,
                } = self;
                Ok(
                    Scanner {
                        form,
                        syntax,
                        phase: Phase::GroupClosed,
                        entries,
                        reference,
                        segments,
                        paths: group,
                        options,
                        option_name,
                        grouped: true,
                    },
                )
            },
            Err(PathError::UnexpectedToken { index: _, phase }) => Err(
                PathError::UnexpectedToken { index, phase },
            ),
            Err(error) => Err(error),
        }
    }

    /// Takes one token, which stands at `index` in the expression.
    ///
    /// The result is the transition of `scan_step`: the next state, or the
    /// reason why the token cannot follow here.
    pub fn step(self, token: &Token, index: usize) -> (result: Result<Scanner, PathError>)
        ensures
            match result {
                Ok(next) => scan_step(self.deep_view(), *token, index) == Ok::<
                    ScanModel,
                    PathError,
                >(next.deep_view()),
                Err(error) => scan_step(self.deep_view(), *token, index) == Err::<
                    ScanModel,
                    PathError,
                >(error),
            },
    {
        match token {
            Token::Ident(name) => self.after_ident(name, index),
            Token::Punct(c) => self.after_punct(*c, index),
            Token::Literal(text) => self.after_literal(text, index),
            Token::Group(inner) => self.after_group(inner, index),
        }
    }

    /// Ends the scan after `count` tokens.
    ///
    /// The result is `scan_finish` of the state reached: the expression with
    /// its last entry closed, or the reason why the input may not end here.
    /// An expression that is returned is well formed.
    pub fn finish(self, count: usize) -> (result: Result<ParsedExpression, PathError>)
        ensures
            match result {
                Ok(parsed) => scan_finish(self.deep_view(), count) == Ok::<
                    ExpressionModel,
                    PathError,
                >(parsed.deep_view()),
                Err(error) => scan_finish(self.deep_view(), count) == Err::<
                    ExpressionModel,
                    PathError,
                >(error),
            },
            result matches Ok(parsed) ==> parsed.deep_view().well_formed(),
    {
        proof {
            use_type_invariant(&self);
        }
        let closed = match self.phase {
            Phase::EntryStart | Phase::StructName | Phase::StructColon => {
                return Err(PathError::MissingStructName);
            },
            Phase::FieldOpen => {
                return Err(PathError::EmptyEntry);
            },
            Phase::FieldFirst | Phase::FieldSegment | Phase::GroupClosed => self.close_entry(
                Phase::OptionEnd,
            ),
            Phase::OptionEnd => self,
            _ => {
                return Err(PathError::UnexpectedToken { index: count, phase: self.phase });
            },
        };
        proof {
            use_type_invariant(&closed);
        }
        match closed.options.case_mode() {
            Err(error) => Err(error),
            Ok(_) => {
                let shape = if closed.form == OutputShape::Collection || closed.grouped {
                    OutputShape::Collection
                } else {
                    OutputShape::Scalar
                };
                Ok(ParsedExpression { entries: closed.entries, options: closed.options, shape })
            },
        }
    }
}

/// Scans a whole token sequence in the given form.
///
/// The result is exactly `scanned`: the expression that the tokens spell, or
/// the error of the first token that cannot follow, or of the end of the
/// input where more was due, or of an unknown `case` value. An expression
/// that is returned is well formed.
pub fn scan(tokens: &Vec<Token>, form: OutputShape, syntax: Syntax) -> (result: Result<
    ParsedExpression,
    PathError,
>)
    ensures
        match result {
            Ok(parsed) => scanned(tokens@, form, syntax) == Ok::<ExpressionModel, PathError>(
                parsed.deep_view(),
            ),
            Err(error) => scanned(tokens@, form, syntax) == Err::<ExpressionModel, PathError>(
                error,
            ),
        },
        result matches Ok(parsed) ==> parsed.deep_view().well_formed(),
{
    let mut scanner = Scanner::new(form, syntax);
    let mut i: usize = 0;
    while i < tokens.len()
        invariant
            i <= tokens.len(),
            scan_run(tokens@, i as nat, form, syntax) == Ok::<ScanModel, PathError>(
                scanner.deep_view(),
            ),
        decreases tokens.len() - i,
    {
        match scanner.step(&tokens[i], i) {
            Ok(next) => {
                scanner = next;
            },
            Err(error) => {
                proof {
                    lemma_scan_error_stands(tokens@, (i + 1) as nat, tokens@.len(), form, syntax);
                }
                return Err(error);
            },
        }
        i += 1;
    }
    scanner.finish(tokens.len())
}

} // verus!
