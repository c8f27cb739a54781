//! The output assembler: the accessors of the check emitter followed by the
//! formatted paths, as one string literal or as a sequence literal.

use vstd::prelude::*;
use vstd::string::StringExecFns;
use crate::checks::{checks_text, generate_checks_code_for};
use crate::error::PathError;
use crate::format::{apply_options, cased_names, push_cased_segments, written};
use crate::model::{
    all_names, all_paths, ExpressionModel, FieldPath, OutputShape, ParsedExpression, PathModel,
    StructEntry,
};
use crate::options::{case_mode_of, delimiter_of, CaseMode};
use crate::text::{join_segments, joined};

verus! {

/// The formatted paths of an expression.
#[derive(Clone, Debug, PartialEq, Eq)]
pub enum OutputValue {
    /// One string: all field paths continued into a single path.
    Single(String),
    /// One string per field path, in the order written.
    Sequence(Vec<String>),
}

/// An `OutputValue` as plain values.
pub enum ValueModel {
    Single(Seq<char>),
    Sequence(Seq<Seq<char>>),
}

impl DeepView for OutputValue {
    type V = ValueModel;

    open spec fn deep_view(&self) -> ValueModel {
        match self {
            OutputValue::Single(text) => ValueModel::Single(text@),
            OutputValue::Sequence(texts) => ValueModel::Sequence(texts.deep_view()),
        }
    }
}

/// What is written out for an expression.
#[derive(Clone, Debug, PartialEq, Eq)]
pub struct Output {
    /// The accessors for the host compiler to check.
    pub checks: String,
    pub value: OutputValue,
}

/// An `Output` as plain values.
pub struct OutputModel {
    pub checks: Seq<char>,
    pub value: ValueModel,
}

impl DeepView for Output {
    type V = OutputModel;

    open spec fn deep_view(&self) -> OutputModel {
        OutputModel { checks: self.checks@, value: self.value.deep_view() }
    }
}

/// Each path written on its own, in order.
pub open spec fn written_each(paths: Seq<PathModel>, mode: CaseMode, delimiter: Seq<char>) -> Seq<
    Seq<char>,
> {
    Seq::new(paths.len(), |i: int| written(paths[i].names(), mode, delimiter))
}

/// What is written out for `expression`.
///
/// With no field path at all there is nothing to write. Otherwise the
/// options must be acceptable, and the value is, for a scalar, the segments
/// of all paths of all entries formatted as one path; for a collection, each
/// path formatted on its own.
pub open spec fn assembled(expression: ExpressionModel) -> Result<OutputModel, PathError> {
    let paths = all_paths(expression.entries);
    if paths.len() == 0 {
        Err(PathError::EmptyOutput)
    } else {
        match case_mode_of(expression.options) {
            Err(error) => Err(error),
            Ok(mode) => Ok(
                OutputModel {
                    checks: checks_text(expression.entries),
                    value: match expression.shape {
                        OutputShape::Scalar => ValueModel::Single(
                            written(all_names(paths), mode, delimiter_of(expression.options)),
                        ),
                        OutputShape::Collection => ValueModel::Sequence(
                            written_each(paths, mode, delimiter_of(expression.options)),
                        ),
                    },
                },
            ),
        }
    }
}

/// `text` between double quotes, as it is: nothing in it is escaped.
pub open spec fn string_literal(text: Seq<char>) -> Seq<char> {
    "\""@ + text + "\""@
}

/// The literals of `texts`, in order.
pub open spec fn string_literals(texts: Seq<Seq<char>>) -> Seq<Seq<char>> {
    Seq::new(texts.len(), |i: int| string_literal(texts[i]))
}

/// The literal that stands for `value`: a string literal, or a sequence
/// literal of string literals separated by `,`.
pub open spec fn value_literal(value: ValueModel) -> Seq<char> {
    match value {
        ValueModel::Single(text) => string_literal(text),
        ValueModel::Sequence(texts) => "["@ + joined(string_literals(texts), ","@) + "]"@,
    }
}

/// The source text of `output`: a block that holds the accessors and, on a
/// line of its own, the literal.
pub open spec fn rendered(output: OutputModel) -> Seq<char> {
    "{"@ + output.checks + "\n"@ + value_literal(output.value) + "}"@
}

/// References to every path of every entry, in the order written.
fn collect_paths(entries: &Vec<StructEntry>) -> (paths: Vec<&FieldPath>)
    ensures
        paths.deep_view() == all_paths(entries.deep_view()),
{
    let mut paths: Vec<&FieldPath> = Vec::new();
    let mut i: usize = 0;
    proof {
        assert(paths.deep_view() =~= all_paths(entries.deep_view().take(0)));
    }
    while i < entries.len()
        invariant
            i <= entries.len(),
            paths.deep_view() == all_paths(entries.deep_view().take(i as int)),
        decreases entries.len() - i,
    {
        let entry = &entries[i];
        let ghost base = paths.deep_view();
        let mut j: usize = 0;
        while j < entry.paths.len()
            invariant
                j <= entry.paths.len(),
                paths.deep_view() == base + entry.deep_view().paths.take(j as int),
            decreases entry.paths.len() - j,
        {
            let ghost before = paths.deep_view();
            paths.push(&entry.paths[j]);
            proof {
                assert(paths.deep_view() =~= before.push(entry.deep_view().paths[j as int]));
                assert(entry.deep_view().paths.take(j + 1) =~= entry.deep_view().paths.take(
                    j as int,
                ).push(entry.deep_view().paths[j as int]));
            }
            j += 1;
        }
        proof {
            let done = entries.deep_view().take(i + 1);
            assert(done.drop_last() =~= entries.deep_view().take(i as int));
            assert(done.last() == entry.deep_view());
            assert(entry.deep_view().paths.take(entry.paths.len() as int)
                =~= entry.deep_view().paths);
        }
        i += 1;
    }
    proof {
        assert(entries.deep_view().take(entries.len() as int) =~= entries.deep_view());
    }
    paths
}

/// Puts together what is written out for a scanned expression: the accessors
/// of all its paths, and its paths formatted as its options ask.
///
/// The result is exactly `assembled`. It fails with `EmptyOutput` where the
/// expression has no field path, and with `UnknownOptionValue` where it has
/// one and `case` is neither `camel` nor `pascal`.
pub fn assemble(parsed: &ParsedExpression) -> (result: Result<Output, PathError>)
    ensures
        match result {
            Ok(output) => assembled(parsed.deep_view()) == Ok::<OutputModel, PathError>(
                output.deep_view(),
            ),
            Err(error) => assembled(parsed.deep_view()) == Err::<OutputModel, PathError>(error),
        },
{
    let paths = collect_paths(&parsed.entries);
    if paths.len() == 0 {
        return Err(PathError::EmptyOutput);
    }
    let mode = match parsed.options.case_mode() {
        Ok(mode) => mode,
        Err(error) => {
            return Err(error);
        },
    };
    let checks = generate_checks_code_for(&parsed.entries);
    let ghost delimiter = delimiter_of(parsed.options@);
    let value = match parsed.shape {
        OutputShape::Scalar => {
            let mut parts: Vec<String> = Vec::new();
            let mut i: usize = 0;
            proof {
                assert(parts.deep_view() =~= cased_names(
                    mode,
                    all_names(paths.deep_view().take(0)),
                ));
            }
            while i < paths.len()
                invariant
                    i <= paths.len(),
                    parts.deep_view() == cased_names(
                        mode,
                        all_names(paths.deep_view().take(i as int)),
                    ),
                decreases paths.len() - i,
            {
                let ghost before = parts.deep_view();
                push_cased_segments(paths[i], mode, &mut parts);
                proof {
                    let done = paths.deep_view().take(i + 1);
                    assert(done.drop_last() =~= paths.deep_view().take(i as int));
                    assert(done.last() == paths.deep_view()[i as int]);
                    assert(parts.deep_view() =~= cased_names(mode, all_names(done)));
                }
                i += 1;
            }
            proof {
                assert(paths.deep_view().take(paths.len() as int) =~= paths.deep_view());
            }
            OutputValue::Single(join_segments(&parts, parsed.options.delimiter()))
        },
        OutputShape::Collection => {
            let mut texts: Vec<String> = Vec::new();
            let mut i: usize = 0;
            proof {
                assert(texts.deep_view() =~= written_each(paths.deep_view(), mode, delimiter).take(0));
            }
            while i < paths.len()
                invariant
                    i <= paths.len(),
                    delimiter == delimiter_of(parsed.options@),
                    case_mode_of(parsed.options@) == Ok::<CaseMode, PathError>(mode),
                    texts.deep_view() == written_each(paths.deep_view(), mode, delimiter).take(
                        i as int,
                    ),
                decreases paths.len() - i,
            {
                let ghost before = texts.deep_view();
                match apply_options(&parsed.options, paths[i]) {
                    Ok(text) => {
                        texts.push(text);
                        proof {
                            assert(texts.deep_view() =~= before.push(text@));
                            assert(written_each(paths.deep_view(), mode, delimiter).take(i + 1)
                                =~= written_each(paths.deep_view(), mode, delimiter).take(
                                i as int,
                            ).push(written_each(paths.deep_view(), mode, delimiter)[i as int]));
                        }
                    },
                    Err(error) => {
                        return Err(error);
                    },
                }
                i += 1;
            }
            proof {
                assert(written_each(paths.deep_view(), mode, delimiter).take(paths.len() as int)
                    =~= written_each(paths.deep_view(), mode, delimiter));
            }
            OutputValue::Sequence(texts)
        },
    };
    Ok(Output { checks, value })
}

/// `text` between double quotes.
fn quote(text: &str) -> (literal: String)
    ensures
        literal@ == string_literal(text@),
{
    let mut literal = String::from_str("\"");
    literal.append(text);
    literal.append("\"");
    literal
}

impl Output {
    /// The source text to put in place of the expression: a block that holds
    /// the accessors and then the literal.
    pub fn to_source(&self) -> (source: String)
        ensures
            source@ == rendered(self.deep_view()),
    {
        let mut source = String::from_str("{");
        source.append(self.checks.as_str());
        source.append("\n");
        match &self.value {
            OutputValue::Single(text) => {
                let literal = quote(text.as_str());
                source.append(literal.as_str());
            },
            OutputValue::Sequence(texts) => {
                let mut literals: Vec<String> = Vec::new();
                let mut i: usize = 0;
                proof {
                    assert(literals.deep_view() =~= string_literals(texts.deep_view()).take(0));
                }
                while i < texts.len()
                    invariant
                        i <= texts.len(),
                        literals.deep_view() == string_literals(texts.deep_view()).take(i as int),
                    decreases texts.len() - i,
                {
                    let ghost before = literals.deep_view();
                    let literal = quote(texts[i].as_str());
                    literals.push(literal);
                    proof {
                        assert(literals.deep_view() =~= before.push(
                            string_literal(texts.deep_view()[i as int]),
                        ));
                        assert(string_literals(texts.deep_view()).take(i + 1) =~= string_literals(
                            texts.deep_view(),
                        ).take(i as int).push(string_literal(texts.deep_view()[i as int])));
                    }
                    i += 1;
                }
                proof {
                    assert(string_literals(texts.deep_view()).take(texts.len() as int)
                        =~= string_literals(texts.deep_view()));
                }
                source.append("[");
                let list = join_segments(&literals, ",");
                source.append(list.as_str());
                source.append("]");
            },
        }
        source.append("}");
        source
    }
}

} // verus!
