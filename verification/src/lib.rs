//! Paths into nested records, scanned from a token sequence and written out as
//! string literals together with accessor expressions that let the host compiler
//! confirm that every named field exists.
//!
//! `path` gives one string for the whole expression, `paths` one string per
//! field path. Both read the same grammar (see the scanner) and the same
//! options: `delim`, the text between segments, and `case`, which is `camel`
//! or `pascal`.

use vstd::prelude::*;

pub mod checks;
pub mod error;
pub mod format;
pub mod group;
pub mod laws;
pub mod model;
pub mod options;
pub mod output;
pub mod scanner;
pub mod text;
pub mod token;

use crate::error::PathError;
use crate::model::OutputShape;
use crate::output::{assemble, assembled, Output, OutputModel};
use crate::scanner::{scan, scanned};
use crate::token::{Syntax, Token};

verus! {

/// What the tokens amount to in the given form: what is assembled from the
/// expression they scan to, or the error of the scan.
pub open spec fn expanded(tokens: Seq<Token>, form: OutputShape, syntax: Syntax) -> Result<
    OutputModel,
    PathError,
> {
    match scanned(tokens, form, syntax) {
        Ok(expression) => assembled(expression),
        Err(error) => Err(error),
    }
}

fn expand(tokens: &Vec<Token>, form: OutputShape, syntax: Syntax) -> (result: Result<
    Output,
    PathError,
>)
    ensures
        match result {
            Ok(output) => expanded(tokens@, form, syntax) == Ok::<OutputModel, PathError>(
                output.deep_view(),
            ),
            Err(error) => expanded(tokens@, form, syntax) == Err::<OutputModel, PathError>(error),
        },
{
    match scan(tokens, form, syntax) {
        Ok(parsed) => assemble(&parsed),
        Err(error) => Err(error),
    }
}

/// The scalar form: the field paths of all entries, continued into one path
/// and written as one string. Where the one entry gives its paths as a
/// group, the result is a sequence with one string per member.
///
/// The result is exactly `expanded` in the scalar form: the output, or the
/// first error of the scan, or `UnknownOptionValue` before anything is
/// written.
pub fn path(struct_path_stream: &Vec<Token>, syntax: Syntax) -> (result: Result<Output, PathError>)
    ensures
        match result {
            Ok(output) => expanded(struct_path_stream@, OutputShape::Scalar, syntax) == Ok::<
                OutputModel,
                PathError,
            >(output.deep_view()),
            Err(error) => expanded(struct_path_stream@, OutputShape::Scalar, syntax) == Err::<
                OutputModel,
                PathError,
            >(error),
        },
{
    expand(struct_path_stream, OutputShape::Scalar, syntax)
}

/// The collection form: one string per field path of every entry, in the
/// order written.
///
/// The result is exactly `expanded` in the collection form.
pub fn paths(struct_path_stream: &Vec<Token>, syntax: Syntax) -> (result: Result<
    Output,
    PathError,
>)
    ensures
        match result {
            Ok(output) => expanded(struct_path_stream@, OutputShape::Collection, syntax) == Ok::<
                OutputModel,
                PathError,
            >(output.deep_view()),
            Err(error) => expanded(struct_path_stream@, OutputShape::Collection, syntax) == Err::<
                OutputModel,
                PathError,
            >(error),
        },
{
    expand(struct_path_stream, OutputShape::Collection, syntax)
}

} // verus!
