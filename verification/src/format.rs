//! The formatter: a field path written as one string, its segments re-cased
//! one by one and joined with the delimiter.

use vstd::prelude::*;
use vstd::string::StringExecFns;
use convert_case::{Case, Casing};
use crate::error::PathError;
use crate::model::FieldPath;
use crate::options::{case_mode_of, delimiter_of, CaseMode, Options};
use crate::text::{join_segments, joined};

verus! {

/// What `convert_case` makes of a segment read as snake case and written as
/// camel case: the result of `to_case(Case::Camel)` on `from_case(Case::Snake)`.
pub uninterp spec fn camel_of_snake(segment: Seq<char>) -> Seq<char>;

/// What `convert_case` makes of a segment read as snake case and written as
/// Pascal case: the result of `to_case(Case::Pascal)` on `from_case(Case::Snake)`.
pub uninterp spec fn pascal_of_snake(segment: Seq<char>) -> Seq<char>;

/// Calls `Casing::from_case(Case::Snake)` and then `StateConverter::to_case(Case::Camel)`
/// of `convert_case` on `segment`.
///
/// Not proved: that the string returned is the one named `camel_of_snake`.
/// The conversion splits the segment at underscores, drops empty words,
/// re-cases each word and writes them without a separator; it reads nothing
/// but its argument.
#[verifier::external_body]
fn snake_to_camel(segment: &str) -> (cased: String)
    ensures
        cased@ == camel_of_snake(segment@),
{
    segment.from_case(Case::Snake).to_case(Case::Camel)
}

/// Calls `Casing::from_case(Case::Snake)` and then `StateConverter::to_case(Case::Pascal)`
/// of `convert_case` on `segment`.
///
/// Not proved: that the string returned is the one named `pascal_of_snake`.
#[verifier::external_body]
fn snake_to_pascal(segment: &str) -> (cased: String)
    ensures
        cased@ == pascal_of_snake(segment@),
{
    segment.from_case(Case::Snake).to_case(Case::Pascal)
}

/// One segment as `mode` writes it.
pub open spec fn cased(mode: CaseMode, segment: Seq<char>) -> Seq<char> {
    match mode {
        CaseMode::Unchanged => segment,
        CaseMode::Camel => camel_of_snake(segment),
        CaseMode::Pascal => pascal_of_snake(segment),
    }
}

/// Each segment as `mode` writes it, on its own: no segment depends on its
/// neighbours.
pub open spec fn cased_names(mode: CaseMode, names: Seq<Seq<char>>) -> Seq<Seq<char>> {
    Seq::new(names.len(), |i: int| cased(mode, names[i]))
}

/// The segments written as `mode` asks, with `delimiter` between neighbours.
pub open spec fn written(names: Seq<Seq<char>>, mode: CaseMode, delimiter: Seq<char>) -> Seq<
    char,
> {
    joined(cased_names(mode, names), delimiter)
}

/// The segments re-cased and joined as the options ask, or the rejection of
/// an unknown `case` value.
pub open spec fn formatted(names: Seq<Seq<char>>, options: Map<Seq<char>, Seq<char>>) -> Result<
    Seq<char>,
    PathError,
> {
    match case_mode_of(options) {
        Ok(mode) => Ok(written(names, mode, delimiter_of(options))),
        Err(error) => Err(error),
    }
}

/// Writes one segment as `mode` asks.
pub fn case_segment(mode: CaseMode, segment: &str) -> (out: String)
    ensures
        out@ == cased(mode, segment@),
{
    match mode {
        CaseMode::Unchanged => String::from_str(segment),
        CaseMode::Camel => snake_to_camel(segment),
        CaseMode::Pascal => snake_to_pascal(segment),
    }
}

/// Appends the segments of `path`, each written as `mode` asks, to `out`.
pub fn push_cased_segments(path: &FieldPath, mode: CaseMode, out: &mut Vec<String>)
    ensures
        final(out).deep_view() == old(out).deep_view() + cased_names(
            mode,
            path.deep_view().names(),
        ),
{
    let ghost names = path.deep_view().names();
    let mut i: usize = 0;
    while i < path.segments.len()
        invariant
            i <= path.segments.len(),
            names == path.deep_view().names(),
            out.deep_view() == old(out).deep_view() + cased_names(mode, names).take(i as int),
        decreases path.segments.len() - i,
    {
        let ghost before = out.deep_view();
        out.push(case_segment(mode, path.segments[i].name.as_str()));
        proof {
            assert(out.deep_view() =~= before.push(cased(mode, names[i as int])));
            assert(cased_names(mode, names).take(i + 1) =~= cased_names(mode, names).take(
                i as int,
            ).push(cased(mode, names[i as int])));
        }
        i += 1;
    }
    proof {
        assert(cased_names(mode, names).take(path.segments.len() as int) =~= cased_names(
            mode,
            names,
        ));
    }
}

/// Writes `field_path` as one string: each segment re-cased as the `case`
/// option asks, with the `delim` option (or `.`) between segments.
///
/// Fails, with `UnknownOptionValue`, exactly when `case` is set to something
/// other than `camel` and `pascal`.
pub fn apply_options(options: &Options, field_path: &FieldPath) -> (result: Result<
    String,
    PathError,
>)
    ensures
        match result {
            Ok(text) => formatted(field_path.deep_view().names(), options@) == Ok::<
                Seq<char>,
                PathError,
            >(text@),
            Err(error) => formatted(field_path.deep_view().names(), options@) == Err::<
                Seq<char>,
                PathError,
            >(error),
        },
        result is Err <==> case_mode_of(options@) is Err,
{
    match options.case_mode() {
        Err(error) => Err(error),
        Ok(mode) => {
            let mut parts: Vec<String> = Vec::new();
            proof {
                assert(parts.deep_view() =~= Seq::<Seq<char>>::empty());
            }
            push_cased_segments(field_path, mode, &mut parts);
            proof {
                assert(parts.deep_view() =~= cased_names(mode, field_path.deep_view().names()));
            }
            Ok(join_segments(&parts, options.delimiter()))
        },
    }
}

} // verus!
