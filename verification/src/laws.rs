//! What holds of formatting and scanning for every input.
//!
//! The laws on scanning speak of token sequences by what they spell:
//! `spells_entry` and `spells_members` say, position by position, which
//! tokens stand for an entry with one path and for a group of plain names.

use vstd::prelude::*;
use crate::checks::{check_block, checks_text, entry_blocks, entry_checks};
use crate::error::{PathError, Phase};
use crate::expanded;
use crate::format::{camel_of_snake, cased_names, formatted};
use crate::group::{group_finish, group_paths, group_run, group_start, group_step, GroupModel};
use crate::model::{
    all_names, all_paths, qualified_name, well_joined, EntryModel, ExpressionModel, JoinOp,
    OutputShape, PathModel, SegmentModel,
};
use crate::options::CaseMode;
use crate::output::{written_each, OutputModel, ValueModel};
use crate::scanner::{
    closed_entry, option_set, scan_finish, scan_run, scan_start, scan_step, scanned, unquoted,
    ScanModel,
};
use crate::text::{joined, lemma_joined_concat};
use crate::token::{join_of, Syntax, Token};

verus! {

/// Formatting is the identity where no `case` is set and the delimiter is
/// `.`, whether `delim` is absent or set to `.`: the path comes out exactly
/// as it is written with dots.
pub proof fn law_default_format_is_identity(path: PathModel, options: Map<Seq<char>, Seq<char>>)
    requires
        !options.contains_key("case"@),
        options.contains_key("delim"@) ==> options["delim"@] == "."@,
    ensures
        formatted(path.names(), options) == Ok::<Seq<char>, PathError>(path.dotted()),
{
    assert(cased_names(CaseMode::Unchanged, path.names()) =~= path.names());
}

/// With `delim` set to `/` and `case` to `camel`, each segment is camel-cased
/// on its own and the results are joined with `/`.
pub proof fn law_camel_segments_joined_by_slash(
    path: PathModel,
    options: Map<Seq<char>, Seq<char>>,
)
    requires
        options.contains_key("case"@),
        options["case"@] == "camel"@,
        options.contains_key("delim"@),
        options["delim"@] == "/"@,
    ensures
        formatted(path.names(), options) == Ok::<Seq<char>, PathError>(
            joined(Seq::new(path.names().len(), |i: int| camel_of_snake(path.names()[i])), "/"@),
        ),
{
    assert(cased_names(CaseMode::Camel, path.names()) =~= Seq::new(
        path.names().len(),
        |i: int| camel_of_snake(path.names()[i]),
    ));
}

/// `token` is the identifier `name`.
pub open spec fn is_ident(token: Token, name: Seq<char>) -> bool {
    token matches Token::Ident(text) && text@ == name
}

/// `token` is the punctuation character `c`.
pub open spec fn is_punct(token: Token, c: char) -> bool {
    token == Token::Punct(c)
}

/// `token` is a punctuation character that the syntax reads as the join `op`.
pub open spec fn is_join(token: Token, op: Option<JoinOp>, syntax: Syntax) -> bool {
    token matches Token::Punct(c) && op is Some && join_of(c, syntax) == op
}

/// From position `at` on, `tokens` spell the struct reference `reference`:
/// each segment followed by `::`.
pub open spec fn spells_reference(tokens: Seq<Token>, at: int, reference: Seq<Seq<char>>) -> bool {
    &&& reference.len() >= 1
    &&& 0 <= at
    &&& at + 3 * reference.len() <= tokens.len()
    &&& forall|i: int|
        0 <= i < reference.len() ==> {
            &&& is_ident(tokens[at + 3 * i], #[trigger] reference[i])
            &&& is_punct(tokens[at + 3 * i + 1], ':')
            &&& is_punct(tokens[at + 3 * i + 2], ':')
        }
}

/// How many tokens spell an entry with one path: each reference segment with
/// its `::`, then the field names with a join operator between neighbours.
pub open spec fn entry_width(reference: Seq<Seq<char>>, path: PathModel) -> int {
    3 * reference.len() + 2 * path.segments.len() - 1
}

/// From position `at` on, `tokens` spell the entry `reference :: path`, each
/// segment after the first preceded by a join operator that the syntax
/// accepts.
pub open spec fn spells_entry(
    tokens: Seq<Token>,
    at: int,
    reference: Seq<Seq<char>>,
    path: PathModel,
    syntax: Syntax,
) -> bool {
    &&& spells_reference(tokens, at, reference)
    &&& well_joined(path.segments)
    &&& at + entry_width(reference, path) <= tokens.len()
    &&& forall|j: int|
        0 <= j < path.segments.len() ==> {
            &&& is_ident(
                tokens[at + 3 * reference.len() + 2 * j],
                (#[trigger] path.segments[j]).name,
            )
            &&& j >= 1 ==> is_join(
                tokens[at + 3 * reference.len() + 2 * j - 1],
                path.segments[j].join,
                syntax,
            )
        }
}

/// The entry that `reference :: path` scans to.
pub open spec fn path_entry(reference: Seq<Seq<char>>, path: PathModel) -> EntryModel {
    EntryModel { reference, paths: seq![path] }
}

/// The state in which the fields of an entry are due, its reference read.
pub open spec fn fields_due(start: ScanModel, reference: Seq<Seq<char>>) -> ScanModel {
    ScanModel { phase: Phase::FieldOpen, reference, segments: Seq::empty(), ..start }
}

/// The state after the first `count` segments of the path of an entry.
pub open spec fn fields_read(
    start: ScanModel,
    reference: Seq<Seq<char>>,
    path: PathModel,
    count: int,
) -> ScanModel {
    ScanModel {
        phase: if count == 1 {
            Phase::FieldFirst
        } else {
            Phase::FieldSegment
        },
        reference,
        segments: path.segments.take(count),
        ..start
    }
}

proof fn lemma_next_step(
    tokens: Seq<Token>,
    count: nat,
    form: OutputShape,
    syntax: Syntax,
    state: ScanModel,
)
    requires
        scan_run(tokens, count, form, syntax) == Ok::<ScanModel, PathError>(state),
    ensures
        scan_run(tokens, count + 1, form, syntax) == scan_step(
            state,
            tokens[count as int],
            count as usize,
        ),
{
    assert(scan_run(tokens, (count + 1) as nat, form, syntax) == match scan_run(
        tokens,
        count,
        form,
        syntax,
    ) {
        Ok(state) => scan_step(state, tokens[count + 1 - 1], (count + 1 - 1) as usize),
        Err(error) => Err(error),
    });
}

/// Scanning the first `read` segments of a struct reference, from the start
/// of an entry, leaves the scan where the fields are due, or, if a further
/// `::` follows, where the next segment of the reference is.
pub proof fn lemma_reference_scanned(
    tokens: Seq<Token>,
    at: nat,
    reference: Seq<Seq<char>>,
    start: ScanModel,
    form: OutputShape,
    syntax: Syntax,
    read: nat,
)
    requires
        spells_reference(tokens, at as int, reference),
        scan_run(tokens, at, form, syntax) == Ok::<ScanModel, PathError>(start),
        start.phase == Phase::EntryStart,
        start.syntax == syntax,
        1 <= read <= reference.len(),
    ensures
        scan_run(tokens, at + 3 * read, form, syntax) == Ok::<ScanModel, PathError>(
            fields_due(start, reference.take(read as int)),
        ),
    decreases read,
{
    let index = (read - 1) as int;
    let here = (at + 3 * index) as nat;
    let name = reference[index];
    assert(is_ident(tokens[at + 3 * index], name));
    assert(is_punct(tokens[at + 3 * index + 1], ':'));
    assert(is_punct(tokens[at + 3 * index + 2], ':'));
    if read == 1 {
        lemma_next_step(tokens, here, form, syntax, start);
        let named = ScanModel { phase: Phase::StructName, reference: seq![name], ..start };
        assert(scan_run(tokens, here + 1, form, syntax) == Ok::<ScanModel, PathError>(named));
        lemma_next_step(tokens, here + 1, form, syntax, named);
        let colon = ScanModel { phase: Phase::StructColon, ..named };
        assert(scan_run(tokens, here + 2, form, syntax) == Ok::<ScanModel, PathError>(colon));
        lemma_next_step(tokens, here + 2, form, syntax, colon);
        assert(reference.take(1) =~= seq![name]);
        assert(scan_run(tokens, here + 3, form, syntax) == Ok::<ScanModel, PathError>(
            fields_due(start, reference.take(1)),
        ));
    } else {
        lemma_reference_scanned(tokens, at, reference, start, form, syntax, (read - 1) as nat);
        let before = fields_due(start, reference.take(index));
        lemma_next_step(tokens, here, form, syntax, before);
        let first = ScanModel {
            phase: Phase::FieldFirst,
            segments: seq![SegmentModel { join: None, name }],
            ..before
        };
        assert(scan_run(tokens, here + 1, form, syntax) == Ok::<ScanModel, PathError>(first));
        lemma_next_step(tokens, here + 1, form, syntax, first);
        assert(reference.take(index).push(name) =~= reference.take(read as int));
        let colon = ScanModel {
            phase: Phase::StructColon,
            ..fields_due(start, reference.take(read as int))
        };
        assert(scan_run(tokens, here + 2, form, syntax) == Ok::<ScanModel, PathError>(colon));
        lemma_next_step(tokens, here + 2, form, syntax, colon);
        assert(scan_run(tokens, here + 3, form, syntax) == Ok::<ScanModel, PathError>(
            fields_due(start, reference.take(read as int)),
        ));
    }
}

proof fn lemma_fields_scanned(
    tokens: Seq<Token>,
    at: nat,
    reference: Seq<Seq<char>>,
    path: PathModel,
    start: ScanModel,
    form: OutputShape,
    syntax: Syntax,
    read: nat,
)
    requires
        spells_entry(tokens, at as int, reference, path, syntax),
        scan_run(tokens, at, form, syntax) == Ok::<ScanModel, PathError>(start),
        start.phase == Phase::EntryStart,
        start.syntax == syntax,
        1 <= read <= path.segments.len(),
    ensures
        scan_run(tokens, (at + 3 * reference.len() + 2 * read - 1) as nat, form, syntax) == Ok::<
            ScanModel,
            PathError,
        >(fields_read(start, reference, path, read as int)),
    decreases read,
{
    let base = (at + 3 * reference.len()) as nat;
    let index = (read - 1) as int;
    let segment = path.segments[index];
    assert(is_ident(tokens[at + 3 * reference.len() + 2 * index], segment.name));
    if read == 1 {
        lemma_reference_scanned(tokens, at, reference, start, form, syntax, reference.len());
        assert(reference.take(reference.len() as int) =~= reference);
        let open = fields_due(start, reference);
        lemma_next_step(tokens, base, form, syntax, open);
        assert(path.segments.take(1) =~= seq![SegmentModel { join: None, name: segment.name }]);
        assert(scan_run(tokens, base + 1, form, syntax) == Ok::<ScanModel, PathError>(
            fields_read(start, reference, path, 1),
        ));
    } else {
        lemma_fields_scanned(tokens, at, reference, path, start, form, syntax, (read - 1) as nat);
        let before = fields_read(start, reference, path, index);
        let here = (base + 2 * index - 1) as nat;
        assert(is_join(tokens[at + 3 * reference.len() + 2 * index - 1], segment.join, syntax));
        let op = segment.join->Some_0;
        lemma_next_step(tokens, here, form, syntax, before);
        let joining = ScanModel { phase: Phase::FieldJoin(op), ..before };
        assert(scan_run(tokens, here + 1, form, syntax) == Ok::<ScanModel, PathError>(joining));
        lemma_next_step(tokens, here + 1, form, syntax, joining);
        assert(path.segments.take(index).push(
            SegmentModel { join: Some(op), name: segment.name },
        ) =~= path.segments.take(read as int));
        assert(scan_run(tokens, here + 2, form, syntax) == Ok::<ScanModel, PathError>(
            fields_read(start, reference, path, read as int),
        ));
    }
}

/// Scanning an entry with one path, from the start of an entry, leaves the
/// scan with the reference and the segments of that entry, ready to close
/// it: closing adds exactly that entry.
pub proof fn lemma_entry_scanned(
    tokens: Seq<Token>,
    at: nat,
    reference: Seq<Seq<char>>,
    path: PathModel,
    start: ScanModel,
    form: OutputShape,
    syntax: Syntax,
)
    requires
        spells_entry(tokens, at as int, reference, path, syntax),
        scan_run(tokens, at, form, syntax) == Ok::<ScanModel, PathError>(start),
        start.phase == Phase::EntryStart,
        start.syntax == syntax,
    ensures
        scan_run(tokens, (at + entry_width(reference, path)) as nat, form, syntax) == Ok::<
            ScanModel,
            PathError,
        >(fields_read(start, reference, path, path.segments.len() as int)),
        forall|next: Phase|
            (#[trigger] closed_entry(
                fields_read(start, reference, path, path.segments.len() as int),
                next,
            )).entries == start.entries.push(path_entry(reference, path)),
{
    lemma_fields_scanned(tokens, at, reference, path, start, form, syntax, path.segments.len());
    assert(path.segments.take(path.segments.len() as int) =~= path.segments);
}

/// What is assembled from one entry with one path.
proof fn lemma_single_entry_output(reference: Seq<Seq<char>>, path: PathModel)
    ensures
        all_paths(seq![path_entry(reference, path)]) == seq![path],
        all_names(seq![path]) == path.names(),
        checks_text(seq![path_entry(reference, path)]) == check_block(
            qualified_name(reference),
            path.dotted(),
        ),
{
    let entry = path_entry(reference, path);
    let entries = seq![entry];
    assert(entries.drop_last() =~= Seq::<EntryModel>::empty());
    assert(all_paths(entries.drop_last()) =~= Seq::<PathModel>::empty());
    assert(all_paths(entries) =~= seq![path]);
    let paths = seq![path];
    assert(paths.drop_last() =~= Seq::<PathModel>::empty());
    assert(all_names(paths.drop_last()) =~= Seq::<Seq<char>>::empty());
    assert(all_names(paths) =~= path.names());
    assert(entry_blocks(entry) =~= seq![check_block(qualified_name(reference), path.dotted())]);
    assert(checks_text(entries.drop_last()) =~= Seq::<char>::empty());
    assert(checks_text(entries) =~= entry_checks(entry));
}

/// A path expression that is one entry with one path and no options comes
/// out of the scalar form as that path with `.` between its segments. Where
/// every join is written `.`, that is the path exactly as written. Its one
/// accessor reads the same path on the struct named.
pub proof fn law_single_path_comes_out_as_written(
    tokens: Seq<Token>,
    reference: Seq<Seq<char>>,
    path: PathModel,
    syntax: Syntax,
)
    requires
        spells_entry(tokens, 0, reference, path, syntax),
        tokens.len() == entry_width(reference, path),
    ensures
        expanded(tokens, OutputShape::Scalar, syntax) == Ok::<OutputModel, PathError>(
            OutputModel {
                checks: check_block(qualified_name(reference), path.dotted()),
                value: ValueModel::Single(path.dotted()),
            },
        ),
{
    let form = OutputShape::Scalar;
    let start = scan_start(form, syntax);
    lemma_entry_scanned(tokens, 0, reference, path, start, form, syntax);
    let last = fields_read(start, reference, path, path.segments.len() as int);
    let closed = closed_entry(last, Phase::OptionEnd);
    let entries = seq![path_entry(reference, path)];
    let options = Map::<Seq<char>, Seq<char>>::empty();
    assert(closed.entries =~= entries);
    let expression = ExpressionModel { entries, options, shape: OutputShape::Scalar };
    assert(scan_finish(last, tokens.len() as usize) == Ok::<ExpressionModel, PathError>(
        expression,
    ));
    assert(scanned(tokens, form, syntax) == Ok::<ExpressionModel, PathError>(expression));
    lemma_single_entry_output(reference, path);
    assert(cased_names(CaseMode::Unchanged, path.names()) =~= path.names());
}

/// What is assembled from two entries with one path each.
proof fn lemma_two_entries_output(
    first_reference: Seq<Seq<char>>,
    first: PathModel,
    second_reference: Seq<Seq<char>>,
    second: PathModel,
)
    ensures
        all_paths(
            seq![path_entry(first_reference, first), path_entry(second_reference, second)],
        ) == seq![first, second],
        all_names(seq![first, second]) == first.names() + second.names(),
        checks_text(
            seq![path_entry(first_reference, first), path_entry(second_reference, second)],
        ) == check_block(qualified_name(first_reference), first.dotted()) + check_block(
            qualified_name(second_reference),
            second.dotted(),
        ),
{
    let entries = seq![
        path_entry(first_reference, first),
        path_entry(second_reference, second),
    ];
    lemma_single_entry_output(first_reference, first);
    assert(entries.drop_last() =~= seq![path_entry(first_reference, first)]);
    assert(all_paths(entries) =~= seq![first, second]);
    let paths = seq![first, second];
    assert(paths.drop_last() =~= seq![first]);
    assert(all_names(paths) =~= first.names() + second.names());
    assert(entry_blocks(path_entry(second_reference, second)) =~= seq![
        check_block(qualified_name(second_reference), second.dotted()),
    ]);
}

/// `tokens` spell two entries with one path each, with `,` between them, and
/// nothing else.
pub open spec fn spells_two_entries(
    tokens: Seq<Token>,
    first_reference: Seq<Seq<char>>,
    first: PathModel,
    second_reference: Seq<Seq<char>>,
    second: PathModel,
    syntax: Syntax,
) -> bool {
    let comma = entry_width(first_reference, first);
    &&& spells_entry(tokens, 0, first_reference, first, syntax)
    &&& comma < tokens.len()
    &&& is_punct(tokens[comma], ',')
    &&& spells_entry(tokens, comma + 1, second_reference, second, syntax)
    &&& tokens.len() == comma + 1 + entry_width(second_reference, second)
}

/// The expression that two comma-separated entries with one path each scan
/// to, in either form.
proof fn lemma_two_entries_scanned(
    tokens: Seq<Token>,
    first_reference: Seq<Seq<char>>,
    first: PathModel,
    second_reference: Seq<Seq<char>>,
    second: PathModel,
    form: OutputShape,
    syntax: Syntax,
)
    requires
        spells_two_entries(tokens, first_reference, first, second_reference, second, syntax),
    ensures
        scanned(tokens, form, syntax) == Ok::<ExpressionModel, PathError>(
            ExpressionModel {
                entries: seq![
                    path_entry(first_reference, first),
                    path_entry(second_reference, second),
                ],
                options: Map::empty(),
                shape: form,
            },
        ),
{
    let start = scan_start(form, syntax);
    let comma = entry_width(first_reference, first) as nat;
    lemma_entry_scanned(tokens, 0, first_reference, first, start, form, syntax);
    let first_read = fields_read(start, first_reference, first, first.segments.len() as int);
    lemma_next_step(tokens, comma, form, syntax, first_read);
    let between = closed_entry(first_read, Phase::EntryStart);
    assert(scan_run(tokens, comma + 1, form, syntax) == Ok::<ScanModel, PathError>(between));
    lemma_entry_scanned(tokens, comma + 1, second_reference, second, between, form, syntax);
    let second_read = fields_read(between, second_reference, second, second.segments.len() as int);
    let closed = closed_entry(second_read, Phase::OptionEnd);
    let entries = seq![
        path_entry(first_reference, first),
        path_entry(second_reference, second),
    ];
    assert(closed.entries =~= entries);
    let expression = ExpressionModel { entries, options: Map::empty(), shape: form };
    assert(scan_finish(second_read, tokens.len() as usize) == Ok::<ExpressionModel, PathError>(
        expression,
    ));
}

/// In the scalar form, two comma-separated entries with one path each come
/// out as one string: the first path, a `.`, and the second path, each with
/// `.` between its segments. The accessors read each path on its own struct.
pub proof fn law_scalar_continues_across_entries(
    tokens: Seq<Token>,
    first_reference: Seq<Seq<char>>,
    first: PathModel,
    second_reference: Seq<Seq<char>>,
    second: PathModel,
    syntax: Syntax,
)
    requires
        spells_two_entries(tokens, first_reference, first, second_reference, second, syntax),
    ensures
        expanded(tokens, OutputShape::Scalar, syntax) == Ok::<OutputModel, PathError>(
            OutputModel {
                checks: check_block(qualified_name(first_reference), first.dotted())
                    + check_block(qualified_name(second_reference), second.dotted()),
                value: ValueModel::Single(first.dotted() + "."@ + second.dotted()),
            },
        ),
{
    lemma_two_entries_scanned(
        tokens,
        first_reference,
        first,
        second_reference,
        second,
        OutputShape::Scalar,
        syntax,
    );
    lemma_two_entries_output(first_reference, first, second_reference, second);
    lemma_joined_concat(first.names(), second.names(), "."@);
    assert(cased_names(CaseMode::Unchanged, first.names() + second.names()) =~= first.names()
        + second.names());
}

/// In the collection form, the same two entries come out as two strings in
/// the order written.
pub proof fn law_collection_keeps_entries_apart(
    tokens: Seq<Token>,
    first_reference: Seq<Seq<char>>,
    first: PathModel,
    second_reference: Seq<Seq<char>>,
    second: PathModel,
    syntax: Syntax,
)
    requires
        spells_two_entries(tokens, first_reference, first, second_reference, second, syntax),
    ensures
        expanded(tokens, OutputShape::Collection, syntax) == Ok::<OutputModel, PathError>(
            OutputModel {
                checks: check_block(qualified_name(first_reference), first.dotted())
                    + check_block(qualified_name(second_reference), second.dotted()),
                value: ValueModel::Sequence(seq![first.dotted(), second.dotted()]),
            },
        ),
{
    lemma_two_entries_scanned(
        tokens,
        first_reference,
        first,
        second_reference,
        second,
        OutputShape::Collection,
        syntax,
    );
    lemma_two_entries_output(first_reference, first, second_reference, second);
    assert(cased_names(CaseMode::Unchanged, first.names()) =~= first.names());
    assert(cased_names(CaseMode::Unchanged, second.names()) =~= second.names());
    assert(written_each(seq![first, second], CaseMode::Unchanged, "."@) =~= seq![
        first.dotted(),
        second.dotted(),
    ]);
}

/// The tokens of a group spell the plain names `names`, with `,` between
/// neighbours and none after the last.
pub open spec fn spells_members(tokens: Seq<Token>, names: Seq<Seq<char>>) -> bool {
    &&& names.len() >= 1
    &&& tokens.len() == 2 * names.len() - 1
    &&& forall|i: int|
        0 <= i < names.len() ==> {
            &&& is_ident(tokens[2 * i], #[trigger] names[i])
            &&& i >= 1 ==> is_punct(tokens[2 * i - 1], ',')
        }
}

/// The path that is the one field `name`.
pub open spec fn plain_path(name: Seq<char>) -> PathModel {
    PathModel { segments: seq![SegmentModel { join: None, name }] }
}

/// The paths of a group of plain names, in order.
pub open spec fn plain_paths(names: Seq<Seq<char>>) -> Seq<PathModel> {
    Seq::new(names.len(), |i: int| plain_path(names[i]))
}

proof fn lemma_members_scanned(
    tokens: Seq<Token>,
    names: Seq<Seq<char>>,
    syntax: Syntax,
    read: nat,
)
    requires
        spells_members(tokens, names),
        1 <= read <= names.len(),
    ensures
        group_run(tokens, (2 * read - 1) as nat, syntax) == Ok::<GroupModel, PathError>(
            GroupModel {
                phase: Phase::GroupSegment,
                paths: plain_paths(names.take(read - 1)),
                segments: plain_path(names[read - 1]).segments,
            },
        ),
    decreases read,
{
    let index = (read - 1) as int;
    assert(is_ident(tokens[2 * index], names[index]));
    if read == 1 {
        assert(group_run(tokens, 0, syntax) == Ok::<GroupModel, PathError>(group_start()));
        assert(group_run(tokens, 1, syntax) == group_step(group_start(), tokens[0], 0, syntax));
        assert(plain_paths(names.take(0)) =~= Seq::<PathModel>::empty());
    } else {
        lemma_members_scanned(tokens, names, syntax, (read - 1) as nat);
        let here = (2 * index - 1) as nat;
        let before = GroupModel {
            phase: Phase::GroupSegment,
            paths: plain_paths(names.take(index - 1)),
            segments: plain_path(names[index - 1]).segments,
        };
        assert(is_punct(tokens[2 * index - 1], ','));
        assert(group_run(tokens, here + 1, syntax) == group_step(
            before,
            tokens[here as int],
            here as usize,
            syntax,
        ));
        assert(plain_paths(names.take(index - 1)).push(plain_path(names[index - 1]))
            =~= plain_paths(names.take(index)));
        let after = GroupModel {
            phase: Phase::GroupMember,
            paths: plain_paths(names.take(index)),
            segments: Seq::empty(),
        };
        assert(group_run(tokens, here + 1, syntax) == Ok::<GroupModel, PathError>(after));
        assert(group_run(tokens, here + 2, syntax) == group_step(
            after,
            tokens[here + 1 as int],
            (here + 1) as usize,
            syntax,
        ));
    }
}

/// A group of plain names spells one path per name, in the order written.
pub proof fn law_group_keeps_member_order(
    tokens: Seq<Token>,
    names: Seq<Seq<char>>,
    syntax: Syntax,
)
    requires
        spells_members(tokens, names),
    ensures
        group_paths(tokens, syntax) == Ok::<Seq<PathModel>, PathError>(plain_paths(names)),
{
    lemma_members_scanned(tokens, names, syntax, names.len());
    let last = GroupModel {
        phase: Phase::GroupSegment,
        paths: plain_paths(names.take(names.len() - 1)),
        segments: plain_path(names[names.len() - 1]).segments,
    };
    assert(plain_paths(names.take(names.len() - 1)).push(plain_path(names[names.len() - 1]))
        =~= plain_paths(names));
    assert(group_finish(last, tokens.len() as usize) == Ok::<Seq<PathModel>, PathError>(
        plain_paths(names),
    ));
}

/// The accessors of the plain names `names` on one struct, in order.
pub open spec fn plain_blocks(struct_name: Seq<char>, names: Seq<Seq<char>>) -> Seq<Seq<char>> {
    Seq::new(names.len(), |i: int| check_block(struct_name, names[i]))
}

/// A struct reference followed by a group of plain names comes out, in
/// either form, as a sequence of those names in the order written, with one
/// accessor per name.
pub proof fn law_group_comes_out_in_order(
    tokens: Seq<Token>,
    reference: Seq<Seq<char>>,
    names: Seq<Seq<char>>,
    form: OutputShape,
    syntax: Syntax,
)
    requires
        spells_reference(tokens, 0, reference),
        tokens.len() == 3 * reference.len() + 1,
        tokens[3 * reference.len() as int] matches Token::Group(inner) && spells_members(
            inner@,
            names,
        ),
    ensures
        expanded(tokens, form, syntax) == Ok::<OutputModel, PathError>(
            OutputModel {
                checks: joined(plain_blocks(qualified_name(reference), names), "\n"@),
                value: ValueModel::Sequence(names),
            },
        ),
{
    let start = scan_start(form, syntax);
    let group = (3 * reference.len()) as nat;
    let inner = tokens[group as int]->Group_0@;
    lemma_reference_scanned(tokens, 0, reference, start, form, syntax, reference.len());
    assert(reference.take(reference.len() as int) =~= reference);
    let open = fields_due(start, reference);
    law_group_keeps_member_order(inner, names, syntax);
    lemma_next_step(tokens, group, form, syntax, open);
    let grouped = ScanModel {
        phase: Phase::GroupClosed,
        paths: plain_paths(names),
        grouped: true,
        ..open
    };
    assert(scan_run(tokens, group + 1, form, syntax) == Ok::<ScanModel, PathError>(grouped));
    let entry = EntryModel { reference, paths: plain_paths(names) };
    let entries = seq![entry];
    let closed = closed_entry(grouped, Phase::OptionEnd);
    assert(closed.entries =~= entries);
    let expression = ExpressionModel {
        entries,
        options: Map::empty(),
        shape: OutputShape::Collection,
    };
    assert(scan_finish(grouped, tokens.len() as usize) == Ok::<ExpressionModel, PathError>(
        expression,
    ));
    assert(scanned(tokens, form, syntax) == Ok::<ExpressionModel, PathError>(expression));
    assert(entries.drop_last() =~= Seq::<EntryModel>::empty());
    assert(all_paths(entries.drop_last()) =~= Seq::<PathModel>::empty());
    assert(all_paths(entries) =~= plain_paths(names));
    assert forall|i: int| 0 <= i < names.len() implies (#[trigger] plain_paths(
        names,
    )[i]).dotted() == names[i] && cased_names(
        CaseMode::Unchanged,
        plain_paths(names)[i].names(),
    ) == plain_paths(names)[i].names() by {
        assert(plain_paths(names)[i].names() =~= seq![names[i]]);
        assert(cased_names(CaseMode::Unchanged, seq![names[i]]) =~= seq![names[i]]);
    }
    assert(written_each(plain_paths(names), CaseMode::Unchanged, "."@) =~= names);
    assert(entry_blocks(entry) =~= plain_blocks(qualified_name(reference), names));
    assert(checks_text(entries.drop_last()) =~= Seq::<char>::empty());
    assert(checks_text(entries) =~= entry_checks(entry));
}

/// An empty group is rejected as such, whatever struct it stands on, in
/// either form.
pub proof fn law_empty_group_is_rejected(
    tokens: Seq<Token>,
    reference: Seq<Seq<char>>,
    form: OutputShape,
    syntax: Syntax,
)
    requires
        spells_reference(tokens, 0, reference),
        tokens.len() == 3 * reference.len() + 1,
        tokens[3 * reference.len() as int] matches Token::Group(inner) && inner@.len() == 0,
    ensures
        expanded(tokens, form, syntax) == Err::<OutputModel, PathError>(PathError::EmptyGroup),
{
    let start = scan_start(form, syntax);
    let group = (3 * reference.len()) as nat;
    let inner = tokens[group as int]->Group_0@;
    lemma_reference_scanned(tokens, 0, reference, start, form, syntax, reference.len());
    assert(reference.take(reference.len() as int) =~= reference);
    lemma_next_step(tokens, group, form, syntax, fields_due(start, reference));
    assert(group_run(inner, 0, syntax) == Ok::<GroupModel, PathError>(group_start()));
    assert(group_paths(inner, syntax) == Err::<Seq<PathModel>, PathError>(
        PathError::EmptyGroup,
    ));
}

/// A struct name with nothing after it is rejected in either form: nothing
/// shows that it names a struct.
pub proof fn law_lone_name_is_rejected(tokens: Seq<Token>, form: OutputShape, syntax: Syntax)
    requires
        tokens.len() == 1,
        tokens[0] is Ident,
    ensures
        expanded(tokens, form, syntax) == Err::<OutputModel, PathError>(
            PathError::MissingStructName,
        ),
{
    let start = scan_start(form, syntax);
    lemma_next_step(tokens, 0, form, syntax, start);
}

/// An entry with one path followed by `; case = value` is rejected, in either
/// form and before anything is written, unless the value is `camel` or
/// `pascal`. The value may be written as an identifier or as a string
/// literal.
pub proof fn law_unknown_case_is_rejected(
    tokens: Seq<Token>,
    reference: Seq<Seq<char>>,
    path: PathModel,
    value: Seq<char>,
    form: OutputShape,
    syntax: Syntax,
)
    requires
        spells_entry(tokens, 0, reference, path, syntax),
        tokens.len() == entry_width(reference, path) + 4,
        is_punct(tokens[entry_width(reference, path)], ';'),
        is_ident(tokens[entry_width(reference, path) + 1], "case"@),
        is_punct(tokens[entry_width(reference, path) + 2], '='),
        is_ident(tokens[entry_width(reference, path) + 3], value) || (tokens[entry_width(
            reference,
            path,
        ) + 3] matches Token::Literal(text) && unquoted(text@) == Some(value)),
        value != "camel"@,
        value != "pascal"@,
    ensures
        expanded(tokens, form, syntax) == Err::<OutputModel, PathError>(
            PathError::UnknownOptionValue,
        ),
{
    let start = scan_start(form, syntax);
    let end = entry_width(reference, path) as nat;
    lemma_entry_scanned(tokens, 0, reference, path, start, form, syntax);
    let read = fields_read(start, reference, path, path.segments.len() as int);
    lemma_next_step(tokens, end, form, syntax, read);
    let closed = closed_entry(read, Phase::OptionName);
    assert(scan_run(tokens, end + 1, form, syntax) == Ok::<ScanModel, PathError>(closed));
    lemma_next_step(tokens, end + 1, form, syntax, closed);
    let named = ScanModel { phase: Phase::OptionAssign, option_name: "case"@, ..closed };
    assert(scan_run(tokens, end + 2, form, syntax) == Ok::<ScanModel, PathError>(named));
    lemma_next_step(tokens, end + 2, form, syntax, named);
    let assigned = ScanModel { phase: Phase::OptionValue, ..named };
    assert(scan_run(tokens, end + 3, form, syntax) == Ok::<ScanModel, PathError>(assigned));
    lemma_next_step(tokens, end + 3, form, syntax, assigned);
    let set = option_set(assigned, value);
    assert(scan_run(tokens, end + 4, form, syntax) == Ok::<ScanModel, PathError>(set));
    assert(set.options.contains_key("case"@) && set.options["case"@] == value);
    assert(scan_finish(set, tokens.len() as usize) == Err::<ExpressionModel, PathError>(
        PathError::UnknownOptionValue,
    ));
}

} // verus!
