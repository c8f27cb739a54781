//! The members of a group: comma-separated field paths between delimiters.

use vstd::prelude::*;
use crate::error::{PathError, Phase};
use crate::model::{well_joined, FieldPath, PathModel, Segment, SegmentModel};
use crate::token::{join_of, join_operator, Syntax, Token};

verus! {

/// What has been read of a group: the finished members and the segments of
/// the member being read.
pub struct GroupModel {
    pub phase: Phase,
    pub paths: Seq<PathModel>,
    pub segments: Seq<SegmentModel>,
}

/// Before the first token of a group.
pub open spec fn group_start() -> GroupModel {
    GroupModel { phase: Phase::GroupMember, paths: Seq::empty(), segments: Seq::empty() }
}

/// The state after `token`, which stands at `index` in the group.
///
/// An identifier starts a member or follows a join operator; a join operator
/// and `,` each follow a segment. Everything else is unexpected.
pub open spec fn group_step(state: GroupModel, token: Token, index: usize, syntax: Syntax) -> Result<
    GroupModel,
    PathError,
> {
    let unexpected = Err::<GroupModel, PathError>(
        PathError::UnexpectedToken { index, phase: state.phase },
    );
    match token {
        Token::Ident(name) => match state.phase {
            Phase::GroupMember => Ok(
                GroupModel {
                    phase: Phase::GroupSegment,
                    paths: state.paths,
                    segments: seq![SegmentModel { join: None, name: name@ }],
                },
            ),
            Phase::GroupJoin(op) => Ok(
                GroupModel {
                    phase: Phase::GroupSegment,
                    paths: state.paths,
                    segments: state.segments.push(SegmentModel { join: Some(op), name: name@ }),
                },
            ),
            _ => unexpected,
        },
        Token::Punct(c) => if state.phase != Phase::GroupSegment {
            unexpected
        } else if c == ',' {
            Ok(
                GroupModel {
                    phase: Phase::GroupMember,
                    paths: state.paths.push(PathModel { segments: state.segments }),
                    segments: Seq::empty(),
                },
            )
        } else {
            match join_of(c, syntax) {
                Some(op) => Ok(
                    GroupModel {
                        phase: Phase::GroupJoin(op),
                        paths: state.paths,
                        segments: state.segments,
                    },
                ),
                None => unexpected,
            }
        },
        _ => unexpected,
    }
}

/// The state after the first `count` tokens of the group, or the error of the
/// first token that cannot follow.
pub open spec fn group_run(tokens: Seq<Token>, count: nat, syntax: Syntax) -> Result<
    GroupModel,
    PathError,
>
    decreases count,
{
    if count == 0 {
        Ok(group_start())
    } else {
        match group_run(tokens, (count - 1) as nat, syntax) {
            Ok(state) => group_step(state, tokens[count - 1], (count - 1) as usize, syntax),
            Err(error) => Err(error),
        }
    }
}

/// The members of a group whose `count` tokens left it in `state`.
///
/// The last member needs no comma after it. A group without a member is
/// empty; a join operator with nothing after it is unexpected.
pub open spec fn group_finish(state: GroupModel, count: usize) -> Result<Seq<PathModel>, PathError> {
    match state.phase {
        Phase::GroupSegment => Ok(state.paths.push(PathModel { segments: state.segments })),
        Phase::GroupMember => if state.paths.len() == 0 {
            Err(PathError::EmptyGroup)
        } else {
            Ok(state.paths)
        },
        _ => Err(PathError::UnexpectedToken { index: count, phase: state.phase }),
    }
}

/// The field paths that the tokens of a group spell, or why they spell none.
pub open spec fn group_paths(tokens: Seq<Token>, syntax: Syntax) -> Result<
    Seq<PathModel>,
    PathError,
> {
    match group_run(tokens, tokens.len(), syntax) {
        Ok(state) => group_finish(state, tokens.len() as usize),
        Err(error) => Err(error),
    }
}

/// Once a token is rejected, the error stands whatever follows.
pub proof fn lemma_group_error_stands(
    tokens: Seq<Token>,
    failed: nat,
    count: nat,
    syntax: Syntax,
)
    requires
        failed <= count,
        group_run(tokens, failed, syntax) is Err,
    ensures
        group_run(tokens, count, syntax) == group_run(tokens, failed, syntax),
    decreases count,
{
    if failed < count {
        lemma_group_error_stands(tokens, failed, (count - 1) as nat, syntax);
    }
}

/// Reads the tokens of a group into its member paths, in the order written.
///
/// Each member is one or more identifiers separated by join operators, and
/// members are separated by `,`. The result is exactly `group_paths`: the
/// members on success, and otherwise the error of the first offending token.
pub fn parse_multiple_fields(tokens: &Vec<Token>, syntax: Syntax) -> (result: Result<
    Vec<FieldPath>,
    PathError,
>)
    ensures
        match result {
            Ok(paths) => group_paths(tokens@, syntax) == Ok::<Seq<PathModel>, PathError>(
                paths.deep_view(),
            ),
            Err(error) => group_paths(tokens@, syntax) == Err::<Seq<PathModel>, PathError>(error),
        },
        result matches Ok(paths) ==> paths.len() >= 1 && forall|i: int|
            0 <= i < paths.len() ==> (#[trigger] paths.deep_view()[i]).well_formed(),
{
    let mut phase = Phase::GroupMember;
    let mut paths: Vec<FieldPath> = Vec::new();
    let mut segments: Vec<Segment> = Vec::new();
    let mut i: usize = 0;
    proof {
        assert(paths.deep_view() =~= Seq::<PathModel>::empty());
        assert(segments.deep_view() =~= Seq::<SegmentModel>::empty());
    }
    while i < tokens.len()
        invariant
            i <= tokens.len(),
            group_run(tokens@, i as nat, syntax) == Ok::<GroupModel, PathError>(
                GroupModel {
                    phase,
                    paths: paths.deep_view(),
                    segments: segments.deep_view(),
                },
            ),
            forall|k: int| 0 <= k < paths.len() ==> (#[trigger] paths.deep_view()[k]).well_formed(),
            phase == Phase::GroupMember ==> segments.len() == 0,
            phase != Phase::GroupMember ==> well_joined(segments.deep_view()),
            phase == Phase::GroupMember || phase == Phase::GroupSegment || phase is GroupJoin,
        decreases tokens.len() - i,
    {
        let ghost before = GroupModel {
            phase,
            paths: paths.deep_view(),
            segments: segments.deep_view(),
        };
        let ghost old_paths = paths.deep_view();
        let ghost old_segments = segments.deep_view();
        let mut accepted = false;
        match &tokens[i] {
            Token::Ident(name) => {
                match phase {
                    Phase::GroupMember => {
                        segments.push(Segment { join: None, name: name.clone() });
                        phase = Phase::GroupSegment;
                        accepted = true;
                        proof {
                            assert(segments.deep_view() =~= seq![
                                SegmentModel { join: None, name: name@ },
                            ]);
                        }
                    },
                    Phase::GroupJoin(op) => {
                        segments.push(Segment { join: Some(op), name: name.clone() });
                        phase = Phase::GroupSegment;
                        accepted = true;
                        proof {
                            assert(segments.deep_view() =~= old_segments.push(
                                SegmentModel { join: Some(op), name: name@ },
                            ));
                        }
                    },
                    _ => {},
                }
            },
            Token::Punct(c) => {
                if phase == Phase::GroupSegment {
                    if *c == ',' {
                        let mut member: Vec<Segment> = Vec::new();
                        std::mem::swap(&mut member, &mut segments);
                        paths.push(FieldPath { segments: member });
                        phase = Phase::GroupMember;
                        accepted = true;
                        proof {
                            assert(paths.deep_view() =~= old_paths.push(
                                PathModel { segments: old_segments },
                            ));
                            assert(segments.deep_view() =~= Seq::<SegmentModel>::empty());
                        }
                    } else {
                        match join_operator(*c, syntax) {
                            Some(op) => {
                                phase = Phase::GroupJoin(op);
                                accepted = true;
                            },
                            None => {},
                        }
                    }
                }
            },
            _ => {},
        }
        if !accepted {
            let error = PathError::UnexpectedToken { index: i, phase };
            proof {
                assert(group_step(before, tokens@[i as int], i, syntax) == Err::<
                    GroupModel,
                    PathError,
                >(error));
                lemma_group_error_stands(tokens@, (i + 1) as nat, tokens@.len(), syntax);
            }
            return Err(error);
        }
        i += 1;
    }
    match phase {
        Phase::GroupSegment => {
            let ghost old_paths = paths.deep_view();
            paths.push(FieldPath { segments });
            proof {
                assert(paths.deep_view() =~= old_paths.push(
                    PathModel { segments: segments.deep_view() },
                ));
            }
            Ok(paths)
        },
        Phase::GroupMember => {
            if paths.len() == 0 {
                Err(PathError::EmptyGroup)
            } else {
                Ok(paths)
            }
        },
        _ => Err(PathError::UnexpectedToken { index: tokens.len(), phase }),
    }
}

} // verus!
