//! The check emitter: for every field path of every entry, an accessor that
//! the host compiler type-checks, so that a path to a field that does not
//! exist stops the build. The accessors are never run.

use vstd::prelude::*;
use vstd::string::StringExecFns;
use crate::format::push_cased_segments;
use crate::model::{qualified_name, EntryModel, FieldPath, StructEntry};
use crate::options::CaseMode;
use crate::text::{join_segments, joined};

verus! {

/// What stands before the struct name in an accessor.
pub const CHECK_HEAD: &'static str =
    "\n                {\n                    #[allow(dead_code, unused_variables)]\n                    fn _test_struct_field(test_struct: &";

/// What stands between the struct name and the field path.
pub const CHECK_MIDDLE: &'static str = ") {\n                        let _t = &test_struct.";

/// What stands after the field path.
pub const CHECK_TAIL: &'static str = ";\n                    }\n                }\n            ";

/// The accessor for one field path on one struct: a function that takes a
/// reference to the struct and reads the path as it is written with dots.
pub open spec fn check_block(struct_name: Seq<char>, dotted_path: Seq<char>) -> Seq<char> {
    CHECK_HEAD@ + struct_name + CHECK_MIDDLE@ + dotted_path + CHECK_TAIL@
}

/// The accessors of the paths of one entry, in order.
pub open spec fn entry_blocks(entry: EntryModel) -> Seq<Seq<char>> {
    Seq::new(
        entry.paths.len(),
        |i: int| check_block(qualified_name(entry.reference), entry.paths[i].dotted()),
    )
}

/// The accessors of one entry with a line break between neighbours.
pub open spec fn entry_checks(entry: EntryModel) -> Seq<char> {
    joined(entry_blocks(entry), "\n"@)
}

/// The accessors of all entries: those of each entry in turn, with nothing
/// between one entry and the next.
pub open spec fn checks_text(entries: Seq<EntryModel>) -> Seq<char>
    decreases entries.len(),
{
    if entries.len() == 0 {
        Seq::empty()
    } else {
        checks_text(entries.drop_last()) + entry_checks(entries.last())
    }
}

/// The path as it is written with `.` between its segments.
pub fn dotted_path(path: &FieldPath) -> (out: String)
    ensures
        out@ == path.deep_view().dotted(),
{
    let mut names: Vec<String> = Vec::new();
    proof {
        assert(names.deep_view() =~= Seq::<Seq<char>>::empty());
    }
    push_cased_segments(path, CaseMode::Unchanged, &mut names);
    proof {
        assert(names.deep_view() =~= path.deep_view().names());
    }
    join_segments(&names, ".")
}

/// Writes the accessors of one entry.
fn entry_checks_code(entry: &StructEntry) -> (out: String)
    ensures
        out@ == entry_checks(entry.deep_view()),
{
    let struct_name = join_segments(&entry.reference.segments, "::");
    let mut blocks: Vec<String> = Vec::new();
    let mut i: usize = 0;
    proof {
        assert(blocks.deep_view() =~= entry_blocks(entry.deep_view()).take(0));
    }
    while i < entry.paths.len()
        invariant
            i <= entry.paths.len(),
            struct_name@ == qualified_name(entry.deep_view().reference),
            blocks.deep_view() == entry_blocks(entry.deep_view()).take(i as int),
        decreases entry.paths.len() - i,
    {
        let ghost before = blocks.deep_view();
        let mut block = String::from_str(CHECK_HEAD);
        block.append(struct_name.as_str());
        block.append(CHECK_MIDDLE);
        let dotted = dotted_path(&entry.paths[i]);
        block.append(dotted.as_str());
        block.append(CHECK_TAIL);
        blocks.push(block);
        proof {
            assert(blocks.deep_view() =~= before.push(block@));
            assert(entry_blocks(entry.deep_view()).take(i + 1) =~= entry_blocks(
                entry.deep_view(),
            ).take(i as int).push(entry_blocks(entry.deep_view())[i as int]));
        }
        i += 1;
    }
    proof {
        assert(entry_blocks(entry.deep_view()).take(entry.paths.len() as int) =~= entry_blocks(
            entry.deep_view(),
        ));
    }
    join_segments(&blocks, "\n")
}

/// Writes, for every field path of every entry, an accessor on the entry's
/// struct, in the order of the entries and of their paths. The paths are
/// read as written: options have no part in it.
pub fn generate_checks_code_for(found_structs: &Vec<StructEntry>) -> (all_check_functions: String)
    ensures
        all_check_functions@ == checks_text(found_structs.deep_view()),
{
    let mut all_check_functions = String::new();
    let mut i: usize = 0;
    while i < found_structs.len()
        invariant
            i <= found_structs.len(),
            all_check_functions@ == checks_text(found_structs.deep_view().take(i as int)),
        decreases found_structs.len() - i,
    {
        let check_functions = entry_checks_code(&found_structs[i]);
        all_check_functions.append(check_functions.as_str());
        proof {
            let done = found_structs.deep_view().take(i + 1);
            assert(done.drop_last() =~= found_structs.deep_view().take(i as int));
            assert(done.last() == found_structs.deep_view()[i as int]);
        }
        i += 1;
    }
    proof {
        assert(found_structs.deep_view().take(found_structs.len() as int)
            =~= found_structs.deep_view());
    }
    all_check_functions
}

} // verus!
