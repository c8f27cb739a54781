//! Formatting options: a map from option name to option value.

use vstd::prelude::*;
use vstd::string::StringExecFns;
use crate::error::PathError;

verus! {

/// How each segment of a path is re-cased when it is written out.
#[derive(Clone, Copy, Debug, PartialEq, Eq, Structural)]
pub enum CaseMode {
    /// Segments are written as they are: no `case` option is set.
    Unchanged,
    /// `case = camel`.
    Camel,
    /// `case = pascal`.
    Pascal,
}

/// The case mode that the options ask for. Only `camel` and `pascal` are
/// values of `case`; any other value is rejected.
pub open spec fn case_mode_of(options: Map<Seq<char>, Seq<char>>) -> Result<CaseMode, PathError> {
    if !options.contains_key("case"@) {
        Ok(CaseMode::Unchanged)
    } else if options["case"@] == "camel"@ {
        Ok(CaseMode::Camel)
    } else if options["case"@] == "pascal"@ {
        Ok(CaseMode::Pascal)
    } else {
        Err(PathError::UnknownOptionValue)
    }
}

/// The text written between the segments of a path: the value of `delim`,
/// or `.` where none is set.
pub open spec fn delimiter_of(options: Map<Seq<char>, Seq<char>>) -> Seq<char> {
    if options.contains_key("delim"@) {
        options["delim"@]
    } else {
        "."@
    }
}

/// One `name = value` pair as it was written.
#[derive(Clone, Debug, PartialEq, Eq)]
pub struct OptionEntry {
    pub name: String,
    pub value: String,
}

/// What a list of pairs means as a map: a later pair replaces an earlier one
/// of the same name.
pub open spec fn entries_map(entries: Seq<OptionEntry>) -> Map<Seq<char>, Seq<char>>
    decreases entries.len(),
{
    if entries.len() == 0 {
        Map::empty()
    } else {
        entries_map(entries.drop_last()).insert(entries.last().name@, entries.last().value@)
    }
}

/// The options of one path expression. Any name may be stored; only `delim`
/// and `case` have an effect on formatting.
#[derive(Clone, Debug)]
pub struct Options {
    entries: Vec<OptionEntry>,
}

impl View for Options {
    type V = Map<Seq<char>, Seq<char>>;

    closed spec fn view(&self) -> Map<Seq<char>, Seq<char>> {
        entries_map(self.entries@)
    }
}

impl Options {
    /// No option set.
    pub fn new() -> (options: Options)
        ensures
            options@ == Map::<Seq<char>, Seq<char>>::empty(),
    {
        Options { entries: Vec::new() }
    }

    /// Sets `name` to `value`, replacing what `name` was set to before.
    pub fn insert(&mut self, name: String, value: String)
        ensures
            final(self)@ == old(self)@.insert(name@, value@),
    {
        self.entries.push(OptionEntry { name, value });
        proof {
            assert(self.entries@.drop_last() =~= old(self).entries@);
        }
    }

    /// The value that `name` is set to, if it is set.
    pub fn get(&self, name: &str) -> (value: Option<&String>)
        ensures
            value is Some <==> self@.contains_key(name@),
            value matches Some(v) ==> v@ == self@[name@],
    {
        let wanted = String::from_str(name);
        let mut i: usize = self.entries.len();
        proof {
            assert(self.entries@.take(i as int) =~= self.entries@);
        }
        while i > 0
            invariant
                i <= self.entries.len(),
                wanted@ == name@,
                self@.contains_key(name@) <==> entries_map(
                    self.entries@.take(i as int),
                ).contains_key(name@),
                self@.contains_key(name@) ==> self@[name@] == entries_map(
                    self.entries@.take(i as int),
                )[name@],
            decreases i,
        {
            proof {
                assert(self.entries@.take(i as int).drop_last() =~= self.entries@.take(i - 1));
            }
            i -= 1;
            if self.entries[i].name == wanted {
                return Some(&self.entries[i].value);
            }
        }
        None
    }

    /// The case mode that the options ask for.
    pub fn case_mode(&self) -> (mode: Result<CaseMode, PathError>)
        ensures
            mode == case_mode_of(self@),
    {
        match self.get("case") {
            None => Ok(CaseMode::Unchanged),
            Some(value) => {
                if *value == String::from_str("camel") {
                    Ok(CaseMode::Camel)
                } else if *value == String::from_str("pascal") {
                    Ok(CaseMode::Pascal)
                } else {
                    Err(PathError::UnknownOptionValue)
                }
            },
        }
    }

    /// The text written between the segments of a path.
    pub fn delimiter(&self) -> (delimiter: &str)
        ensures
            delimiter@ == delimiter_of(self@),
    {
        match self.get("delim") {
            Some(value) => value.as_str(),
            None => ".",
        }
    }

    /// Whether no option is set.
    pub fn is_empty(&self) -> (empty: bool)
        ensures
            empty <==> self@ == Map::<Seq<char>, Seq<char>>::empty(),
    {
        proof {
            if self.entries@.len() > 0 {
                assert(self@.contains_key(self.entries@.last().name@));
            }
        }
        self.entries.len() == 0
    }
}

} // verus!
