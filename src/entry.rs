//! Deciding, for one entry met during the walk, whether it is left out; a
//! directory left out is not descended into.
use vstd::prelude::*;
use crate::policy::{get_ignore_dirs, get_ignore_filenames, ignored_dirs, ignored_file_names};
use crate::policy::{str_eq, table_contains};
use crate::text::{first_char, longer_than_one, lower_of, to_lower};

verus! {

/// The one dot-directory that is still walked: CI configuration.
pub open spec fn ci_dir_name() -> Seq<char> {
    ".github"@
}

/// A hidden directory: a leading dot, more than one character, and not the
/// CI configuration directory.
pub open spec fn hidden_dir(name: Seq<char>) -> bool {
    name.len() > 1 && name[0] == '.' && name != ci_dir_name()
}

/// Whether the walk leaves out an entry of this name and kind.
pub open spec fn excluded(name: Seq<char>, is_dir: bool) -> bool {
    if is_dir {
        hidden_dir(name) || ignored_dirs().contains(name)
    } else {
        ignored_file_names().contains(lower_of(name))
    }
}

/// Whether the walk leaves out the entry `name`, a directory when `is_dir`.
/// Directories are matched case-sensitively, file names after lower-casing.
pub fn is_hidden_or_ignored(name: &str, is_dir: bool) -> (r: bool)
    ensures
        r == excluded(name@, is_dir),
{
    if is_dir {
        let ci = ".github";
        let hidden = match first_char(name) {
            Some(c) => c == '.' && longer_than_one(name) && !str_eq(name, ci),
            None => false,
        };
        if hidden {
            return true;
        }
        table_contains(&get_ignore_dirs(), name)
    } else {
        let lower = to_lower(name);
        table_contains(&get_ignore_filenames(), lower.as_str())
    }
}

/// A directory whose name starts with a dot, is longer than the dot alone and
/// is not the CI configuration directory is always pruned, together with
/// everything beneath it.
pub proof fn hidden_dirs_are_pruned(name: Seq<char>)
    requires
        name.len() > 1,
        name[0] == '.',
        name != ci_dir_name(),
    ensures
        excluded(name, true),
{
}

} // verus!
