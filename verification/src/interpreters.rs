//! The tags of the interpreters that shebang lines name.

use vstd::prelude::*;

use crate::extensions::{lookup_tags, table_tags};
use crate::tags::TagSet;

verus! {

/// The tags of each recognized interpreter.
pub const INTERPRETER_TAGS: [(&'static str, &'static str); 37] = [
    ("ash", "shell"), ("ash", "ash"),
    ("awk", "awk"),
    ("bash", "shell"), ("bash", "bash"),
    ("bats", "shell"), ("bats", "bash"), ("bats", "bats"),
    ("cbsd", "shell"), ("cbsd", "cbsd"),
    ("csh", "shell"), ("csh", "csh"),
    ("dash", "shell"), ("dash", "dash"),
    ("expect", "expect"),
    ("ksh", "shell"), ("ksh", "ksh"),
    ("node", "javascript"),
    ("nodejs", "javascript"),
    ("perl", "perl"),
    ("php", "php"),
    ("php7", "php"), ("php7", "php7"),
    ("php8", "php"), ("php8", "php8"),
    ("python", "python"),
    ("python2", "python"), ("python2", "python2"),
    ("python3", "python"), ("python3", "python3"),
    ("ruby", "ruby"),
    ("sh", "shell"), ("sh", "sh"),
    ("tcsh", "shell"), ("tcsh", "tcsh"),
    ("zsh", "shell"), ("zsh", "zsh"),
];

/// The tags of a recognized interpreter name.
pub open spec fn interpreter_table_tags(name: Seq<char>) -> Set<Seq<char>> {
    table_tags(INTERPRETER_TAGS@, name)
}

/// The tags of an interpreter name (empty when it is not recognized).
pub fn get_interpreter_tags(interpreter: &str) -> (r: TagSet)
    ensures
        r@ == interpreter_table_tags(interpreter@),
{
    lookup_tags(&INTERPRETER_TAGS, interpreter)
}

} // verus!
