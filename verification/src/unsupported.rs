//! Platforms on which no place is known where a Java runtime may be.
//!
//! Nothing is looked up there, and only the `java` command of the search
//! path is left to try.

use vstd::prelude::*;

verus! {

/// The command that starts Java.
pub const PLATFORM_JAVA_EXECUTABLE_NAME: &'static str = "java";

/// Stands where the other platforms name a page about Java runtimes: there
/// is no such page for these platforms.
pub const INSTALLER_JRE_HELP_URL: &'static str = "DUMMY_STUB";

/// Lists every place where a Java runtime may be: none.
pub fn get_jre_locations() -> (candidates: Vec<String>)
    ensures
        candidates.deep_view() == Seq::<Seq<char>>::empty(),
{
    let candidates: Vec<String> = Vec::new();
    assert(candidates.deep_view() =~= Seq::<Seq<char>>::empty());
    candidates
}

} // verus!
