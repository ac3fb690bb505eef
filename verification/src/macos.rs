//! Where a Java runtime may be found on macOS.
//!
//! The game's launcher keeps the runtimes that it has downloaded below its
//! directory in the user's application support. The system keeps every
//! installed Java virtual machine in a directory of its own below one
//! common directory.

use crate::lookup::{candidates_below, found, push_candidates_below, LookupError};
use crate::paths::{join, join_spec, PathStyle};
use vstd::prelude::*;

verus! {

/// The command that starts Java.
pub const PLATFORM_JAVA_EXECUTABLE_NAME: &'static str = "java";

/// The page that explains how to get a Java runtime.
pub const INSTALLER_JRE_HELP_URL: &'static str = "https://quiltmc.org";

/// The launcher's directory, below the user's home directory.
pub const LAUNCHER_DIR: &'static str = "Library/Application Support/minecraft";

/// The directory below which the system keeps the installed Java virtual
/// machines, one directory each.
pub const JVM_REGISTRY_DIR: &'static str = "/Library/Java/JavaVirtualMachines/";

/// The paths of `java` in the runtime bundles that the launcher may hold,
/// relative to the launcher's directory, the likeliest first.
pub open spec fn runtime_sub_paths() -> Seq<Seq<char>> {
    seq![
        "runtime/jre-x64/jre.bundle/Contents/Home/bin/java"@,
        "runtime/jre-legacy/jre.bundle/Contents/Home/bin/java"@,
        "runtime/java-runtime-alpha/macos/java-runtime-alpha/jre.bundle/Contents/Home/bin/java"@,
        "runtime/java-runtime-beta/macos/java-runtime-beta/jre.bundle/Contents/Home/bin/java"@,
    ]
}

/// The relative paths of [`runtime_sub_paths`].
pub fn runtime_paths() -> (paths: Vec<&'static str>)
    ensures
        paths.deep_view() == runtime_sub_paths(),
{
    let paths = vec![
        "runtime/jre-x64/jre.bundle/Contents/Home/bin/java",
        "runtime/jre-legacy/jre.bundle/Contents/Home/bin/java",
        "runtime/java-runtime-alpha/macos/java-runtime-alpha/jre.bundle/Contents/Home/bin/java",
        "runtime/java-runtime-beta/macos/java-runtime-beta/jre.bundle/Contents/Home/bin/java",
    ];
    assert(paths.deep_view() =~= runtime_sub_paths());
    paths
}

/// One entry of the directory of installed Java virtual machines.
#[derive(Clone, Debug, PartialEq, Eq)]
pub enum JvmEntry {
    /// The entry could not be read.
    Unreadable,
    /// The entry at the path `home`. `has_java` says whether anything
    /// exists at [`host_java_executable`] of `home`.
    Install { home: String, has_java: bool },
}

/// What a [`JvmEntry`] holds, with the path as a sequence of characters.
pub enum JvmEntryView {
    Unreadable,
    Install { home: Seq<char>, has_java: bool },
}

impl DeepView for JvmEntry {
    type V = JvmEntryView;

    open spec fn deep_view(&self) -> JvmEntryView {
        match self {
            JvmEntry::Unreadable => JvmEntryView::Unreadable,
            JvmEntry::Install { home, has_java } => JvmEntryView::Install {
                home: home@,
                has_java: *has_java,
            },
        }
    }
}

/// The path of the executable of the virtual machine installed at `home`.
pub open spec fn host_java_executable_spec(home: Seq<char>) -> Seq<char> {
    join_spec(
        PathStyle::Unix,
        join_spec(PathStyle::Unix, home, "bin"@),
        PLATFORM_JAVA_EXECUTABLE_NAME@,
    )
}

/// The executables that the entry `entry` contributes: that of an
/// installation that has one, and none otherwise.
pub open spec fn host_jre_of(entry: JvmEntryView) -> Seq<Seq<char>> {
    match entry {
        JvmEntryView::Install { home, has_java } => if has_java {
            seq![host_java_executable_spec(home)]
        } else {
            Seq::empty()
        },
        JvmEntryView::Unreadable => Seq::empty(),
    }
}

/// The executables of the installations among `entries` that have one, in
/// the order of `entries`.
pub open spec fn host_jres(entries: Seq<JvmEntryView>) -> Seq<Seq<char>>
    decreases entries.len(),
{
    if entries.len() == 0 {
        Seq::empty()
    } else {
        host_jres(entries.drop_last()) + host_jre_of(entries.last())
    }
}

/// The path at which the virtual machine installed at `home` would have
/// its executable.
pub fn host_java_executable(home: &str) -> (path: String)
    ensures
        path@ == host_java_executable_spec(home@),
{
    let bin = join(PathStyle::Unix, home, "bin");
    join(PathStyle::Unix, bin.as_str(), PLATFORM_JAVA_EXECUTABLE_NAME)
}

/// Lists the executables of the Java virtual machines that the system has
/// installed.
///
/// `listing` holds the entries of [`JVM_REGISTRY_DIR`] in the order in which
/// the directory gave them, or the reason why it could not be read. An entry
/// that could not be read, and an installation without an executable, is
/// passed over.
pub fn get_host_jre_locations(
    listing: &Result<Vec<JvmEntry>, LookupError>,
) -> (jvms: Result<Vec<String>, LookupError>)
    ensures
        listing is Ok ==> jvms is Ok && jvms->Ok_0.deep_view() == host_jres(
            listing->Ok_0.deep_view(),
        ),
        listing is Err ==> jvms == Err::<Vec<String>, LookupError>(listing->Err_0),
{
    match listing {
        Err(e) => Err(*e),
        Ok(entries) => {
            let ghost all = entries.deep_view();
            let mut jvms: Vec<String> = Vec::new();
            assert(jvms.deep_view() =~= host_jres(all.take(0)));
            let mut i: usize = 0;
            while i < entries.len()
                invariant
                    i <= entries.len(),
                    all == entries.deep_view(),
                    jvms.deep_view() == host_jres(all.take(i as int)),
                decreases entries.len() - i,
            {
                let ghost prev = jvms.deep_view();
                proof {
                    assert(all.take(i + 1).drop_last() =~= all.take(i as int));
                    assert(all.take(i + 1).last() == entries[i as int].deep_view());
                }
                match &entries[i] {
                    JvmEntry::Install { home, has_java } => {
                        if *has_java {
                            jvms.push(host_java_executable(home.as_str()));
                        }
                    },
                    JvmEntry::Unreadable => {},
                }
                assert(jvms.deep_view() =~= prev + host_jre_of(all[i as int]));
                i += 1;
            }
            assert(all.take(entries.len() as int) =~= all);
            Ok(jvms)
        },
    }
}

/// The launcher's directory for a user whose home directory is `home`.
pub open spec fn launcher_install_path_spec(home: Seq<char>) -> Seq<char> {
    join_spec(PathStyle::Unix, home, LAUNCHER_DIR@)
}

/// The directory in which the launcher would keep its files, for a user
/// whose home directory is `home`.
pub fn launcher_install_path(home: &str) -> (path: String)
    ensures
        path@ == launcher_install_path_spec(home@),
{
    join(PathStyle::Unix, home, LAUNCHER_DIR)
}

/// The directory in which the launcher would keep its files, for a user
/// whose home directory, if there is one, is `home`: below that directory
/// where there is one, and nowhere where there is none.
pub fn launcher_install_path_of(home: Option<String>) -> (path: Option<String>)
    ensures
        home is None ==> path is None,
        home is Some ==> path is Some && path->Some_0@ == launcher_install_path_spec(
            home->Some_0@,
        ),
{
    match home {
        Some(home) => Some(launcher_install_path(home.as_str())),
        None => None,
    }
}

/// Asks `dirs::home_dir` for the current user's home directory.
///
/// The answer depends on the environment and on the user database, so the
/// contract promises nothing about it. A home directory whose path is not
/// valid Unicode cannot be held in a `String` and is reported as absent.
#[verifier::external_body]
fn home_dir() -> (home: Option<String>) {
    match dirs::home_dir() {
        Some(path) => path.into_os_string().into_string().ok(),
        None => None,
    }
}

/// The directory in which the launcher would keep its files for the current
/// user, if the user has a home directory.
///
/// Whether the user has one is for `dirs::home_dir` to say. What follows
/// from its answer is [`launcher_install_path_of`] of that answer.
pub fn user_launcher_install_path() -> (path: Option<String>)
    ensures
        path matches Some(p) ==> exists|home: Seq<char>|
            p@ == #[trigger] launcher_install_path_spec(home),
{
    let home = home_dir();
    let path = launcher_install_path_of(home);
    proof {
        if path is Some {
            assert(path->Some_0@ == launcher_install_path_spec(home->Some_0@));
        }
    }
    path
}

/// Finds the launcher's directory.
///
/// `path` is where the launcher would be for the current user, if the user
/// has a home directory. `present` says whether anything exists there; it is
/// not looked at where `path` is absent.
pub fn launcher_install_dir(
    path: Option<String>,
    present: bool,
) -> (dir: Result<String, LookupError>)
    ensures
        path is Some && present ==> dir == Ok::<String, LookupError>(path->Some_0),
        !(path is Some && present) ==> dir == Err::<String, LookupError>(LookupError::Other),
{
    match path {
        Some(p) => if present {
            Ok(p)
        } else {
            Err(LookupError::Other)
        },
        None => Err(LookupError::Other),
    }
}

/// What the listing of the system's installations gave: the executables,
/// or nothing where they could not be listed.
pub open spec fn found_jvms(host_jvms: Result<Vec<String>, LookupError>) -> Option<
    Seq<Seq<char>>,
> {
    match host_jvms {
        Ok(jvms) => Some(jvms.deep_view()),
        Err(_) => None,
    }
}

/// The executables that the system's installations contribute, and none
/// where they could not be listed.
pub open spec fn host_candidates(host_jvms: Option<Seq<Seq<char>>>) -> Seq<Seq<char>> {
    match host_jvms {
        Some(jvms) => jvms,
        None => Seq::empty(),
    }
}

/// The candidates on macOS: those below the launcher's directory, then the
/// executables of the system's installations. A source that was not found
/// contributes none.
pub open spec fn jre_locations(
    installer_dir: Option<Seq<char>>,
    host_jvms: Option<Seq<Seq<char>>>,
) -> Seq<Seq<char>> {
    candidates_below(PathStyle::Unix, installer_dir, runtime_sub_paths()) + host_candidates(
        host_jvms,
    )
}

/// Lists every place where a Java runtime may be, the likeliest first.
///
/// `installer_dir` is what [`launcher_install_dir`] found, and `host_jvms`
/// what [`get_host_jre_locations`] found.
pub fn get_jre_locations(
    installer_dir: &Result<String, LookupError>,
    host_jvms: &Result<Vec<String>, LookupError>,
) -> (candidates: Vec<String>)
    ensures
        candidates.deep_view() == jre_locations(found(*installer_dir), found_jvms(*host_jvms)),
{
    let paths = runtime_paths();
    let mut candidates: Vec<String> = Vec::new();
    assert(candidates.deep_view() =~= Seq::<Seq<char>>::empty());
    push_candidates_below(&mut candidates, PathStyle::Unix, installer_dir, &paths);
    match host_jvms {
        Ok(jvms) => {
            let ghost bundled = candidates.deep_view();
            let mut i: usize = 0;
            while i < jvms.len()
                invariant
                    i <= jvms.len(),
                    candidates.deep_view() == bundled + jvms.deep_view().take(i as int),
                decreases jvms.len() - i,
            {
                let ghost prev = candidates.deep_view();
                let jvm = jvms[i].clone();
                candidates.push(jvm);
                proof {
                    let host = jvms.deep_view();
                    assert(candidates.deep_view() =~= prev.push(host[i as int]));
                    assert(host.take(i + 1) =~= host.take(i as int).push(host[i as int]));
                }
                i += 1;
            }
            assert(jvms.deep_view().take(jvms.len() as int) =~= jvms.deep_view());
        },
        Err(_) => {},
    }
    candidates
}

/// The launcher's bundled runtimes come before the system's installations,
/// and each source's candidates keep their order.
pub proof fn lemma_bundled_candidates_come_first(
    installer_dir: Option<Seq<char>>,
    host_jvms: Option<Seq<Seq<char>>>,
)
    ensures
        ({
            let all = jre_locations(installer_dir, host_jvms);
            let bundled = candidates_below(PathStyle::Unix, installer_dir, runtime_sub_paths());
            let host = host_candidates(host_jvms);
            &&& all.len() == bundled.len() + host.len()
            &&& forall|i: int| 0 <= i < bundled.len() ==> all[i] == bundled[i]
            &&& forall|i: int| 0 <= i < host.len() ==> all[bundled.len() + i] == host[i]
            &&& forall|i: int|
                0 <= i < bundled.len() ==> bundled[i] == join_spec(
                    PathStyle::Unix,
                    installer_dir->Some_0,
                    #[trigger] runtime_sub_paths()[i],
                )
        }),
{
}

/// A lookup that fails shortens the list and does nothing else: the failed
/// source's candidates are missing and the other source's are all there.
pub proof fn lemma_failed_lookup_only_omits(
    installer_dir: Option<Seq<char>>,
    host_jvms: Option<Seq<Seq<char>>>,
)
    ensures
        installer_dir is None ==> jre_locations(installer_dir, host_jvms) == host_candidates(
            host_jvms,
        ),
        host_jvms is None ==> jre_locations(installer_dir, host_jvms) == candidates_below(
            PathStyle::Unix,
            installer_dir,
            runtime_sub_paths(),
        ),
        installer_dir is Some ==> jre_locations(installer_dir, host_jvms).len() == 4
            + host_candidates(host_jvms).len(),
{
}

/// The system's installations are listed in the order of the directory's
/// entries: appending an entry appends its executable, if it has one, and
/// changes nothing before it.
pub proof fn lemma_host_jres_keep_order(entries: Seq<JvmEntryView>, entry: JvmEntryView)
    ensures
        host_jres(entries.push(entry)) == host_jres(entries) + host_jre_of(entry),
        host_jres(entries).len() <= entries.len(),
    decreases entries.len(),
{
    assert(entries.push(entry).drop_last() =~= entries);
    if entries.len() > 0 {
        lemma_host_jres_keep_order(entries.drop_last(), entries.last());
        assert(entries.drop_last().push(entries.last()) =~= entries);
    }
}

} // verus!
