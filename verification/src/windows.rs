//! Where a Java runtime may be found on Windows.
//!
//! The game's launcher keeps the runtimes that it has downloaded below its
//! installation directory, one bundle per runtime generation. The launcher
//! comes in two forms. The one from the package store keeps its files in
//! the store's own place below the user's local application data. The
//! classic one records its installation directory in the registry. Both lay
//! the bundles out alike.

use crate::lookup::{candidates_below, found, push_candidates_below, LookupError};
use crate::paths::{join, join_spec, PathStyle};
use vstd::prelude::*;

verus! {

/// The command that starts Java without a console window.
pub const PLATFORM_JAVA_EXECUTABLE_NAME: &'static str = "javaw";

/// The page that explains how to get a Java runtime.
pub const INSTALLER_JRE_HELP_URL: &'static str = "https://quiltmc.org";

/// The environment variable that names the user's local application data.
pub const LOCAL_APP_DATA_VARIABLE: &'static str = "LOCALAPPDATA";

/// Where the launcher from the package store keeps its files, below the
/// user's local application data.
pub const UWP_PATH: &'static str =
    "Packages/Microsoft.4297127D64EC6_8wekyb3d8bbwe/LocalCache/Local/";

/// The key of the current user's registry under which the classic launcher
/// records its installation.
pub const LAUNCHER_REGISTRY_KEY: &'static str =
    "SOFTWARE\\Mojang\\InstalledProducts\\Minecraft Launcher";

/// The registry value that holds the classic launcher's installation directory.
pub const INSTALL_LOCATION_VALUE: &'static str = "InstallLocation";

/// The paths of `javaw.exe` in the runtime bundles that a launcher may hold,
/// relative to the launcher's directory, the likeliest first: the 64-bit
/// bundles before the 32-bit ones, and the generation that is expected next
/// at the end.
pub open spec fn runtime_sub_paths() -> Seq<Seq<char>> {
    seq![
        "runtime/java-runtime-gamma/windows-x64/java-runtime-gamma/bin/javaw.exe"@,
        "runtime/java-runtime-beta/windows-x64/java-runtime-beta/bin/javaw.exe"@,
        "runtime/java-runtime-gamma/windows-x86/java-runtime-gamma/bin/javaw.exe"@,
        "runtime/java-runtime-beta/windows-x86/java-runtime-beta/bin/javaw.exe"@,
        "runtime/java-runtime-delta/windows-x64/javaw.exe"@,
        "runtime/java-runtime-delta/windows-x86/javaw.exe"@,
    ]
}

/// The relative paths of [`runtime_sub_paths`].
pub fn runtime_paths() -> (paths: Vec<&'static str>)
    ensures
        paths.deep_view() == runtime_sub_paths(),
{
    let paths = vec![
        "runtime/java-runtime-gamma/windows-x64/java-runtime-gamma/bin/javaw.exe",
        "runtime/java-runtime-beta/windows-x64/java-runtime-beta/bin/javaw.exe",
        "runtime/java-runtime-gamma/windows-x86/java-runtime-gamma/bin/javaw.exe",
        "runtime/java-runtime-beta/windows-x86/java-runtime-beta/bin/javaw.exe",
        "runtime/java-runtime-delta/windows-x64/javaw.exe",
        "runtime/java-runtime-delta/windows-x86/javaw.exe",
    ];
    assert(paths.deep_view() =~= runtime_sub_paths());
    paths
}

/// The directory of the store's launcher for a user whose local application
/// data is at `local_app_data`.
pub open spec fn uwp_installer_path_spec(local_app_data: Seq<char>) -> Seq<char> {
    join_spec(PathStyle::Windows, local_app_data, UWP_PATH@)
}

/// The directory in which the store's launcher would keep its files, for a
/// user whose local application data is at `local_app_data`.
pub fn uwp_installer_path(local_app_data: &str) -> (path: String)
    ensures
        path@ == uwp_installer_path_spec(local_app_data@),
{
    join(PathStyle::Windows, local_app_data, UWP_PATH)
}

/// Finds the directory of the launcher from the package store.
///
/// `local_app_data` is the value of the variable
/// [`LOCAL_APP_DATA_VARIABLE`], if it is set. `present` says whether
/// anything exists at [`uwp_installer_path`] of that value; it is not looked
/// at where the variable is not set.
pub fn get_uwp_installer(
    local_app_data: Option<&str>,
    present: bool,
) -> (dir: Result<String, LookupError>)
    ensures
        local_app_data is None ==> dir == Err::<String, LookupError>(LookupError::Unsupported),
        local_app_data is Some && !present ==> dir == Err::<String, LookupError>(
            LookupError::NotFound,
        ),
        local_app_data is Some && present ==> dir is Ok && dir->Ok_0@ == uwp_installer_path_spec(
            local_app_data->Some_0@,
        ),
{
    match local_app_data {
        None => Err(LookupError::Unsupported),
        Some(base) => if present {
            Ok(uwp_installer_path(base))
        } else {
            Err(LookupError::NotFound)
        },
    }
}

/// The candidates on Windows: those below the store launcher's directory,
/// then those below the classic launcher's directory. A directory that was
/// not found contributes none.
pub open spec fn jre_locations(
    uwp_dir: Option<Seq<char>>,
    installer_dir: Option<Seq<char>>,
) -> Seq<Seq<char>> {
    candidates_below(PathStyle::Windows, uwp_dir, runtime_sub_paths()) + candidates_below(
        PathStyle::Windows,
        installer_dir,
        runtime_sub_paths(),
    )
}

/// Lists every place where a Java runtime may be, the likeliest first.
///
/// `uwp_dir` is what [`get_uwp_installer`] found. `installer_dir` is the
/// classic launcher's installation directory as the registry gives it, or
/// the reason why it gives none.
pub fn get_jre_locations(
    uwp_dir: &Result<String, LookupError>,
    installer_dir: &Result<String, LookupError>,
) -> (candidates: Vec<String>)
    ensures
        candidates.deep_view() == jre_locations(found(*uwp_dir), found(*installer_dir)),
{
    let paths = runtime_paths();
    let mut candidates: Vec<String> = Vec::new();
    assert(candidates.deep_view() =~= Seq::<Seq<char>>::empty());
    push_candidates_below(&mut candidates, PathStyle::Windows, uwp_dir, &paths);
    push_candidates_below(&mut candidates, PathStyle::Windows, installer_dir, &paths);
    candidates
}

/// The candidates of the store's launcher come before those of the classic
/// launcher, and each launcher's candidates keep the order of
/// [`runtime_sub_paths`].
pub proof fn lemma_store_candidates_come_first(
    uwp_dir: Option<Seq<char>>,
    installer_dir: Option<Seq<char>>,
)
    ensures
        ({
            let all = jre_locations(uwp_dir, installer_dir);
            let store = candidates_below(PathStyle::Windows, uwp_dir, runtime_sub_paths());
            let classic = candidates_below(PathStyle::Windows, installer_dir, runtime_sub_paths());
            &&& all.len() == store.len() + classic.len()
            &&& forall|i: int| 0 <= i < store.len() ==> all[i] == store[i]
            &&& forall|i: int| 0 <= i < classic.len() ==> all[store.len() + i] == classic[i]
            &&& forall|i: int|
                0 <= i < store.len() ==> store[i] == join_spec(
                    PathStyle::Windows,
                    uwp_dir->Some_0,
                    #[trigger] runtime_sub_paths()[i],
                )
            &&& forall|i: int|
                0 <= i < classic.len() ==> classic[i] == join_spec(
                    PathStyle::Windows,
                    installer_dir->Some_0,
                    #[trigger] runtime_sub_paths()[i],
                )
        }),
{
}

/// A lookup that fails shortens the list and does nothing else: the failed
/// source's candidates are missing, the other source's are all there, and
/// six candidates come from each source that was found.
pub proof fn lemma_failed_lookup_only_omits(
    uwp_dir: Option<Seq<char>>,
    installer_dir: Option<Seq<char>>,
)
    ensures
        uwp_dir is None ==> jre_locations(uwp_dir, installer_dir) == candidates_below(
            PathStyle::Windows,
            installer_dir,
            runtime_sub_paths(),
        ),
        installer_dir is None ==> jre_locations(uwp_dir, installer_dir) == candidates_below(
            PathStyle::Windows,
            uwp_dir,
            runtime_sub_paths(),
        ),
        jre_locations(uwp_dir, installer_dir).len() == (if uwp_dir is Some {
            6int
        } else {
            0int
        }) + (if installer_dir is Some {
            6int
        } else {
            0int
        }),
{
}

} // verus!
