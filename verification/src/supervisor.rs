//! The process supervisor's decisions: given the configuration and what the
//! host observed on disk, which command line to spawn the backing process
//! with, and with which streams captured.
//!
//! The host performs the actual spawn; it hands this module the plugin file
//! names it read and the host operating system's name, and receives a
//! complete launch plan (or none, when the launcher or the platform
//! configuration cannot be resolved — a failed resolution, not a panic).

use vstd::prelude::*;
use vstd::string::*;
use crate::config::Lang;
use crate::text::{starts_with_spec, str_starts_with, str_eq};

verus! {

/// A fully resolved command line for one child process, with standard input
/// and output always captured as pipes.
pub struct LaunchPlan {
    /// The program to invoke.
    pub program: String,
    /// The working directory to invoke it in.
    pub current_dir: String,
    /// Its arguments, in order.
    pub args: Vec<String>,
    /// Whether standard error is captured too (it is discarded for the
    /// long-lived analysis server, captured for compile/run processes).
    pub capture_stderr: bool,
}

/// The launcher-name prefix the analysis server's plugins directory is
/// scanned for.
pub open spec fn launcher_prefix() -> Seq<char> {
    "org.eclipse.equinox.launcher_"@
}

/// Picks the launcher artifact out of the plugin file names: the last name
/// carrying the expected prefix, as the scan overwrites earlier finds.
pub fn select_launcher(names: &Vec<String>) -> (r: Option<String>)
    ensures
        match r {
            Some(n) => exists|i: int|
                0 <= i < names@.len() && n@ == names@[i]@ && starts_with_spec(names@[i]@, launcher_prefix())
                    && (forall|j: int|
                    i < j < names@.len() ==> !starts_with_spec(names@[j]@, launcher_prefix())),
            None => forall|j: int|
                0 <= j < names@.len() ==> !starts_with_spec(names@[j]@, launcher_prefix()),
        },
{
    let n = names.len();
    let mut found: Option<String> = None;
    let ghost mut found_at: int = -1;
    let mut i: usize = 0;
    while i < n
        invariant
            i <= n,
            n == names@.len(),
            match found {
                Some(f) => 0 <= found_at < i && f@ == names@[found_at]@ && starts_with_spec(
                    names@[found_at]@,
                    launcher_prefix(),
                ) && (forall|j: int|
                    found_at < j < i ==> !starts_with_spec(names@[j]@, launcher_prefix())),
                None => forall|j: int| 0 <= j < i ==> !starts_with_spec(names@[j]@, launcher_prefix()),
            },
        decreases n - i,
    {
        if str_starts_with(names[i].as_str(), "org.eclipse.equinox.launcher_") {
            found = Some(names[i].clone());
            proof {
                found_at = i as int;
            }
        }
        i = i + 1;
    }
    found
}

/// The platform-specific configuration directory of the analysis server,
/// by host operating system name.
pub fn config_dir_for_os(os: &str) -> (r: Option<String>)
    ensures
        os@ == "windows"@ ==> (r matches Some(c) && c@ == "./config_win"@),
        os@ == "linux"@ ==> (r matches Some(c) && c@ == "./config_linux"@),
        os@ == "macos"@ ==> (r matches Some(c) && c@ == "./config_mac"@),
        os@ != "windows"@ && os@ != "linux"@ && os@ != "macos"@ ==> r is None,
{
    proof {
        reveal_strlit("windows");
        reveal_strlit("linux");
        reveal_strlit("macos");
        assert("windows"@.len() == 7);
        assert("linux"@.len() == 5);
        assert("macos"@.len() == 5);
        assert("linux"@[0] == 'l');
        assert("macos"@[0] == 'm');
        assert("windows"@ != "linux"@ && "windows"@ != "macos"@ && "linux"@ != "macos"@);
    }
    if str_eq(os, "windows") {
        Some(String::from_str("./config_win"))
    } else if str_eq(os, "linux") {
        Some(String::from_str("./config_linux"))
    } else if str_eq(os, "macos") {
        Some(String::from_str("./config_mac"))
    } else {
        None
    }
}

/// The argument vector the analysis server is launched with, given the
/// resolved launcher jar (relative to the plugins directory), the platform
/// configuration directory and the data directory.
pub open spec fn java_server_args(
    launcher: Seq<char>,
    config: Seq<char>,
    data_path: Seq<char>,
) -> Seq<Seq<char>> {
    seq![
        "-agentlib:jdwp=transport=dt_socket,server=y,suspend=n,address=1044"@,
        "-Declipse.application=org.eclipse.jdt.ls.core.id1"@,
        "-Dosgi.bundles.defaultStartLevel=4"@,
        "-Declipse.product=org.eclipse.jdt.ls.core.product"@,
        "-Dlog.level=ALL"@,
        "-noverify"@,
        "-Xmx1G"@,
        "-jar"@,
        "./plugins/"@ + launcher,
        "-configuration"@,
        config,
        "-data"@,
        data_path,
        "--add-modules=ALL-SYSTEM"@,
        "--add-opens"@,
        "java.base/java.util=ALL-UNNAMED"@,
        "--add-opens"@,
        "java.base/java.lang=ALL-UNNAMED"@,
    ]
}

/// How a resolved (or failed) analysis-server launch relates to what was
/// found on disk: a plan runs `java` in the server directory with standard
/// error discarded and the full argument vector built around some launcher
/// name carrying the expected prefix; no plan means no launcher name
/// matched or the host platform is unknown.
pub open spec fn java_server_resolution(
    lang_server_path: Seq<char>,
    plugin_names: Seq<String>,
    os: Seq<char>,
    data_path: Seq<char>,
    r: Option<LaunchPlan>,
) -> bool {
    match r {
        Some(p) => {
            &&& p.program@ == "java"@
            &&& p.current_dir@ == lang_server_path
            &&& !p.capture_stderr
            &&& exists|i: int|
                0 <= i < plugin_names.len() && starts_with_spec(
                    plugin_names[i]@,
                    launcher_prefix(),
                ) && p.args.deep_view() == java_server_args(
                    plugin_names[i]@,
                    config_dir_spec(os),
                    data_path,
                )
            &&& os == "windows"@ || os == "linux"@ || os == "macos"@
        },
        None => (forall|j: int|
            0 <= j < plugin_names.len() ==> !starts_with_spec(plugin_names[j]@, launcher_prefix()))
            || (os != "windows"@ && os != "linux"@ && os != "macos"@),
    }
}

/// Resolves the analysis server's launch: the launcher jar is looked up in
/// the plugin file names, the configuration directory by operating system;
/// either missing resolves to no plan (an error for the caller to report,
/// never a panic).
pub fn java_server(
    lang_server_path: &str,
    plugin_names: &Vec<String>,
    os: &str,
    data_path: &str,
) -> (r: Option<LaunchPlan>)
    ensures
        java_server_resolution(lang_server_path@, plugin_names@, os@, data_path@, r),
{
    let launcher = select_launcher(plugin_names);
    let config = config_dir_for_os(os);
    match (launcher, config) {
        (Some(launcher), Some(config)) => {
            let ghost i = choose|i: int|
                0 <= i < plugin_names@.len() && launcher@ == plugin_names@[i]@ && starts_with_spec(
                    plugin_names@[i]@,
                    launcher_prefix(),
                ) && (forall|j: int|
                    i < j < plugin_names@.len() ==> !starts_with_spec(
                        plugin_names@[j]@,
                        launcher_prefix(),
                    ));
            let mut launcher_path = String::from_str("./plugins/");
            launcher_path.append(launcher.as_str());
            let mut args: Vec<String> = Vec::new();
            args.push(
                String::from_str(
                    "-agentlib:jdwp=transport=dt_socket,server=y,suspend=n,address=1044",
                ),
            );
            args.push(String::from_str("-Declipse.application=org.eclipse.jdt.ls.core.id1"));
            args.push(String::from_str("-Dosgi.bundles.defaultStartLevel=4"));
            args.push(String::from_str("-Declipse.product=org.eclipse.jdt.ls.core.product"));
            args.push(String::from_str("-Dlog.level=ALL"));
            args.push(String::from_str("-noverify"));
            args.push(String::from_str("-Xmx1G"));
            args.push(String::from_str("-jar"));
            args.push(launcher_path);
            args.push(String::from_str("-configuration"));
            args.push(config);
            args.push(String::from_str("-data"));
            args.push(String::from_str(data_path));
            args.push(String::from_str("--add-modules=ALL-SYSTEM"));
            args.push(String::from_str("--add-opens"));
            args.push(String::from_str("java.base/java.util=ALL-UNNAMED"));
            args.push(String::from_str("--add-opens"));
            args.push(String::from_str("java.base/java.lang=ALL-UNNAMED"));
            let plan = LaunchPlan {
                program: String::from_str("java"),
                current_dir: String::from_str(lang_server_path),
                args,
                capture_stderr: false,
            };
            proof {
                assert(plan.args.deep_view() =~= java_server_args(
                    plugin_names@[i]@,
                    config_dir_spec(os@),
                    data_path@,
                ));
            }
            Some(plan)
        },
        _ => None,
    }
}

/// The configuration directory `config_dir_for_os` resolves, at the
/// specification level.
pub open spec fn config_dir_spec(os: Seq<char>) -> Seq<char> {
    if os == "windows"@ {
        "./config_win"@
    } else if os == "linux"@ {
        "./config_linux"@
    } else {
        "./config_mac"@
    }
}

/// Resolves the custom server kind: the command line is taken verbatim from
/// the configuration and must be present, or the launch fails validation
/// before anything is spawned.
pub fn custom_config_server(lang_server_path: &str, custom_cmd: &Option<String>) -> (r: Option<
    LaunchPlan,
>)
    ensures
        match custom_cmd {
            Some(cmd) => r matches Some(p) && p.program@ == cmd@ && p.current_dir@
                == lang_server_path@ && p.args@.len() == 0 && !p.capture_stderr,
            None => r is None,
        },
{
    match custom_cmd {
        Some(cmd) => Some(
            LaunchPlan {
                program: cmd.clone(),
                current_dir: String::from_str(lang_server_path),
                args: Vec::new(),
                capture_stderr: false,
            },
        ),
        None => None,
    }
}

/// Resolves the backing server's launch for the configured language: Java
/// resolves through the plugins scan, the C kind is not supported, and the
/// custom kind takes its command line verbatim from the configuration.
pub fn start_lang_server(
    lang: Lang,
    lang_server_path: &str,
    plugin_names: &Vec<String>,
    os: &str,
    data_path: &str,
    custom_cmd: &Option<String>,
) -> (r: Option<LaunchPlan>)
    ensures
        lang is C ==> r is None,
        lang is Java ==> java_server_resolution(
            lang_server_path@,
            plugin_names@,
            os@,
            data_path@,
            r,
        ),
        lang is Custom ==> match custom_cmd {
            Some(cmd) => r matches Some(p) && p.program@ == cmd@ && p.current_dir@
                == lang_server_path@ && p.args@.len() == 0 && !p.capture_stderr,
            None => r is None,
        },
{
    match lang {
        Lang::Java => java_server(lang_server_path, plugin_names, os, data_path),
        Lang::C => None,
        Lang::Custom => custom_config_server(lang_server_path, custom_cmd),
    }
}

} // verus!
