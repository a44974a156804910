//! Locating the external package engine, and the rules for fetching it on
//! first use: which release asset fits the host, where it is downloaded
//! from, and which archive member is the executable.

use vstd::prelude::*;
use vstd::string::StringExecFns;

verus! {

/// The engine release that is bootstrapped.
pub const UV_VERSION: &'static str = "0.9.28";

/// Where release assets are published.
pub const BASE_URL: &'static str = "https://github.com/astral-sh/uv/releases/download";

/// The host operating system.
#[derive(Clone, Copy, Debug, PartialEq, Eq, Structural)]
pub enum HostOs {
    Windows,
    MacOs,
    Linux,
    Other,
}

/// The host CPU architecture.
#[derive(Clone, Copy, Debug, PartialEq, Eq, Structural)]
pub enum HostArch {
    X86_64,
    Aarch64,
    Other,
}

/// Why no release asset fits the host.
#[derive(Clone, Copy, Debug, PartialEq, Eq, Structural)]
pub enum PlatformError {
    UnsupportedOs,
    UnsupportedArch,
}

/// Why the engine could not be made available.
#[derive(Clone, Copy, Debug, PartialEq, Eq, Structural)]
pub enum EngineError {
    /// The archive was unpacked but held no engine executable.
    MissingAfterExtraction,
}

pub open spec fn os_triple(os: HostOs) -> Seq<char> {
    match os {
        HostOs::Windows => "pc-windows-msvc"@,
        HostOs::MacOs => "apple-darwin"@,
        _ => "unknown-linux-gnu"@,
    }
}

pub open spec fn arch_name(arch: HostArch) -> Seq<char> {
    match arch {
        HostArch::X86_64 => "x86_64"@,
        _ => "aarch64"@,
    }
}

/// Archives are zip files on Windows and gzipped tarballs elsewhere.
pub open spec fn archive_ext(os: HostOs) -> Seq<char> {
    if os == HostOs::Windows {
        "zip"@
    } else {
        "tar.gz"@
    }
}

/// The platform triple parts `(os, arch, archive extension)` of the release
/// asset for this host. An unknown OS is reported before an unknown
/// architecture.
pub fn detect_platform(os: HostOs, arch: HostArch) -> (r: Result<
    (&'static str, &'static str, &'static str),
    PlatformError,
>)
    ensures
        os == HostOs::Other ==> r == Err::<(&str, &str, &str), PlatformError>(
            PlatformError::UnsupportedOs,
        ),
        os != HostOs::Other && arch == HostArch::Other ==> r == Err::<
            (&str, &str, &str),
            PlatformError,
        >(PlatformError::UnsupportedArch),
        os != HostOs::Other && arch != HostArch::Other ==> (r matches Ok(t) && t.0@ == os_triple(os)
            && t.1@ == arch_name(arch) && t.2@ == archive_ext(os)),
{
    let os_part = match os {
        HostOs::Windows => "pc-windows-msvc",
        HostOs::MacOs => "apple-darwin",
        HostOs::Linux => "unknown-linux-gnu",
        HostOs::Other => {
            return Err(PlatformError::UnsupportedOs);
        },
    };
    let arch_part = match arch {
        HostArch::X86_64 => "x86_64",
        HostArch::Aarch64 => "aarch64",
        HostArch::Other => {
            return Err(PlatformError::UnsupportedArch);
        },
    };
    let ext = if os == HostOs::Windows {
        "zip"
    } else {
        "tar.gz"
    };
    Ok((os_part, arch_part, ext))
}

/// The release asset's file name: `uv-<arch>-<os>.<ext>`.
pub fn asset_name(os: &str, arch: &str, ext: &str) -> (r: String)
    ensures
        r@ == "uv-"@ + arch@ + "-"@ + os@ + "."@ + ext@,
{
    String::from_str("uv-").concat(arch).concat("-").concat(os).concat(".").concat(ext)
}

/// The download location of a release asset: `<base>/<version>/<asset>`.
pub fn download_url(version: &str, asset: &str) -> (r: String)
    ensures
        r@ == BASE_URL@ + "/"@ + version@ + "/"@ + asset@,
{
    String::from_str(BASE_URL).concat("/").concat(version).concat("/").concat(asset)
}

/// The engine executable's file name on the host.
pub fn engine_file_name(os: HostOs) -> (r: &'static str)
    ensures
        r@ == (if os == HostOs::Windows {
            "uv.exe"@
        } else {
            "uv"@
        }),
{
    if os == HostOs::Windows {
        "uv.exe"
    } else {
        "uv"
    }
}

/// `uv`, and `uv.exe` in zip archives, as ASCII bytes.
pub open spec fn is_engine_entry_spec(name: Seq<u8>, zip: bool) -> bool {
    name == seq![0x75u8, 0x76u8] || (zip && name == seq![0x75u8, 0x76u8, 0x2eu8, 0x65u8, 0x78u8, 0x65u8])
}

/// Whether an archive member, by the bytes of its file name, is the engine
/// executable. Zip archives may hold `uv` or `uv.exe`, tarballs `uv`; every
/// other member is skipped.
pub fn is_engine_entry(name: &[u8], zip: bool) -> (r: bool)
    ensures
        r == is_engine_entry_spec(name@, zip),
{
    if name.len() == 2 {
        let r = name[0] == 0x75u8 && name[1] == 0x76u8;
        assert(r == (name@ =~= seq![0x75u8, 0x76u8]));
        r
    } else if zip && name.len() == 6 {
        let r = name[0] == 0x75u8 && name[1] == 0x76u8 && name[2] == 0x2eu8 && name[3] == 0x65u8 && name[4]
            == 0x78u8 && name[5] == 0x65u8;
        assert(r == (name@ =~= seq![0x75u8, 0x76u8, 0x2eu8, 0x65u8, 0x78u8, 0x65u8]));
        r
    } else {
        false
    }
}

/// The text of each argument.
pub open spec fn arg_views(args: Seq<String>) -> Seq<Seq<char>> {
    args.map_values(|a: String| a@)
}

/// Arguments that create a runtime of `version` in the runtime directory.
pub fn create_runtime_args(version: &str) -> (r: Vec<String>)
    ensures
        arg_views(r@) == seq!["venv"@, ".venv"@, "--python"@, version@],
{
    let r = vec![
        String::from_str("venv"),
        String::from_str(".venv"),
        String::from_str("--python"),
        String::from_str(version),
    ];
    assert(arg_views(r@) =~= seq!["venv"@, ".venv"@, "--python"@, version@]);
    r
}

/// Arguments that install from an install manifest or lockfile.
pub fn install_args(target: &str) -> (r: Vec<String>)
    ensures
        arg_views(r@) == seq!["pip"@, "install"@, "-r"@, target@],
{
    let r = vec![
        String::from_str("pip"),
        String::from_str("install"),
        String::from_str("-r"),
        String::from_str(target),
    ];
    assert(arg_views(r@) =~= seq!["pip"@, "install"@, "-r"@, target@]);
    r
}

/// Arguments that compile an install manifest into a lockfile for `version`.
pub fn compile_args(requirements: &str, lockfile: &str, version: &str) -> (r: Vec<String>)
    ensures
        arg_views(r@) == seq![
            "pip"@,
            "compile"@,
            requirements@,
            "-o"@,
            lockfile@,
            "--python"@,
            version@,
        ],
{
    let r = vec![
        String::from_str("pip"),
        String::from_str("compile"),
        String::from_str(requirements),
        String::from_str("-o"),
        String::from_str(lockfile),
        String::from_str("--python"),
        String::from_str(version),
    ];
    assert(arg_views(r@) =~= seq![
        "pip"@,
        "compile"@,
        requirements@,
        "-o"@,
        lockfile@,
        "--python"@,
        version@,
    ]);
    r
}

/// A located engine executable.
pub struct Engine {
    pub path: String,
}

/// What to do about the engine at its fixed path.
pub enum EngineStep {
    /// It is there: use it, without any integrity check.
    Ready(Engine),
    /// It is not there: download and unpack it, then call
    /// [`Engine::confirm`].
    Bootstrap,
}

impl Engine {
    /// First look at the engine's path: a present binary is trusted as is.
    pub fn locate(path: String, present: bool) -> (r: EngineStep)
        ensures
            present ==> (r matches EngineStep::Ready(e) && e.path@ == path@),
            !present ==> r is Bootstrap,
    {
        if present {
            EngineStep::Ready(Engine { path })
        } else {
            EngineStep::Bootstrap
        }
    }

    /// After unpacking: the engine is ready exactly when the binary is now
    /// present at its path.
    pub fn confirm(path: String, present: bool) -> (r: Result<Engine, EngineError>)
        ensures
            present ==> (r matches Ok(e) && e.path@ == path@),
            !present ==> r == Err::<Engine, EngineError>(EngineError::MissingAfterExtraction),
    {
        if present {
            Ok(Engine { path })
        } else {
            Err(EngineError::MissingAfterExtraction)
        }
    }
}

} // verus!
