//! What the editor extension decides when it starts the server: the environment
//! the server gets from the settings, and which release asset fits the platform.
use vstd::prelude::*;
use crate::text::{join2, join3};

verus! {

/// The GitHub repository that publishes the server's releases.
pub const REPO_NAME: &'static str = "jmylchreest/kagimcp-zed";

/// The name of the server's executable.
pub const BINARY_NAME: &'static str = "kagi-mcp-server";

/// The version of an endpoint used unless the settings name one.
pub fn default_search_api_version() -> (r: String)
    ensures
        r@ == "v0"@,
{
    String::from_str("v0")
}

/// The version of an endpoint used unless the settings name one.
pub fn default_summarizer_api_version() -> (r: String)
    ensures
        r@ == "v0"@,
{
    String::from_str("v0")
}

/// The version of an endpoint used unless the settings name one.
pub fn default_fastgpt_api_version() -> (r: String)
    ensures
        r@ == "v0"@,
{
    String::from_str("v0")
}

/// The version of an endpoint used unless the settings name one.
pub fn default_enrich_api_version() -> (r: String)
    ensures
        r@ == "v0"@,
{
    String::from_str("v0")
}

/// The extension's settings for the server.
pub struct KagiContextServerSettings {
    pub kagi_api_key: String,
    pub kagi_summarizer_engine: Option<String>,
    pub kagi_search_api_version: String,
    pub kagi_summarizer_api_version: String,
    pub kagi_fastgpt_api_version: String,
    pub kagi_enrich_api_version: String,
}

impl KagiContextServerSettings {
    /// Settings with only the API key given: no engine, every version at its default.
    pub fn with_key(kagi_api_key: String) -> (r: KagiContextServerSettings)
        ensures
            r.kagi_api_key@ == kagi_api_key@,
            r.kagi_summarizer_engine is None,
            r.kagi_search_api_version@ == "v0"@,
            r.kagi_summarizer_api_version@ == "v0"@,
            r.kagi_fastgpt_api_version@ == "v0"@,
            r.kagi_enrich_api_version@ == "v0"@,
    {
        KagiContextServerSettings {
            kagi_api_key,
            kagi_summarizer_engine: None,
            kagi_search_api_version: default_search_api_version(),
            kagi_summarizer_api_version: default_summarizer_api_version(),
            kagi_fastgpt_api_version: default_fastgpt_api_version(),
            kagi_enrich_api_version: default_enrich_api_version(),
        }
    }
}

/// The views of name–value pairs.
pub open spec fn env_views(env: Seq<(String, String)>) -> Seq<(Seq<char>, Seq<char>)> {
    env.map_values(|p: (String, String)| (p.0@, p.1@))
}

/// The environment of the server: the key, the engine if one is set, then the version
/// of each endpoint.
pub open spec fn server_env(s: KagiContextServerSettings) -> Seq<(Seq<char>, Seq<char>)> {
    let head = seq![("KAGI_API_KEY"@, s.kagi_api_key@)];
    let with_engine = match s.kagi_summarizer_engine {
        Some(e) => head.push(("KAGI_SUMMARIZER_ENGINE"@, e@)),
        None => head,
    };
    with_engine + seq![
        ("KAGI_SEARCH_API_VERSION"@, s.kagi_search_api_version@),
        ("KAGI_SUMMARIZER_API_VERSION"@, s.kagi_summarizer_api_version@),
        ("KAGI_FASTGPT_API_VERSION"@, s.kagi_fastgpt_api_version@),
        ("KAGI_ENRICH_API_VERSION"@, s.kagi_enrich_api_version@),
    ]
}

/// The environment variables the server is started with.
pub fn context_server_env(settings: KagiContextServerSettings) -> (r: Vec<(String, String)>)
    ensures
        env_views(r@) == server_env(settings),
{
    let ghost s = settings;
    let mut env: Vec<(String, String)> = Vec::new();
    env.push((String::from_str("KAGI_API_KEY"), settings.kagi_api_key));
    match settings.kagi_summarizer_engine {
        Some(e) => env.push((String::from_str("KAGI_SUMMARIZER_ENGINE"), e)),
        None => {},
    }
    let ghost with_engine = env_views(env@);
    env.push((String::from_str("KAGI_SEARCH_API_VERSION"), settings.kagi_search_api_version));
    env.push((String::from_str("KAGI_SUMMARIZER_API_VERSION"), settings.kagi_summarizer_api_version));
    env.push((String::from_str("KAGI_FASTGPT_API_VERSION"), settings.kagi_fastgpt_api_version));
    env.push((String::from_str("KAGI_ENRICH_API_VERSION"), settings.kagi_enrich_api_version));
    proof {
        let head = seq![("KAGI_API_KEY"@, s.kagi_api_key@)];
        match s.kagi_summarizer_engine {
            Some(e) => assert(with_engine =~= head.push(("KAGI_SUMMARIZER_ENGINE"@, e@))),
            None => assert(with_engine =~= head),
        }
        assert(env_views(env@) =~= server_env(s));
    }
    env
}

/// An operating system the server is released for.
#[derive(Clone, Copy, PartialEq, Eq, Structural)]
pub enum Os {
    Mac,
    Linux,
    Windows,
}

/// A processor architecture the server is released for.
#[derive(Clone, Copy, PartialEq, Eq, Structural)]
pub enum Architecture {
    Aarch64,
    X86,
    X8664,
}

/// How a release asset is packed.
#[derive(Clone, Copy, PartialEq, Eq, Structural)]
pub enum ArchiveKind {
    GzipTar,
    Zip,
}

impl Os {
    /// How assets for this system are packed.
    pub open spec fn spec_archive_kind(self) -> ArchiveKind {
        if self == Os::Windows {
            ArchiveKind::Zip
        } else {
            ArchiveKind::GzipTar
        }
    }

    /// The system's name in asset names.
    pub open spec fn spec_name(self) -> Seq<char> {
        match self {
            Os::Mac => "darwin"@,
            Os::Linux => "linux"@,
            Os::Windows => "windows"@,
        }
    }

    /// The system's name in asset names.
    pub fn asset_label(&self) -> (r: &'static str)
        ensures
            r@ == self.spec_name(),
    {
        match self {
            Os::Mac => "darwin",
            Os::Linux => "linux",
            Os::Windows => "windows",
        }
    }

    /// How assets for this system are packed: a gzipped tarball, or a zip on Windows.
    pub fn archive_kind(&self) -> (r: ArchiveKind)
        ensures
            r == self.spec_archive_kind(),
    {
        match self {
            Os::Windows => ArchiveKind::Zip,
            _ => ArchiveKind::GzipTar,
        }
    }
}

impl Architecture {
    /// The architecture's name in asset names.
    pub open spec fn spec_name(self) -> Seq<char> {
        match self {
            Architecture::Aarch64 => "arm64"@,
            Architecture::X86 => "i386"@,
            Architecture::X8664 => "x86_64"@,
        }
    }

    /// The architecture's name in asset names.
    pub fn asset_label(&self) -> (r: &'static str)
        ensures
            r@ == self.spec_name(),
    {
        match self {
            Architecture::Aarch64 => "arm64",
            Architecture::X86 => "i386",
            Architecture::X8664 => "x86_64",
        }
    }
}

impl ArchiveKind {
    /// The file extension of the archive.
    pub open spec fn spec_extension(self) -> Seq<char> {
        match self {
            ArchiveKind::GzipTar => "tgz"@,
            ArchiveKind::Zip => "zip"@,
        }
    }

    /// The file extension of the archive.
    pub fn extension(&self) -> (r: &'static str)
        ensures
            r@ == self.spec_extension(),
    {
        match self {
            ArchiveKind::GzipTar => "tgz",
            ArchiveKind::Zip => "zip",
        }
    }
}

/// The name of the release asset for a platform: `{binary}_{os}_{arch}.{ext}`.
pub fn asset_name(os: Os, arch: Architecture) -> (r: String)
    ensures
        r@ == BINARY_NAME@ + "_"@ + os.spec_name() + "_"@ + arch.spec_name() + "."@
            + os.spec_archive_kind().spec_extension(),
{
    let kind = os.archive_kind();
    let a = join3(BINARY_NAME, "_", os.asset_label());
    let b = join3(a.as_str(), "_", arch.asset_label());
    join3(b.as_str(), ".", kind.extension())
}

/// The tag of the release of a version: `v{version}`.
pub fn release_tag(version: &str) -> (r: String)
    ensures
        r@ == "v"@ + version@,
{
    join2("v", version)
}

/// The directory a release is unpacked into: `{binary}-{version}`.
pub fn version_dir(version: &str) -> (r: String)
    ensures
        r@ == BINARY_NAME@ + "-"@ + version@,
{
    join3(BINARY_NAME, "-", version)
}

/// The path of the executable inside a release directory.
pub fn binary_path(dir: &str) -> (r: String)
    ensures
        r@ == dir@ + "/"@ + BINARY_NAME@,
{
    join3(dir, "/", BINARY_NAME)
}

} // verus!
