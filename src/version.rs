//! The version description the server prints.
use vstd::prelude::*;

verus! {

/// What the build knows of itself.
#[derive(Debug)]
pub struct BuildInfo {
    pub pkg_version: String,
    pub git_version: Option<String>,
    pub built_time_utc: String,
    /// Each dependency's name and version.
    pub dependencies: Vec<(String, String)>,
    pub rustc_version: String,
    pub os: String,
    pub target_arch: String,
    pub features: String,
    pub debug: bool,
}

/// The version of the first dependency named `libunftp`, or `unknown`.
pub open spec fn libunftp_version_of(deps: Seq<(String, String)>) -> Seq<char>
    decreases deps.len(),
{
    if deps.len() == 0 {
        "unknown"@
    } else if deps[0].0@ == "libunftp"@ {
        deps[0].1@
    } else {
        libunftp_version_of(deps.drop_first())
    }
}

/// The version of the first dependency named `libunftp`, or `unknown`.
pub fn libunftp_version(deps: &Vec<(String, String)>) -> (r: String)
    ensures
        r@ == libunftp_version_of(deps@),
{
    let wanted = "libunftp".to_owned();
    let mut i: usize = 0;
    assert(deps@.skip(0) =~= deps@);
    while i < deps.len()
        invariant
            i <= deps.len(),
            wanted@ == "libunftp"@,
            libunftp_version_of(deps@) == libunftp_version_of(deps@.skip(i as int)),
        decreases deps.len() - i,
    {
        assert(deps@.skip(i as int).drop_first() =~= deps@.skip(i + 1));
        assert(deps@.skip(i as int)[0] == deps@[i as int]);
        if deps[i].0 == wanted {
            return deps[i].1.clone();
        }
        i = i + 1;
    }
    assert(deps@.skip(i as int) =~= Seq::<(String, String)>::empty());
    "unknown".to_owned()
}

pub open spec fn bool_text(b: bool) -> Seq<char> {
    if b {
        "true"@
    } else {
        "false"@
    }
}

/// The lines of the long version description, joined by newlines.
pub open spec fn long_version_text(b: BuildInfo) -> Seq<char> {
    b.pkg_version@ + "\n - Git version:\t"@ + match b.git_version {
        Some(g) => g@,
        None => "unknown"@,
    } + "\n - Built:\t"@ + b.built_time_utc@ + "\n - libunftp:\tv"@ + libunftp_version_of(
        b.dependencies@,
    ) + "\n - Compiler:\t"@ + b.rustc_version@ + "\n - OS/Arch:\t"@ + b.os@ + "/"@ + b.target_arch@
        + "\n - Features:\t"@ + b.features@ + "\n - Debug:\t"@ + bool_text(b.debug)
}

/// The long version description: the package version, then the git
/// version, build time, libunftp version, compiler, platform, features and
/// whether this is a debug build, one per line.
pub fn long_version(b: &BuildInfo) -> (r: String)
    ensures
        r@ == long_version_text(*b),
{
    let mut s = b.pkg_version.clone();
    s.append("\n - Git version:\t");
    match &b.git_version {
        Some(g) => s.append(g.as_str()),
        None => s.append("unknown"),
    }
    s.append("\n - Built:\t");
    s.append(b.built_time_utc.as_str());
    s.append("\n - libunftp:\tv");
    let lv = libunftp_version(&b.dependencies);
    s.append(lv.as_str());
    s.append("\n - Compiler:\t");
    s.append(b.rustc_version.as_str());
    s.append("\n - OS/Arch:\t");
    s.append(b.os.as_str());
    s.append("/");
    s.append(b.target_arch.as_str());
    s.append("\n - Features:\t");
    s.append(b.features.as_str());
    s.append("\n - Debug:\t");
    if b.debug {
        s.append("true");
    } else {
        s.append("false");
    }
    s
}

} // verus!
