//! What the build says about itself.
use vstd::prelude::*;
use crate::text::owned;

verus! {

/// The build's version, revision, branch, date, compiler and platform.
pub struct VersionInfo {
    pub version: &'static str,
    pub revision: &'static str,
    pub branch: &'static str,
    pub build_date: &'static str,
    pub rust_version: &'static str,
    pub platform: String,
}

fn or_unknown(v: Option<&'static str>) -> (r: &'static str)
    ensures
        r@ == (match v {
            Some(s) => s@,
            None => "unknown"@,
        }),
{
    match v {
        Some(s) => s,
        None => "unknown",
    }
}

impl VersionInfo {
    /// The version information from what the build recorded: each value
    /// the build did not record is `unknown`; the platform is `os/arch`.
    pub fn from_build(version: &'static str, revision: Option<&'static str>, branch: Option<&'static str>, build_date: Option<&'static str>, rust_version: Option<&'static str>, os: &str, arch: &str) -> (r: Self)
        ensures
            r.version@ == version@,
            r.revision@ == (match revision {
                Some(s) => s@,
                None => "unknown"@,
            }),
            r.branch@ == (match branch {
                Some(s) => s@,
                None => "unknown"@,
            }),
            r.build_date@ == (match build_date {
                Some(s) => s@,
                None => "unknown"@,
            }),
            r.rust_version@ == (match rust_version {
                Some(s) => s@,
                None => "unknown"@,
            }),
            r.platform@ == os@ + "/"@ + arch@,
    {
        let mut platform = owned(os);
        platform.append("/");
        platform.append(arch);
        VersionInfo {
            version,
            revision: or_unknown(revision),
            branch: or_unknown(branch),
            build_date: or_unknown(build_date),
            rust_version: or_unknown(rust_version),
            platform,
        }
    }
}

} // verus!
