//! The version information served under the info endpoint.

use vstd::prelude::*;

use vstd::string::StringExecFns;

verus! {

/// One released version of the client.
#[derive(Debug)]
pub struct Version {
    /// E.g. `1.0.0`.
    pub version: String,
    /// Release date, `yyyy-MM-DD`.
    pub date: String,
    /// Description.
    pub description: String,
    /// Release (distribution) URLs.
    pub releases: Option<ReleaseInfo>,
    /// Download URL.
    pub url: String,
}

impl Default for Version {
    fn default() -> (r: Version)
        ensures
            r.version@ == "1.0.0"@,
            r.date@ == "1995-09-26"@,
            r.description@ == Seq::<char>::empty(),
            r.releases == None::<ReleaseInfo>,
            r.url@ == Seq::<char>::empty(),
    {
        Version {
            version: String::from_str("1.0.0"),
            date: String::from_str("1995-09-26"),
            description: String::new(),
            releases: None,
            url: String::new(),
        }
    }
}

/// Per-platform distribution URLs of one version.
#[derive(Debug)]
pub struct ReleaseInfo {
    pub msi_x64: Option<String>,
    pub deb_arm64: Option<String>,
    pub deb_x64: Option<String>,
}

impl Default for ReleaseInfo {
    fn default() -> (r: ReleaseInfo)
        ensures
            r.msi_x64 == None::<String>,
            r.deb_arm64 == None::<String>,
            r.deb_x64 == None::<String>,
    {
        ReleaseInfo { msi_x64: None, deb_arm64: None, deb_x64: None }
    }
}

/// The newest version and the release history.
#[derive(Debug)]
pub struct VersionInfo {
    pub latest: Version,
    pub history: Vec<Version>,
}

impl Default for VersionInfo {
    fn default() -> (r: VersionInfo)
        ensures
            r.latest.version@ == "1.0.0"@,
            r.latest.date@ == "1995-09-26"@,
            r.latest.description@ == Seq::<char>::empty(),
            r.latest.releases == None::<ReleaseInfo>,
            r.latest.url@ == Seq::<char>::empty(),
            r.history@ == Seq::<Version>::empty(),
    {
        VersionInfo { latest: Version::default(), history: Vec::new() }
    }
}

} // verus!
