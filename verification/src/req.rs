//! The identity of one archive: a package name and a version string.

use vstd::prelude::*;

verus! {

/// A request for one archive, identified by package name and version.
/// This pair is the single-flight key of the in-flight registry.
#[derive(Clone, Debug)]
pub struct CrateReq {
    pub name: String,
    pub version: String,
}

impl CrateReq {
    pub fn new(name: String, version: String) -> (r: CrateReq)
        ensures
            r.name@ == name@,
            r.version@ == version@,
    {
        CrateReq { name, version }
    }

    /// The key two requests agree on exactly when they ask for the same archive.
    pub open spec fn key(self) -> (Seq<char>, Seq<char>) {
        (self.name@, self.version@)
    }

    /// The upstream URL the archive is fetched from.
    pub fn download_url(&self) -> (r: String)
        ensures
            r@ == "https://static.crates.io/crates/"@ + self.name@ + "/"@ + self.name@ + "-"@
                + self.version@ + ".crate"@,
    {
        let mut out = "https://static.crates.io/crates/".to_owned();
        out.append(self.name.as_str());
        out.append("/");
        out.append(self.name.as_str());
        out.append("-");
        out.append(self.version.as_str());
        out.append(".crate");
        out
    }

    /// The object-store key the archive is stored under.
    pub fn storage_key(&self) -> (r: String)
        ensures
            r@ == self.name@ + "/"@ + self.version@,
    {
        let mut out = self.name.clone();
        out.append("/");
        out.append(self.version.as_str());
        out
    }

    /// A copy whose fields are known to equal the original's.
    pub fn duplicate(&self) -> (r: CrateReq)
        ensures
            r.name@ == self.name@,
            r.version@ == self.version@,
            r.key() == self.key(),
    {
        CrateReq { name: self.name.clone(), version: self.version.clone() }
    }

    /// Whether two requests identify the same archive.
    pub fn same_key(&self, other: &CrateReq) -> (r: bool)
        ensures
            r == (self.key() == other.key()),
    {
        let eq = self.name == other.name && self.version == other.version;
        proof {
            if eq {
                assert(self.key() == other.key());
            }
        }
        eq
    }
}

} // verus!
