//! Game-data versions as the version list reports them, and the address of
//! a version's data archive.
use vstd::prelude::*;

verus! {

/// Address of the data archives, up to the version.
pub const DRAGONTAIL_URL_PREFIX: &'static str = "https://ddragon.leagueoflegends.com/cdn/dragontail-";

/// Extension of a data archive.
pub const DRAGONTAIL_URL_SUFFIX: &'static str = ".tgz";

/// The list of released versions, newest first.
#[derive(Debug)]
pub struct VersionResponse(pub Vec<String>);

/// The newest of `versions`: the first one, or the empty string when the
/// list is empty.
pub open spec fn newest_version(versions: Seq<String>) -> Seq<char> {
    if versions.len() > 0 {
        versions[0]@
    } else {
        Seq::empty()
    }
}

impl VersionResponse {
    /// The newest listed version, or the empty string when none is listed.
    pub fn latest(&self) -> (r: String)
        ensures
            r@ == newest_version(self.0@),
    {
        if self.0.len() > 0 {
            self.0[0].clone()
        } else {
            String::new()
        }
    }
}

/// Address of the data archive of `version`.
pub fn dragontail_url(version: &str) -> (r: String)
    ensures
        r@ == DRAGONTAIL_URL_PREFIX@ + version@ + DRAGONTAIL_URL_SUFFIX@,
{
    let mut url = String::from_str(DRAGONTAIL_URL_PREFIX);
    url.append(version);
    url.append(DRAGONTAIL_URL_SUFFIX);
    url
}

} // verus!
