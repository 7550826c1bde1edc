//! The command line: `<url> <api_key> [--radarr] [--skip-redownload]`.

use vstd::prelude::*;

use crate::api::{Api, ApiView};

verus! {

/// The settings of a run, as given on the command line.
pub struct Cli {
    /// Base URL of the server, such as `http://localhost:8989`.
    pub url: String,
    /// The server's API key.
    pub api_key: String,
    /// Address the Radarr-like family rather than the Sonarr-like one.
    pub radarr: bool,
    /// Ask the server not to search for a replacement release.
    pub skip_redownload: bool,
}

impl Cli {
    /// The server access that these settings describe.
    pub fn into_api(self) -> (r: Api)
        ensures
            r@ == (ApiView {
                source_url: self.url@,
                api_key: self.api_key@,
                radarr: self.radarr,
                skip_redownload: self.skip_redownload,
            }),
    {
        Api::new(self.url, self.api_key, self.radarr, self.skip_redownload)
    }
}

} // verus!
