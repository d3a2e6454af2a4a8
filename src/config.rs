//! The persisted setting: the endpoint of the lookup service, and the text of
//! the file that holds it.

use vstd::prelude::*;
use crate::text::{json_str_of, json_string};

verus! {

/// The directory under the user's home that holds the configuration.
pub const CONFIG_DIR: &'static str = ".digger";

/// The name of the configuration file inside that directory.
pub const CONFIG_FILE: &'static str = "config.json";

/// The saved setting.
pub struct Config {
    pub api_url: String,
}

/// The pretty-printed JSON document that holds the endpoint `url`.
pub open spec fn config_json(url: Seq<char>) -> Seq<char> {
    "{\n  \"api_url\": "@ + json_str_of(url) + "\n}"@
}

impl Config {
    /// The setting that names the endpoint `api_url`.
    pub fn new(api_url: String) -> (r: Config)
        ensures
            r.api_url@ == api_url@,
    {
        Config { api_url }
    }

    /// The text of the configuration file for this setting.
    pub fn to_json(&self) -> (r: String)
        ensures
            r@ == config_json(self.api_url@),
    {
        let mut out = "{\n  \"api_url\": ".to_string();
        out.append(json_string(self.api_url.as_str()).as_str());
        out.append("\n}");
        out
    }
}

} // verus!
