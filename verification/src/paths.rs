//! Where the configuration file lives.

use vstd::prelude::*;

verus! {

/// The resolved location of the configuration file, from the three
/// environment values: an explicit override is taken verbatim; otherwise
/// `.apply_patch/config.json` under the configuration home, or under the
/// home directory; with none of the three set there is no location.
pub open spec fn spec_config_path(
    override_path: Option<Seq<char>>,
    config_home: Option<Seq<char>>,
    home: Option<Seq<char>>,
) -> Option<Seq<char>> {
    match override_path {
        Some(p) => Some(p),
        None => match config_home {
            Some(base) => Some(base + "/.apply_patch/config.json"@),
            None => match home {
                Some(base) => Some(base + "/.apply_patch/config.json"@),
                None => None,
            },
        },
    }
}

pub fn config_path(
    override_path: Option<String>,
    config_home: Option<String>,
    home: Option<String>,
) -> (r: Option<String>)
    ensures
        r.deep_view() == spec_config_path(
            override_path.deep_view(),
            config_home.deep_view(),
            home.deep_view(),
        ),
{
    match override_path {
        Some(p) => Some(p),
        None => match config_home {
            Some(base) => Some(base.concat("/.apply_patch/config.json")),
            None => match home {
                Some(base) => Some(base.concat("/.apply_patch/config.json")),
                None => None,
            },
        },
    }
}

/// With no override, no configuration home and no home directory, there
/// is nowhere for the configuration to live.
pub proof fn lemma_no_environment_no_path()
    ensures
        spec_config_path(None, None, None) is None,
{
}

/// The sibling temporary file that a save writes before the final rename.
pub fn temp_path(path: &str) -> (r: String)
    ensures
        r@ == path@ + ".tmp"@,
{
    let mut s = String::from_str(path);
    s.append(".tmp");
    s
}

} // verus!
