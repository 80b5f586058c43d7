//! The user's settings and where the application keeps its files.
use vstd::prelude::*;
use vstd::string::{StrSliceExecFns, StringExecFns};

verus! {

/// Local port the login callback listens on when the settings name none.
pub const DEFAULT_REDIRECT_URI_PORT: u16 = 8888;

/// Settings as stored; a field left out falls back to its default on load.
pub struct Config {
    pub redirect_uri_port: Option<u16>,
}

impl Config {
    /// The settings with each missing field set to its default.
    pub fn with_defaults(self) -> (r: Config)
        ensures
            r.redirect_uri_port == Some(
                match self.redirect_uri_port {
                    Some(p) => p,
                    None => DEFAULT_REDIRECT_URI_PORT,
                },
            ),
    {
        let port = match self.redirect_uri_port {
            Some(p) => p,
            None => DEFAULT_REDIRECT_URI_PORT,
        };
        Config { redirect_uri_port: Some(port) }
    }
}

/// `base` joined with the relative component `part`, as a path join does:
/// a separator between them unless `base` is empty or already ends in one.
pub open spec fn path_join(base: Seq<char>, part: Seq<char>) -> Seq<char> {
    if base.len() == 0 {
        part
    } else if base.last() == '/' {
        base + part
    } else {
        base + seq!['/'] + part
    }
}

fn append_component(path: &mut String, part: &str)
    ensures
        final(path)@ == path_join(old(path)@, part@),
{
    let n = path.as_str().unicode_len();
    if n > 0 && path.as_str().get_char(n - 1) != '/' {
        proof {
            reveal_strlit("/");
        }
        path.append("/");
    }
    path.append(part);
}

/// The application's configuration directory under the home directory
/// `home`: `<home>/.config/visify`.
pub fn app_config_dir(home: &str) -> (r: String)
    ensures
        r@ == path_join(path_join(home@, ".config"@), "visify"@),
{
    let mut dir = String::from_str(home);
    append_component(&mut dir, ".config");
    append_component(&mut dir, "visify");
    dir
}

} // verus!
