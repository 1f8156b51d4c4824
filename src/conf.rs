use vstd::prelude::*;
use vstd::string::StringExecFns;

verus! {

/// Site settings; every field may be left out.
#[derive(Clone, Debug)]
pub struct Conf {
    /// Overwrite existing output files.
    pub force: Option<bool>,
    pub full: Option<bool>,
    pub in_dir: Option<String>,
    pub out_dir: Option<String>,
    /// The port the preview server listens on.
    pub port: Option<u16>,
    pub title: Option<String>,
}

impl Default for Conf {
    fn default() -> (c: Conf)
        ensures
            c.force is None,
            c.full is None,
            c.in_dir is None,
            c.out_dir is None,
            c.port is None,
            c.title is None,
    {
        Conf { full: None, force: None, in_dir: None, out_dir: None, port: None, title: None }
    }
}

/// The title a command gives a site whose settings have none.
pub const FALLBACK_TITLE: &'static str = "Default title";

impl Conf {
    /// The settings a command runs with: forced when the command line asks
    /// for it, and titled.
    pub fn for_command(self, force: bool) -> (c: Conf)
        ensures
            c.force == (if force { Some(true) } else { self.force }),
            self.title is Some ==> c.title == self.title,
            self.title is None ==> (c.title matches Some(t) && t@ == FALLBACK_TITLE@),
            c.full == self.full,
            c.in_dir == self.in_dir,
            c.out_dir == self.out_dir,
            c.port == self.port,
    {
        let mut c = self;
        if force {
            c.force = Some(true);
        }
        if c.title.is_none() {
            c.title = Some(String::from_str(FALLBACK_TITLE));
        }
        c
    }
}

pub const DEFAULT_SITE_TITLE: &'static str = "Default Title";

/// Site settings with a title that is always present.
#[derive(Debug)]
pub struct Config {
    pub force: Option<bool>,
    pub in_dir: Option<String>,
    pub out_dir: Option<String>,
    pub port: Option<u16>,
    pub title: String,
}

impl Default for Config {
    fn default() -> (c: Config)
        ensures
            c.force is None,
            c.in_dir is None,
            c.out_dir is None,
            c.port is None,
            c.title@ == DEFAULT_SITE_TITLE@,
    {
        Config {
            force: None,
            in_dir: None,
            out_dir: None,
            port: None,
            title: String::from_str(DEFAULT_SITE_TITLE),
        }
    }
}

} // verus!
