//! The configuration: where templates are kept, and which file says so.

use vstd::prelude::*;
use vstd::string::StringExecFns;

verus! {

/// The options of the application.
#[derive(Debug, Clone)]
pub struct Config {
    /// The directory below which each template has a directory of its own.
    pub template_dir: String,
}

/// The template directory used where no configuration says otherwise.
pub open spec fn default_template_dir() -> Seq<char> {
    "."@
}

/// The configuration file to read: the file that `skel_config` names;
/// else `skel.yaml` below `xdg_config_home`; else `.config/skel.yaml` below
/// `home`.
pub open spec fn config_path(
    skel_config: Option<Seq<char>>,
    xdg_config_home: Option<Seq<char>>,
    home: Option<Seq<char>>,
) -> Seq<char> {
    match skel_config {
        Some(path) => path,
        None => match xdg_config_home {
            Some(dir) => dir + "/skel.yaml"@,
            None => home->0 + "/.config/skel.yaml"@,
        },
    }
}

impl Default for Config {
    fn default() -> (config: Config)
        ensures
            config.template_dir@ == default_template_dir(),
    {
        Config { template_dir: String::from_str(".") }
    }
}

/// Gives the path of the configuration file, from the values of the
/// variables `SKEL_CONFIG`, `XDG_CONFIG_HOME` and `HOME`, each `None` where
/// it is not set. One of them has to be set.
pub fn get_config_path(
    skel_config: Option<String>,
    xdg_config_home: Option<String>,
    home: Option<String>,
) -> (path: String)
    requires
        skel_config is Some || xdg_config_home is Some || home is Some,
    ensures
        path@ == config_path(
            skel_config.deep_view(),
            xdg_config_home.deep_view(),
            home.deep_view(),
        ),
{
    match skel_config {
        Some(path) => path,
        None => match xdg_config_home {
            Some(mut dir) => {
                dir.append("/skel.yaml");
                dir
            },
            None => {
                let mut dir = home.unwrap();
                dir.append("/.config/skel.yaml");
                dir
            },
        },
    }
}

/// Gives the configuration to work with: the one that was read, or the
/// default where none could be read.
pub fn get_config(extracted: Option<Config>) -> (config: Config)
    ensures
        config.template_dir@ == match extracted {
            Some(read) => read.template_dir@,
            None => default_template_dir(),
        },
{
    match extracted {
        Some(read) => read,
        None => Config::default(),
    }
}

} // verus!
