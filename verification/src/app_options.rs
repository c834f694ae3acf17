//! The options that steer the core's behaviour during one run: the general
//! command-line arguments, the development switches and the loaded config.

use vstd::prelude::*;

use crate::app_args::{CliArgs, DebugArgs, GenerellArgs};
use crate::app_config::AppConfig;

verus! {

/// Picks a configuration value from the command line first, then from the
/// environment.
pub fn get_from_cli_env(from_cli: Option<&String>, env_val: Option<String>) -> (r: Option<String>)
    ensures
        (match from_cli {
            Some(c) => r matches Some(v) && v@ == c@,
            None => match env_val {
                Some(e) => r matches Some(v) && v@ == e@,
                None => r is None,
            },
        }),
{
    match from_cli {
        Some(cli_val) => Some(cli_val.clone()),
        None => env_val,
    }
}

/// Picks a configuration value from the command line first, then from the
/// environment, then from the config file.
pub fn get_from_cli_env_conf(
    from_cli: Option<&String>,
    env_val: Option<String>,
    conf: Option<&String>,
) -> (r: Option<String>)
    ensures
        (match from_cli {
            Some(c) => r matches Some(v) && v@ == c@,
            None => match env_val {
                Some(e) => r matches Some(v) && v@ == e@,
                None => match conf {
                    Some(c) => r matches Some(v) && v@ == c@,
                    None => r is None,
                },
            },
        }),
{
    let cli_env = get_from_cli_env(from_cli, env_val);
    match cli_env {
        Some(v) => Some(v),
        None => match conf {
            Some(c) => Some(c.clone()),
            None => None,
        },
    }
}

/// Used by the core modules to alter certain behaviours of the run.
#[derive(Debug)]
pub struct AppOptions {
    /// During development this carries the development switches.
    debug: Option<DebugArgs>,
    general: GenerellArgs,
    config: Option<AppConfig>,
}

impl AppOptions {
    pub closed spec fn debug_spec(self) -> Option<DebugArgs> {
        self.debug
    }

    pub closed spec fn general_spec(self) -> GenerellArgs {
        self.general
    }

    pub closed spec fn config_spec(self) -> Option<AppConfig> {
        self.config
    }

    fn init(general: GenerellArgs, debug: Option<DebugArgs>) -> (r: Self)
        ensures
            r.general_spec() == general,
            r.debug_spec() == debug,
            r.config_spec() is None,
    {
        Self { config: None, general, debug }
    }

    /// Takes the run's options over from the parsed command line; no config
    /// file is attached yet.
    pub fn new(args: &CliArgs) -> (r: Self)
        ensures
            r.general_spec().debug_spec() == args.args_spec().debug_spec(),
            r.general_spec().config_path_view() == args.args_spec().config_path_view(),
            r.general_spec().data_path_view() == args.args_spec().data_path_view(),
            r.debug_spec() == args.debug_args_spec(),
            r.config_spec() is None,
    {
        Self::init(args.args().clone(), *args.debug_args())
    }

    /// Attaches the configuration the application loaded from disk.
    pub fn attach_config(&mut self, config: AppConfig)
        ensures
            final(self).config_spec() == Some(config),
            final(self).general_spec() == old(self).general_spec(),
            final(self).debug_spec() == old(self).debug_spec(),
    {
        self.config = Some(config);
    }

    /// The loaded config file's values, when one was attached.
    pub fn load_config(&self) -> (r: Option<&AppConfig>)
        ensures
            (r is Some <==> self.config_spec() is Some),
            r matches Some(c) ==> self.config_spec() == Some(*c),
    {
        self.config.as_ref()
    }

    pub fn general(&self) -> (r: &GenerellArgs)
        ensures
            *r == self.general_spec(),
    {
        &self.general
    }

    /// Whether the user's real data folders are to be used: always outside
    /// development, and during development only on request.
    pub fn use_prod_local_share(&self) -> (r: bool)
        ensures
            r == (match self.debug_spec() {
                Some(d) => d.user_local_share_data_spec(),
                None => true,
            }),
    {
        match &self.debug {
            Some(use_it) => use_it.user_local_share_data(),
            None => true,
        }
    }

    /// Whether the editor run is skipped; never outside development.
    pub fn run_editor_dry(&self) -> (r: bool)
        ensures
            r == (match self.debug_spec() {
                Some(d) => d.run_editor_dry_spec(),
                None => false,
            }),
    {
        match &self.debug {
            Some(use_it) => use_it.run_editor_dry(),
            None => false,
        }
    }
}

} // verus!
