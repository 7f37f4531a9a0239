//! Runtime configuration: which repository backs the service and where the
//! server listens, with the command-line arguments that select them.
//!
//! The command line knows two flags, each taking a value: `-s` or
//! `--sqlite-filepath` for the SQLite file, and `-l` or `--listen-addr` for
//! the listen address. An empty value leaves the default in place; anything
//! else is rejected.

use crate::error::Error;
use vstd::prelude::*;
use vstd::string::StringExecFns;

verus! {

/// The mathematical value of a `RepoConfig`.
pub enum RepoConfigModel {
    Sqlite(Option<Seq<char>>),
    InMemory,
}

/// Which repository implementation backs the service.
#[derive(Debug)]
pub enum RepoConfig {
    Sqlite(Option<String>),
    InMemory,
}

impl View for RepoConfig {
    type V = RepoConfigModel;

    open spec fn view(&self) -> RepoConfigModel {
        match self {
            RepoConfig::Sqlite(p) => RepoConfigModel::Sqlite(
                match p {
                    Some(s) => Some(s@),
                    None => None,
                },
            ),
            RepoConfig::InMemory => RepoConfigModel::InMemory,
        }
    }
}

impl Default for RepoConfig {
    fn default() -> (r: Self)
        ensures
            r@ == RepoConfigModel::Sqlite(Some("subbers.sql"@)),
    {
        Self::Sqlite(Some(String::from_str("subbers.sql")))
    }
}

/// The mathematical value of a `Config`.
pub struct ConfigModel {
    pub repo_config: RepoConfigModel,
    pub listen_addr: Seq<char>,
}

/// The service's runtime configuration.
#[derive(Debug)]
pub struct Config {
    pub repo_config: RepoConfig,
    pub listen_addr: String,
}

impl View for Config {
    type V = ConfigModel;

    open spec fn view(&self) -> ConfigModel {
        ConfigModel { repo_config: self.repo_config@, listen_addr: self.listen_addr@ }
    }
}

/// The default configuration.
pub open spec fn spec_default_config() -> ConfigModel {
    ConfigModel {
        repo_config: RepoConfigModel::Sqlite(Some("subbers.sql"@)),
        listen_addr: "0.0.0.0:8080"@,
    }
}

impl Default for Config {
    fn default() -> (r: Self)
        ensures
            r@ == spec_default_config(),
    {
        Self {
            listen_addr: String::from_str("0.0.0.0:8080"),
            repo_config: RepoConfig::default(),
        }
    }
}

/// The views of the argument strings.
pub open spec fn args_views(args: Seq<String>) -> Seq<Seq<char>> {
    args.map_values(|s: String| s@)
}

/// `cfg` with the SQLite path overridden by `value`, unless it is empty.
pub open spec fn spec_with_sqlite(cfg: ConfigModel, value: Seq<char>) -> ConfigModel {
    if value.len() > 0 {
        ConfigModel { repo_config: RepoConfigModel::Sqlite(Some(value)), ..cfg }
    } else {
        cfg
    }
}

/// `cfg` with the listen address overridden by `value`, unless it is empty.
pub open spec fn spec_with_listen(cfg: ConfigModel, value: Seq<char>) -> ConfigModel {
    if value.len() > 0 {
        ConfigModel { listen_addr: value, ..cfg }
    } else {
        cfg
    }
}

/// Scanning the arguments from index `i` on with `cfg` built so far: each
/// flag consumes the following value; a flag without a value, or an unknown
/// argument, rejects the whole command line.
pub open spec fn spec_build_from(args: Seq<Seq<char>>, i: int, cfg: ConfigModel) -> Result<
    ConfigModel,
    (),
>
    decreases args.len() - i,
{
    if i >= args.len() {
        Ok(cfg)
    } else if args[i] == "-s"@ || args[i] == "--sqlite-filepath"@ {
        if i + 1 < args.len() {
            spec_build_from(args, i + 2, spec_with_sqlite(cfg, args[i + 1]))
        } else {
            Err(())
        }
    } else if args[i] == "-l"@ || args[i] == "--listen-addr"@ {
        if i + 1 < args.len() {
            spec_build_from(args, i + 2, spec_with_listen(cfg, args[i + 1]))
        } else {
            Err(())
        }
    } else {
        Err(())
    }
}

/// What `Config::build` computes: the arguments after the program name,
/// scanned over the default configuration.
pub open spec fn spec_build(args: Seq<Seq<char>>) -> Result<ConfigModel, ()> {
    spec_build_from(args, 1, spec_default_config())
}

impl Config {
    /// Build a configuration from the command line (the first argument is
    /// the program name). Rejects an unknown flag or a flag without a
    /// value.
    pub fn build(args: &Vec<String>) -> (r: Result<Config, Error>)
        ensures
            r matches Ok(cfg) ==> spec_build(args_views(args@)) == Ok::<ConfigModel, ()>(cfg@),
            r is Err ==> spec_build(args_views(args@)) == Err::<ConfigModel, ()>(()),
            r matches Err(e) ==> e is InvalidInput,
    {
        let mut cfg = Config::default();
        let flag_s_short = String::from_str("-s");
        let flag_s_long = String::from_str("--sqlite-filepath");
        let flag_l_short = String::from_str("-l");
        let flag_l_long = String::from_str("--listen-addr");

        let ghost av = args_views(args@);
        let mut i: usize = 1;
        while i < args.len()
            invariant
                1 <= i,
                av == args_views(args@),
                flag_s_short@ == "-s"@,
                flag_s_long@ == "--sqlite-filepath"@,
                flag_l_short@ == "-l"@,
                flag_l_long@ == "--listen-addr"@,
                spec_build_from(av, i as int, cfg@) == spec_build(av),
            decreases args@.len() - i,
        {
            proof {
                assert(av[i as int] == args@[i as int]@);
            }
            let ghost cfg_pre = cfg@;
            let arg = &args[i];
            if *arg == flag_s_short || *arg == flag_s_long {
                if i + 1 < args.len() {
                    proof {
                        assert(av[i + 1] == args@[i + 1 as int]@);
                    }
                    let value = &args[i + 1];
                    if !value.as_str().is_empty() {
                        cfg.repo_config = RepoConfig::Sqlite(Some(value.clone()));
                    }
                    proof {
                        assert(cfg@ == spec_with_sqlite(cfg_pre, av[i + 1]));
                        assert(spec_build_from(av, i as int, cfg_pre) == spec_build_from(
                            av,
                            i + 2,
                            cfg@,
                        ));
                    }
                    i = i + 2;
                } else {
                    proof {
                        assert(spec_build_from(av, i as int, cfg_pre) == Err::<ConfigModel, ()>(()));
                    }
                    return Err(Error::InvalidInput(String::from_str("missing value for flag")));
                }
            } else if *arg == flag_l_short || *arg == flag_l_long {
                if i + 1 < args.len() {
                    proof {
                        assert(av[i + 1] == args@[i + 1 as int]@);
                    }
                    let value = &args[i + 1];
                    if !value.as_str().is_empty() {
                        cfg.listen_addr = value.clone();
                    }
                    proof {
                        assert(cfg@ == spec_with_listen(cfg_pre, av[i + 1]));
                        assert(spec_build_from(av, i as int, cfg_pre) == spec_build_from(
                            av,
                            i + 2,
                            cfg@,
                        ));
                    }
                    i = i + 2;
                } else {
                    proof {
                        assert(spec_build_from(av, i as int, cfg_pre) == Err::<ConfigModel, ()>(()));
                    }
                    return Err(Error::InvalidInput(String::from_str("missing value for flag")));
                }
            } else {
                proof {
                    assert(spec_build_from(av, i as int, cfg_pre) == Err::<ConfigModel, ()>(()));
                }
                return Err(Error::InvalidInput(String::from_str("unknown argument")));
            }
        }
        Ok(cfg)
    }
}

} // verus!
