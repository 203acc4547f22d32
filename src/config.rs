//! Run configuration, merged from a file and the command line.
use vstd::prelude::*;
use vstd::string::*;

use crate::render::{AnyRenderer, MdRenderer, ZolaRenderer, SSG};

verus! {

/// A resolved configuration.
#[derive(Debug)]
pub struct Config {
    pub output_dir: String,
    pub pkg_path: String,
    pub skip_undoc: bool,
    pub skip_private: bool,
    pub exclude: Vec<String>,
    pub renderer: AnyRenderer,
}

/// A partial configuration: each setting may be left open.
#[derive(Debug, PartialEq, Eq)]
pub struct ConfigBuilder {
    pub output_dir: Option<String>,
    pub pkg_path: Option<String>,
    pub skip_undoc: Option<bool>,
    pub skip_private: Option<bool>,
    pub exclude: Option<Vec<String>>,
    pub ssg: Option<SSG>,
}

impl Default for ConfigBuilder {
    fn default() -> (r: ConfigBuilder)
        ensures
            r.output_dir is None,
            r.pkg_path is None,
            r.skip_undoc is None,
            r.skip_private is None,
            r.exclude is None,
            r.ssg is None,
    {
        ConfigBuilder::empty()
    }
}

/// `new` when it is given, else `current`.
pub open spec fn override_with<T>(current: Option<T>, new: Option<T>) -> Option<T> {
    match new {
        Some(v) => Some(v),
        None => current,
    }
}

/// The exclusions after adding `more` to `current`.
pub open spec fn extended(current: Option<Vec<String>>, more: Seq<String>) -> Seq<String> {
    match current {
        Some(v) => v@ + more,
        None => more,
    }
}

impl ConfigBuilder {
    /// A builder with every setting open.
    pub fn empty() -> (r: ConfigBuilder)
        ensures
            r.output_dir is None,
            r.pkg_path is None,
            r.skip_undoc is None,
            r.skip_private is None,
            r.exclude is None,
            r.ssg is None,
    {
        ConfigBuilder {
            output_dir: None,
            pkg_path: None,
            skip_undoc: None,
            skip_private: None,
            exclude: None,
            ssg: None,
        }
    }

    /// Sets the output directory, when one is given.
    pub fn with_output_dir(self, output_dir: Option<String>) -> (r: ConfigBuilder)
        ensures
            r.output_dir == override_with(self.output_dir, output_dir),
            r.pkg_path == self.pkg_path,
            r.skip_undoc == self.skip_undoc,
            r.skip_private == self.skip_private,
            r.exclude == self.exclude,
            r.ssg == self.ssg,
    {
        let mut b = self;
        if output_dir.is_some() {
            b.output_dir = output_dir;
        }
        b
    }

    /// Sets the package path, when one is given.
    pub fn with_pkg_path(self, pkg_path: Option<String>) -> (r: ConfigBuilder)
        ensures
            r.pkg_path == override_with(self.pkg_path, pkg_path),
            r.output_dir == self.output_dir,
            r.skip_undoc == self.skip_undoc,
            r.skip_private == self.skip_private,
            r.exclude == self.exclude,
            r.ssg == self.ssg,
    {
        let mut b = self;
        if pkg_path.is_some() {
            b.pkg_path = pkg_path;
        }
        b
    }

    /// Sets whether undocumented items are skipped, when that is given.
    pub fn with_skip_undoc(self, skip_undoc: Option<bool>) -> (r: ConfigBuilder)
        ensures
            r.skip_undoc == override_with(self.skip_undoc, skip_undoc),
            r.output_dir == self.output_dir,
            r.pkg_path == self.pkg_path,
            r.skip_private == self.skip_private,
            r.exclude == self.exclude,
            r.ssg == self.ssg,
    {
        let mut b = self;
        if skip_undoc.is_some() {
            b.skip_undoc = skip_undoc;
        }
        b
    }

    /// Sets whether private items are skipped, when that is given.
    pub fn with_skip_private(self, skip_private: Option<bool>) -> (r: ConfigBuilder)
        ensures
            r.skip_private == override_with(self.skip_private, skip_private),
            r.output_dir == self.output_dir,
            r.pkg_path == self.pkg_path,
            r.skip_undoc == self.skip_undoc,
            r.exclude == self.exclude,
            r.ssg == self.ssg,
    {
        let mut b = self;
        if skip_private.is_some() {
            b.skip_private = skip_private;
        }
        b
    }

    /// Adds paths to the exclusions.
    pub fn exclude_paths(&mut self, excluded: Vec<String>)
        ensures
            final(self).exclude matches Some(v) && v@ == extended(old(self).exclude, excluded@),
            final(self).output_dir == old(self).output_dir,
            final(self).pkg_path == old(self).pkg_path,
            final(self).skip_undoc == old(self).skip_undoc,
            final(self).skip_private == old(self).skip_private,
            final(self).ssg == old(self).ssg,
    {
        let mut more = excluded;
        match self.exclude.take() {
            Some(mut v) => {
                v.append(&mut more);
                self.exclude = Some(v);
            },
            None => {
                self.exclude = Some(more);
            },
        }
    }

    /// Adds one path to the exclusions.
    pub fn exclude_path(&mut self, excluded: String)
        ensures
            final(self).exclude matches Some(v) && v@ == extended(old(self).exclude, seq![excluded]),
            final(self).output_dir == old(self).output_dir,
            final(self).pkg_path == old(self).pkg_path,
            final(self).skip_undoc == old(self).skip_undoc,
            final(self).skip_private == old(self).skip_private,
            final(self).ssg == old(self).ssg,
    {
        let mut one: Vec<String> = Vec::new();
        one.push(excluded);
        proof {
            assert(one@ =~= seq![excluded]);
        }
        self.exclude_paths(one);
    }

    /// Replaces the exclusions, when some are given.
    pub fn with_exclude(self, exclude: Option<Vec<String>>) -> (r: ConfigBuilder)
        ensures
            r.exclude == override_with(self.exclude, exclude),
            r.output_dir == self.output_dir,
            r.pkg_path == self.pkg_path,
            r.skip_undoc == self.skip_undoc,
            r.skip_private == self.skip_private,
            r.ssg == self.ssg,
    {
        let mut b = self;
        if exclude.is_some() {
            b.exclude = exclude;
        }
        b
    }

    /// Sets the output format, when one is given.
    pub fn with_ssg(self, ssg: Option<SSG>) -> (r: ConfigBuilder)
        ensures
            r.ssg == override_with(self.ssg, ssg),
            r.output_dir == self.output_dir,
            r.pkg_path == self.pkg_path,
            r.skip_undoc == self.skip_undoc,
            r.skip_private == self.skip_private,
            r.exclude == self.exclude,
    {
        let mut b = self;
        if ssg.is_some() {
            b.ssg = ssg;
        }
        b
    }

    /// Takes every setting that `other` gives; its exclusions are added to
    /// these.
    pub fn merge(self, other: ConfigBuilder) -> (r: ConfigBuilder)
        ensures
            r.output_dir == override_with(self.output_dir, other.output_dir),
            r.pkg_path == override_with(self.pkg_path, other.pkg_path),
            r.skip_undoc == override_with(self.skip_undoc, other.skip_undoc),
            r.skip_private == override_with(self.skip_private, other.skip_private),
            r.ssg == override_with(self.ssg, other.ssg),
            match other.exclude {
                Some(v) => r.exclude matches Some(w) && w@ == extended(self.exclude, v@),
                None => r.exclude == self.exclude,
            },
    {
        let mut b = self;
        if other.output_dir.is_some() {
            b.output_dir = other.output_dir;
        }
        if other.pkg_path.is_some() {
            b.pkg_path = other.pkg_path;
        }
        if other.skip_undoc.is_some() {
            b.skip_undoc = other.skip_undoc;
        }
        if other.skip_private.is_some() {
            b.skip_private = other.skip_private;
        }
        if other.ssg.is_some() {
            b.ssg = other.ssg;
        }
        match other.exclude {
            Some(v) => b.exclude_paths(v),
            None => {},
        }
        b
    }

    /// Resolves the open settings to their defaults: output to `_build`,
    /// the package at `.`, undocumented items skipped, private ones kept, no
    /// exclusions, and Markdown output.
    pub fn build(self) -> (r: Config)
        ensures
            r.output_dir@ == match self.output_dir {
                Some(d) => d@,
                None => "_build"@,
            },
            r.pkg_path@ == match self.pkg_path {
                Some(p) => p@,
                None => "."@,
            },
            r.skip_undoc == match self.skip_undoc {
                Some(b) => b,
                None => true,
            },
            r.skip_private == match self.skip_private {
                Some(b) => b,
                None => false,
            },
            r.exclude@ == match self.exclude {
                Some(v) => v@,
                None => Seq::empty(),
            },
            r.renderer == match self.ssg {
                Some(SSG::Zola) => AnyRenderer::Zola(ZolaRenderer { use_shortcodes: false }),
                _ => AnyRenderer::Markdown(MdRenderer {  }),
            },
    {
        let renderer = match self.ssg {
            Some(SSG::Zola) => AnyRenderer::Zola(ZolaRenderer::new(false)),
            _ => AnyRenderer::Markdown(MdRenderer::new()),
        };
        let output_dir = match self.output_dir {
            Some(d) => d,
            None => String::from_str("_build"),
        };
        let pkg_path = match self.pkg_path {
            Some(p) => p,
            None => String::from_str("."),
        };
        let skip_undoc = match self.skip_undoc {
            Some(b) => b,
            None => true,
        };
        let skip_private = match self.skip_private {
            Some(b) => b,
            None => false,
        };
        let exclude = match self.exclude {
            Some(v) => v,
            None => Vec::new(),
        };
        Config { output_dir, pkg_path, skip_undoc, skip_private, exclude, renderer }
    }
}

/// The value that wins among the command line, the file and the default.
pub open spec fn layered<T>(cli: Option<T>, file: Option<T>, default: T) -> T {
    match cli {
        Some(v) => v,
        None => match file {
            Some(v) => v,
            None => default,
        },
    }
}

/// Resolves the run configuration: settings given on the command line win
/// over those of the configuration file, which win over the defaults; the
/// exclusions of both are kept, the file's first.
pub fn resolve_config(file_settings: Option<ConfigBuilder>, cli_settings: ConfigBuilder) -> (r:
    Config)
    ensures
        ({
            let file = match file_settings {
                Some(f) => f,
                None => ConfigBuilder {
                    output_dir: None,
                    pkg_path: None,
                    skip_undoc: None,
                    skip_private: None,
                    exclude: None,
                    ssg: None,
                },
            };
            &&& r.output_dir@ == layered(
                opt_view(cli_settings.output_dir),
                opt_view(file.output_dir),
                "_build"@,
            )
            &&& r.pkg_path@ == layered(opt_view(cli_settings.pkg_path), opt_view(file.pkg_path), "."@)
            &&& r.skip_undoc == layered(cli_settings.skip_undoc, file.skip_undoc, true)
            &&& r.skip_private == layered(cli_settings.skip_private, file.skip_private, false)
            &&& r.exclude@ == extended(file.exclude, exclusions(cli_settings.exclude))
            &&& r.renderer == match layered(cli_settings.ssg, file.ssg, SSG::Markdown) {
                SSG::Zola => AnyRenderer::Zola(ZolaRenderer { use_shortcodes: false }),
                SSG::Markdown => AnyRenderer::Markdown(MdRenderer {  }),
            }
        }),
{
    let mut builder = ConfigBuilder::empty();
    match file_settings {
        Some(f) => {
            builder = builder.merge(f);
        },
        None => {},
    }
    builder = builder.merge(cli_settings);
    builder.build()
}

/// The view of an optional string.
pub open spec fn opt_view(s: Option<String>) -> Option<Seq<char>> {
    match s {
        Some(x) => Some(x@),
        None => None,
    }
}

/// The paths of an optional list of exclusions.
pub open spec fn exclusions(e: Option<Vec<String>>) -> Seq<String> {
    match e {
        Some(v) => v@,
        None => Seq::empty(),
    }
}

/// The places where a configuration file is looked for, in order: the one
/// given on the command line, then `snakedown.toml`, then the user's
/// configuration directory.
pub open spec fn config_candidates(arg: Option<Seq<char>>) -> Seq<Seq<char>> {
    match arg {
        Some(a) => seq![a, "snakedown.toml"@, "$HOME/.config/snakedown/snakedown.toml"@],
        None => seq!["snakedown.toml"@, "$HOME/.config/snakedown/snakedown.toml"@],
    }
}

/// The places where a configuration file is looked for, in order.
pub fn config_file_candidates(arg_config_path: Option<String>) -> (r: Vec<String>)
    ensures
        r@.map_values(|s: String| s@) == config_candidates(
            match arg_config_path {
                Some(a) => Some(a@),
                None => None,
            },
        ),
{
    let mut out: Vec<String> = Vec::new();
    let ghost arg = arg_config_path;
    match arg_config_path {
        Some(a) => out.push(a),
        None => {},
    }
    out.push(String::from_str("snakedown.toml"));
    out.push(String::from_str("$HOME/.config/snakedown/snakedown.toml"));
    proof {
        assert(out@.map_values(|s: String| s@) =~= config_candidates(
            match arg {
                Some(a) => Some(a@),
                None => None,
            },
        ));
    }
    out
}

/// Where fetched inventories are cached, relative to the working directory.
pub fn get_cache_path() -> (r: String)
    ensures
        r@ == "./.snakedown/cache"@,
{
    String::from_str("./.snakedown/cache")
}

} // verus!
