//! Configuration records and their defaults.
//!
//! Discovering and reading the configuration file is left to the caller;
//! this module holds the records the browser reads and their default values.
use std::path::PathBuf;
use vstd::prelude::*;
use crate::history::strs;

verus! {

/// std's `PathBuf`, carried through as an opaque value.
#[verifier::external_type_specification]
#[verifier::external_body]
pub struct ExPathBuf(PathBuf);

/// Network / HTTP settings.
#[derive(Debug, Clone)]
pub struct NetworkConfig {
    pub user_agent: String,
    pub timeout_secs: u64,
    pub follow_redirects: bool,
    pub proxy: Option<String>,
}

/// Privacy settings.
#[derive(Debug, Clone)]
pub struct PrivacyConfig {
    pub block_trackers: bool,
    pub clear_on_exit: bool,
    pub https_only: bool,
    pub do_not_track: bool,
}

/// Content blocking settings.
#[derive(Debug, Clone)]
pub struct ContentBlockingConfig {
    pub enabled: bool,
    pub block_trackers: bool,
    pub block_ads: bool,
    pub filter_lists: Vec<PathBuf>,
    pub blocked_domains: Vec<String>,
}

impl Default for NetworkConfig {
    fn default() -> (r: Self)
        ensures
            r.user_agent@ == "Nami/0.1.0"@,
            r.timeout_secs == 30,
            r.follow_redirects,
            r.proxy is None,
    {
        Self {
            user_agent: default_user_agent(),
            timeout_secs: default_timeout(),
            follow_redirects: default_true(),
            proxy: None,
        }
    }
}

impl Default for PrivacyConfig {
    fn default() -> (r: Self)
        ensures
            r.block_trackers,
            !r.clear_on_exit,
            !r.https_only,
            r.do_not_track,
    {
        Self { block_trackers: true, clear_on_exit: false, https_only: false, do_not_track: true }
    }
}

impl Default for ContentBlockingConfig {
    fn default() -> (r: Self)
        ensures
            r.enabled,
            r.block_trackers,
            !r.block_ads,
            r.filter_lists@.len() == 0,
            r.blocked_domains@.len() == 0,
    {
        Self {
            enabled: true,
            block_trackers: true,
            block_ads: false,
            filter_lists: Vec::new(),
            blocked_domains: Vec::new(),
        }
    }
}

/// The page opened when no URL is given.
pub fn default_homepage() -> (r: String)
    ensures
        r@ == "about:blank"@,
{
    "about:blank".to_owned()
}

/// The search URL template; `%s` stands for the query.
pub fn default_search_engine() -> (r: String)
    ensures
        r@ == "https://www.google.com/search?q=%s"@,
{
    "https://www.google.com/search?q=%s".to_owned()
}

pub fn default_bg() -> (r: String)
    ensures
        r@ == "#2e3440"@,
{
    "#2e3440".to_owned()
}

pub fn default_fg() -> (r: String)
    ensures
        r@ == "#eceff4"@,
{
    "#eceff4".to_owned()
}

pub fn default_accent() -> (r: String)
    ensures
        r@ == "#88c0d0"@,
{
    "#88c0d0".to_owned()
}

pub fn default_link_color() -> (r: String)
    ensures
        r@ == "#5e81ac"@,
{
    "#5e81ac".to_owned()
}

pub fn default_visited_color() -> (r: String)
    ensures
        r@ == "#b48ead"@,
{
    "#b48ead".to_owned()
}

pub fn default_true() -> (r: bool)
    ensures
        r,
{
    true
}

pub fn default_user_agent() -> (r: String)
    ensures
        r@ == "Nami/0.1.0"@,
{
    "Nami/0.1.0".to_owned()
}

pub fn default_timeout() -> (r: u64)
    ensures
        r == 30,
{
    30
}

/// A copy of a list of strings.
pub fn clone_strings(v: &Vec<String>) -> (r: Vec<String>)
    ensures
        strs(r@) == strs(v@),
{
    let mut out: Vec<String> = Vec::new();
    let mut i: usize = 0;
    while i < v.len()
        invariant
            i <= v@.len(),
            strs(out@) == strs(v@).take(i as int),
        decreases v@.len() - i,
    {
        let ghost o = out@;
        out.push(v[i].clone());
        assert(strs(o.push(v@[i as int])) =~= strs(o).push(v@[i as int]@));
        assert(strs(v@).take(i + 1) =~= strs(v@).take(i as int).push(v@[i as int]@));
        i = i + 1;
    }
    assert(strs(v@).take(v@.len() as int) =~= strs(v@));
    out
}

/// `base` with `part` pushed on, as a Unix path: an absolute part replaces
/// the base, and a separator goes between them unless the base is empty or
/// ends with one.
pub open spec fn path_join(base: Seq<char>, part: Seq<char>) -> Seq<char> {
    if part.len() > 0 && part[0] == '/' {
        part
    } else if base.len() == 0 || base.last() == '/' {
        base + part
    } else {
        base + seq!['/'] + part
    }
}

/// The directory of configuration files: `$XDG_CONFIG_HOME`, else
/// `$HOME/.config`, else the current directory.
pub open spec fn config_base(xdg_config_home: Option<Seq<char>>, home: Option<Seq<char>>) -> Seq<char> {
    match xdg_config_home {
        Some(x) => x,
        None => match home {
            Some(h) => path_join(h, ".config"@),
            None => "."@,
        },
    }
}

/// The path of nami's configuration file `name`.
pub open spec fn config_file_path(xdg_config_home: Option<Seq<char>>, home: Option<Seq<char>>, name: Seq<char>) -> Seq<char> {
    path_join(path_join(config_base(xdg_config_home, home), "nami"@), name)
}

pub open spec fn opt_chars(o: Option<&str>) -> Option<Seq<char>> {
    match o {
        Some(s) => Some(s@),
        None => None,
    }
}

fn path_join_exec(base: &str, part: &str) -> (r: String)
    ensures
        r@ == path_join(base@, part@),
{
    let b = crate::text::chars_of(base);
    let p = crate::text::chars_of(part);
    if p.len() > 0 && p[0] == '/' {
        return part.to_owned();
    }
    let mut out = b;
    if out.len() > 0 && out[out.len() - 1] != '/' {
        out.push('/');
    }
    crate::text::push_chars(&mut out, p.as_slice());
    crate::text::string_from_chars(out.as_slice())
}

/// The path of nami's configuration file `name`, given the values of
/// `XDG_CONFIG_HOME` and `HOME`.
pub fn config_file(xdg_config_home: Option<&str>, home: Option<&str>, name: &str) -> (r: String)
    ensures
        r@ == config_file_path(opt_chars(xdg_config_home), opt_chars(home), name@),
{
    let base = match xdg_config_home {
        Some(x) => x.to_owned(),
        None => match home {
            Some(h) => path_join_exec(h, ".config"),
            None => ".".to_owned(),
        },
    };
    let dir = path_join_exec(base.as_str(), "nami");
    path_join_exec(dir.as_str(), name)
}

/// The default transforms file, given `XDG_CONFIG_HOME` and `HOME`.
pub fn default_transforms_path(xdg_config_home: Option<&str>, home: Option<&str>) -> (r: String)
    ensures
        r@ == config_file_path(opt_chars(xdg_config_home), opt_chars(home), "transforms.lisp"@),
{
    config_file(xdg_config_home, home, "transforms.lisp")
}

/// The default framework-aliases file, given `XDG_CONFIG_HOME` and `HOME`.
pub fn default_aliases_path(xdg_config_home: Option<&str>, home: Option<&str>) -> (r: String)
    ensures
        r@ == config_file_path(opt_chars(xdg_config_home), opt_chars(home), "aliases.lisp"@),
{
    config_file(xdg_config_home, home, "aliases.lisp")
}

/// The default scrapes file, given `XDG_CONFIG_HOME` and `HOME`.
pub fn default_scrapes_path(xdg_config_home: Option<&str>, home: Option<&str>) -> (r: String)
    ensures
        r@ == config_file_path(opt_chars(xdg_config_home), opt_chars(home), "scrapes.lisp"@),
{
    config_file(xdg_config_home, home, "scrapes.lisp")
}

} // verus!
