//! Where the theme files live: three paths below the user's local
//! configuration directory.
//!
//! Paths are byte strings, as the file system has them, with `/` between
//! their components.

use vstd::prelude::*;
use vstd::slice::slice_to_vec;
use vstd::string::*;
use vstd::utf8::encode_utf8_decode_utf8;
use crate::theme::Theme;

verus! {

/// The byte that separates the components of a path.
pub const SEPARATOR: u8 = 0x2F;

/// The multiplexer's directory below the configuration directory.
pub const APP_DIR: &'static str = "tmux";

/// The directory of theme files below the multiplexer's directory.
pub const THEMES_DIR: &'static str = "themes";

/// The file of the light theme.
pub const LIGHT_FILE: &'static str = "light.conf";

/// The file of the dark theme.
pub const DARK_FILE: &'static str = "dark.conf";

/// The active theme link.
pub const LINK_FILE: &'static str = "current.conf";

/// The process could not start.
#[derive(Clone, Copy, Debug, PartialEq, Eq, Structural)]
pub enum StartupError {
    /// The user's local configuration directory is not known.
    NoConfigDir,
}

/// The three paths that the daemon works on.
#[derive(Debug, PartialEq, Eq)]
pub struct ThemePaths {
    /// The file of the light theme.
    pub light: Vec<u8>,
    /// The file of the dark theme.
    pub dark: Vec<u8>,
    /// The active theme link.
    pub current: Vec<u8>,
}

/// The path of the entry `name` in the directory `base`: a separator is
/// put between them unless `base` is empty or ends in one.
pub open spec fn joined(base: Seq<u8>, name: Seq<u8>) -> Seq<u8> {
    if base.len() > 0 && base.last() != SEPARATOR {
        base.push(SEPARATOR) + name
    } else {
        base + name
    }
}

/// The directory of theme files below the configuration directory `config`.
pub open spec fn themes_dir(config: Seq<u8>) -> Seq<u8> {
    joined(joined(config, APP_DIR.spec_bytes()), THEMES_DIR.spec_bytes())
}

/// The name of the file that holds `theme`.
pub open spec fn theme_file_name(theme: Theme) -> Seq<u8> {
    match theme {
        Theme::Light => LIGHT_FILE.spec_bytes(),
        Theme::Dark => DARK_FILE.spec_bytes(),
    }
}

impl StartupError {
    /// The text of this error.
    pub open spec fn spec_message(&self) -> Seq<char> {
        "failed to get configuration directory"@
    }

    /// The text of this error.
    pub fn message(&self) -> (text: String)
        ensures
            text@ == self.spec_message(),
    {
        String::from_str("failed to get configuration directory")
    }
}

impl ThemePaths {
    /// Whether these are the paths below the configuration directory `config`.
    pub open spec fn is_layout_of(&self, config: Seq<u8>) -> bool {
        &&& self.light@ == joined(themes_dir(config), theme_file_name(Theme::Light))
        &&& self.dark@ == joined(themes_dir(config), theme_file_name(Theme::Dark))
        &&& self.current@ == joined(themes_dir(config), LINK_FILE.spec_bytes())
    }

    /// The path of the file that holds `theme`.
    pub open spec fn spec_theme_file(&self, theme: Theme) -> Vec<u8> {
        match theme {
            Theme::Light => self.light,
            Theme::Dark => self.dark,
        }
    }

    /// The paths below the configuration directory `config`.
    pub fn new(config: &[u8]) -> (paths: ThemePaths)
        ensures
            paths.is_layout_of(config@),
    {
        let themes = join(join(slice_to_vec(config), APP_DIR), THEMES_DIR);
        ThemePaths {
            light: join(copy_of(&themes), LIGHT_FILE),
            dark: join(copy_of(&themes), DARK_FILE),
            current: join(themes, LINK_FILE),
        }
    }

    /// The path of the file that holds `theme`.
    pub fn theme_file(&self, theme: Theme) -> (path: &Vec<u8>)
        ensures
            *path == self.spec_theme_file(theme),
    {
        match theme {
            Theme::Light => &self.light,
            Theme::Dark => &self.dark,
        }
    }
}

/// A copy of `bytes`.
fn copy_of(bytes: &Vec<u8>) -> (copy: Vec<u8>)
    ensures
        copy@ == bytes@,
{
    slice_to_vec(bytes.as_slice())
}

/// The path of the entry `name` in the directory `base`.
fn join(base: Vec<u8>, name: &str) -> (path: Vec<u8>)
    ensures
        path@ == joined(base@, name.spec_bytes()),
{
    let mut path = base;
    if path.len() > 0 && path[path.len() - 1] != SEPARATOR {
        path.push(SEPARATOR);
    }
    let ghost stem = path@;
    let bytes = name.as_bytes();
    let mut i: usize = 0;
    while i < bytes.len()
        invariant
            i <= bytes.len(),
            path@ == stem + bytes@.take(i as int),
        decreases bytes.len() - i,
    {
        path.push(bytes[i]);
        assert(bytes@.take(i as int).push(bytes@[i as int]) =~= bytes@.take(i as int + 1));
        i += 1;
    }
    assert(bytes@.take(i as int) =~= bytes@);
    path
}

/// Calls `dirs::config_local_dir`, which reads the process environment, and
/// hands the directory's path out as bytes. Nothing is claimed of the
/// result.
#[verifier::external_body]
fn config_local_dir() -> (dir: Option<Vec<u8>>) {
    match dirs::config_local_dir() {
        Some(path) => Some(path.into_os_string().into_encoded_bytes()),
        None => None,
    }
}

/// The paths below `config`, or the startup error when there is no
/// configuration directory.
pub fn theme_paths(config: Option<Vec<u8>>) -> (located: Result<ThemePaths, StartupError>)
    ensures
        match config {
            Some(dir) => located matches Ok(paths) && paths.is_layout_of(dir@),
            None => located == Err::<ThemePaths, StartupError>(StartupError::NoConfigDir),
        },
{
    match config {
        Some(dir) => Ok(ThemePaths::new(dir.as_slice())),
        None => Err(StartupError::NoConfigDir),
    }
}

/// Finds the user's local configuration directory and lays the theme paths
/// out below it. Fails when the environment names no such directory.
pub fn locate_themes() -> (located: Result<ThemePaths, StartupError>)
    ensures
        located matches Ok(paths) ==> exists|dir: Seq<u8>| paths.is_layout_of(dir),
        located matches Err(error) ==> error == StartupError::NoConfigDir,
{
    let config = config_local_dir();
    let ghost found = config;
    let located = theme_paths(config);
    proof {
        if found is Some {
            assert(located->Ok_0.is_layout_of(found->0@));
        }
    }
    located
}

/// Two entries of one directory have the same path only if they have the
/// same name.
pub proof fn law_join_keeps_names_apart(base: Seq<u8>, first: Seq<u8>, second: Seq<u8>)
    requires
        joined(base, first) == joined(base, second),
    ensures
        first == second,
{
    let stem = if base.len() > 0 && base.last() != SEPARATOR {
        base.push(SEPARATOR)
    } else {
        base
    };
    assert((stem + first).skip(stem.len() as int) =~= first);
    assert((stem + second).skip(stem.len() as int) =~= second);
}

/// The three paths of a layout are distinct: the active theme link is
/// neither of the theme files.
pub proof fn law_paths_are_distinct(paths: ThemePaths, config: Seq<u8>)
    requires
        paths.is_layout_of(config),
    ensures
        paths.light@ != paths.dark@,
        paths.current@ != paths.light@,
        paths.current@ != paths.dark@,
{
    reveal_strlit("light.conf");
    reveal_strlit("dark.conf");
    reveal_strlit("current.conf");
    assert(LIGHT_FILE@.len() == 10 && DARK_FILE@.len() == 9 && LINK_FILE@.len() == 12);
    encode_utf8_decode_utf8(LIGHT_FILE@);
    encode_utf8_decode_utf8(DARK_FILE@);
    encode_utf8_decode_utf8(LINK_FILE@);
    let dir = themes_dir(config);
    if paths.light@ == paths.dark@ {
        law_join_keeps_names_apart(dir, LIGHT_FILE.spec_bytes(), DARK_FILE.spec_bytes());
    }
    if paths.current@ == paths.light@ {
        law_join_keeps_names_apart(dir, LINK_FILE.spec_bytes(), LIGHT_FILE.spec_bytes());
    }
    if paths.current@ == paths.dark@ {
        law_join_keeps_names_apart(dir, LINK_FILE.spec_bytes(), DARK_FILE.spec_bytes());
    }
}

} // verus!
