//! The configuration file: its shape, its defaults, and how it combines
//! with the command line.

use vstd::prelude::*;
use vstd::string::StrSliceExecFns;
use vstd::string::StringExecFns;
use vstd::string::StringSliceAdditionalSpecFns;
use crate::patterns::mode_pattern_kinds;
use crate::patterns::mode_sequence;
use crate::patterns::PatternKind;
use crate::text::equals_ignoring_case;
use crate::text::lowercase;
use crate::AmaterasuConfig;
use crate::WipeMode;

verus! {

/// The whole configuration file.
pub struct ConfigFile {
    pub defaults: DefaultConfig,
    pub modes: ModeConfigs,
}

/// The table `defaults`.
pub struct DefaultConfig {
    pub mode: String,
    pub verify: bool,
    pub progress: bool,
}

/// The table `modes`.
pub struct ModeConfigs {
    pub fast: ModeConfig,
    pub standard: ModeConfig,
    pub paranoid: ModeConfig,
}

/// The table of one mode.
pub struct ModeConfig {
    pub passes: usize,
    pub patterns: Vec<String>,
    pub sync: bool,
    pub verify_each_pass: bool,
    pub disable_cow: bool,
}

/// Why no configuration path could be named.
#[derive(Debug, Clone, Copy, PartialEq, Eq, Structural)]
pub enum ConfigError {
    /// Neither the configuration directory nor the home directory is known.
    NoConfigDirectory,
}

/// What the command line asks for.
#[derive(Debug, Clone, Copy, PartialEq, Eq, Structural)]
pub struct CliFlags {
    pub verify: bool,
    pub no_progress: bool,
    pub force: bool,
    pub mode: WipeMode,
    pub no_metadata_wipe: bool,
    pub metadata_passes: usize,
}

/// The texts of a list of strings.
pub open spec fn texts(strings: Seq<String>) -> Seq<Seq<char>> {
    Seq::new(strings.len(), |i: int| strings[i]@)
}

/// The names of the patterns of a mode, in the order of its passes.
pub open spec fn mode_pattern_names(mode: WipeMode) -> Seq<Seq<char>> {
    Seq::new(mode_sequence(mode).len(), |i: int| mode_sequence(mode)[i].name())
}

impl ModeConfig {
    /// Whether the table lists the passes of `mode` and has these switches.
    pub open spec fn describes(
        self,
        mode: WipeMode,
        sync: bool,
        verify_each_pass: bool,
        disable_cow: bool,
    ) -> bool {
        &&& self.passes == mode_sequence(mode).len()
        &&& texts(self.patterns@) == mode_pattern_names(mode)
        &&& self.sync == sync
        &&& self.verify_each_pass == verify_each_pass
        &&& self.disable_cow == disable_cow
    }

    /// The table of a mode with the passes that the mode is made of.
    pub fn for_mode(mode: WipeMode, sync: bool, verify_each_pass: bool, disable_cow: bool) -> (table:
        Self)
        ensures
            table.describes(mode, sync, verify_each_pass, disable_cow),
    {
        let kinds = mode_pattern_kinds(mode);
        let mut patterns: Vec<String> = Vec::new();
        let mut i: usize = 0;
        while i < kinds.len()
            invariant
                i <= kinds@.len(),
                kinds@ == mode_sequence(mode),
                patterns@.len() == i,
                forall|j: int| 0 <= j < i ==> (#[trigger] patterns@[j])@ == kinds@[j].name(),
            decreases kinds@.len() - i,
        {
            patterns.push(String::from_str(kinds[i].label()));
            i += 1;
        }
        assert(texts(patterns@) =~= mode_pattern_names(mode));
        ModeConfig { passes: kinds.len(), patterns, sync, verify_each_pass, disable_cow }
    }
}

/// The mode of a file that names none.
pub fn default_mode() -> (mode: String)
    ensures
        mode@ == "standard"@,
{
    String::from_str("standard")
}

pub fn default_true() -> (value: bool)
    ensures
        value,
{
    true
}

/// The number of passes of a mode table that names none.
pub fn default_passes() -> (passes: usize)
    ensures
        passes == 3,
{
    3
}

pub fn default_sync() -> (sync: bool)
    ensures
        sync,
{
    true
}

impl Default for DefaultConfig {
    fn default() -> (defaults: Self)
        ensures
            defaults.mode@ == "standard"@,
            defaults.verify,
            defaults.progress,
    {
        DefaultConfig { mode: default_mode(), verify: default_true(), progress: default_true() }
    }
}

impl Default for ModeConfig {
    /// The table of a mode that the file leaves out: three passes, no
    /// pattern named, synced.
    fn default() -> (table: Self)
        ensures
            table.passes == 3,
            table.patterns@.len() == 0,
            table.sync,
            !table.verify_each_pass,
            !table.disable_cow,
    {
        ModeConfig {
            passes: default_passes(),
            patterns: Vec::new(),
            sync: default_sync(),
            verify_each_pass: false,
            disable_cow: false,
        }
    }
}

impl Default for ModeConfigs {
    /// The tables of the three modes as a new file holds them: each lists
    /// the passes that its mode is made of.
    fn default() -> (modes: Self)
        ensures
            modes.fast.describes(WipeMode::Fast, false, false, false),
            modes.standard.describes(WipeMode::Standard, true, false, false),
            modes.paranoid.describes(WipeMode::Paranoid, true, true, true),
    {
        ModeConfigs {
            fast: ModeConfig::for_mode(WipeMode::Fast, false, false, false),
            standard: ModeConfig::for_mode(WipeMode::Standard, true, false, false),
            paranoid: ModeConfig::for_mode(WipeMode::Paranoid, true, true, true),
        }
    }
}

impl Default for ConfigFile {
    fn default() -> (file: Self)
        ensures
            file.defaults.mode@ == "standard"@,
            file.defaults.verify,
            file.defaults.progress,
            file.modes.fast.describes(WipeMode::Fast, false, false, false),
            file.modes.standard.describes(WipeMode::Standard, true, false, false),
            file.modes.paranoid.describes(WipeMode::Paranoid, true, true, true),
    {
        ConfigFile { defaults: DefaultConfig::default(), modes: ModeConfigs::default() }
    }
}

/// `base` with `name` as a further component: a separator stands between
/// them unless `base` is empty or ends with one.
pub open spec fn joined_path(base: Seq<char>, name: Seq<char>) -> Seq<char> {
    if base.len() > 0 && base.last() != '/' {
        base + seq!['/'] + name
    } else {
        base + name
    }
}

/// The path of the configuration file, given the configuration directory
/// and the home directory of the user as far as they are known: below the
/// configuration directory if there is one, else below `.config` in the
/// home directory.
pub open spec fn config_path_of(
    xdg_config_home: Option<Seq<char>>,
    home: Option<Seq<char>>,
) -> Option<Seq<char>> {
    match xdg_config_home {
        Some(directory) => Some(
            joined_path(joined_path(directory, "amaterasu"@), "config.toml"@),
        ),
        None => match home {
            Some(directory) => Some(
                joined_path(
                    joined_path(joined_path(directory, ".config"@), "amaterasu"@),
                    "config.toml"@,
                ),
            ),
            None => None,
        },
    }
}

/// The view of an optional text.
pub open spec fn text_view(text: Option<&str>) -> Option<Seq<char>> {
    match text {
        Some(value) => Some(value@),
        None => None,
    }
}

/// Appends a component to a path.
pub fn join_path(base: String, name: &str) -> (path: String)
    ensures
        path@ == joined_path(base@, name@),
{
    let mut path = base;
    let length = path.as_str().unicode_len();
    if length > 0 && path.as_str().get_char(length - 1) != '/' {
        path.append("/");
        proof {
            reveal_strlit("/");
            assert("/"@ =~= seq!['/']);
        }
    }
    path.append(name);
    path
}

/// Names the configuration file. `xdg_config_home` and `home` are the
/// values of the variables of these names where they are set.
pub fn get_config_path(xdg_config_home: Option<&str>, home: Option<&str>) -> (path: Result<
    String,
    ConfigError,
>)
    ensures
        match config_path_of(text_view(xdg_config_home), text_view(home)) {
            Some(text) => path is Ok && path->Ok_0@ == text,
            None => path == Err::<String, ConfigError>(ConfigError::NoConfigDirectory),
        },
{
    match xdg_config_home {
        Some(directory) => {
            let base = join_path(String::from_str(directory), "amaterasu");
            Ok(join_path(base, "config.toml"))
        },
        None => match home {
            Some(directory) => {
                let hidden = join_path(String::from_str(directory), ".config");
                let base = join_path(hidden, "amaterasu");
                Ok(join_path(base, "config.toml"))
            },
            None => Err(ConfigError::NoConfigDirectory),
        },
    }
}

/// The configuration of a run. What the command line gave takes precedence
/// over the file in every setting, so the file changes nothing here.
pub fn apply_config_to_amaterasu(config: &ConfigFile, cli_config: AmaterasuConfig) -> (applied:
    AmaterasuConfig)
    ensures
        applied == cli_config,
{
    AmaterasuConfig {
        verify: cli_config.verify,
        progress: cli_config.progress,
        force: cli_config.force,
        mode: cli_config.mode,
        wipe_metadata: cli_config.wipe_metadata,
        metadata_passes: cli_config.metadata_passes,
    }
}

/// The configuration that the command line and the defaults of the file
/// give together: verification is on if either asks for it, progress is
/// shown unless either switches it off, and everything else is as the
/// command line says.
pub fn merge_cli_flags(defaults: &DefaultConfig, flags: CliFlags) -> (config: AmaterasuConfig)
    ensures
        config == (AmaterasuConfig {
            verify: flags.verify || defaults.verify,
            progress: !flags.no_progress && defaults.progress,
            force: flags.force,
            mode: flags.mode,
            wipe_metadata: !flags.no_metadata_wipe,
            metadata_passes: flags.metadata_passes,
        }),
{
    AmaterasuConfig {
        verify: flags.verify || defaults.verify,
        progress: !flags.no_progress && defaults.progress,
        force: flags.force,
        mode: flags.mode,
        wipe_metadata: !flags.no_metadata_wipe,
        metadata_passes: flags.metadata_passes,
    }
}

/// The mode that a name stands for once its ASCII capital letters are made
/// small: `fast`, `paranoid`, and the standard mode for everything else.
pub open spec fn mode_named(name: Seq<u8>) -> WipeMode {
    if lowercase(name) == "fast".spec_bytes() {
        WipeMode::Fast
    } else if lowercase(name) == "paranoid".spec_bytes() {
        WipeMode::Paranoid
    } else {
        WipeMode::Standard
    }
}

/// Reads the mode that a configuration file names, whatever the case of
/// its letters. A name that is no mode gives the standard mode.
pub fn parse_mode_from_config(mode_str: &str) -> (mode: WipeMode)
    ensures
        mode == mode_named(mode_str.spec_bytes()),
{
    let name = mode_str.as_bytes();
    if equals_ignoring_case(name, "fast".as_bytes()) {
        WipeMode::Fast
    } else if equals_ignoring_case(name, "paranoid".as_bytes()) {
        WipeMode::Paranoid
    } else {
        WipeMode::Standard
    }
}

} // verus!
