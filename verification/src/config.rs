//! Configuration values and their text format.
//!
//! The format is a small sectioned key-value file: `[defaults]`,
//! `[aliases]` and `[theme]` sections, one `key = value` pair per line,
//! `#` comments and blank lines ignored, values optionally quoted.  The
//! parser is a fold over the lines, specified exactly by
//! [`config_line_step`]; reading the file from disk is the caller's
//! business.

use vstd::prelude::*;

use crate::strutil::{
    find_char,
    find_from,
    lines_spec,
    parse_u16,
    parse_u16_spec,
    split_lines,
    str_eq,
    string_of,
    strip_ends,
    strip_ends_spec,
    trim,
    trim_spec,
};

verus! {

/// Default behavior settings.
#[derive(Debug, Clone)]
pub struct Defaults {
    /// Kill signal to use, `SIGTERM` or `SIGKILL`.
    pub signal: String,
    /// Whether to confirm before killing.
    pub confirm: bool,
    /// Color output mode: `auto`, `always` or `never`.
    pub color: String,
    /// Default output format.
    pub format: String,
}

/// The mathematical content of [`Defaults`].
pub struct DefaultsView {
    pub signal: Seq<char>,
    pub confirm: bool,
    pub color: Seq<char>,
    pub format: Seq<char>,
}

impl View for Defaults {
    type V = DefaultsView;

    open spec fn view(&self) -> DefaultsView {
        DefaultsView {
            signal: self.signal@,
            confirm: self.confirm,
            color: self.color@,
            format: self.format@,
        }
    }
}

/// The built-in defaults: graceful signal, confirmation on, automatic
/// color, pretty output.
pub open spec fn default_defaults_view() -> DefaultsView {
    DefaultsView { signal: "SIGTERM"@, confirm: true, color: "auto"@, format: "pretty"@ }
}

impl Default for Defaults {
    /// The built-in defaults.
    fn default() -> (r: Defaults)
        ensures
            r@ == default_defaults_view(),
    {
        Defaults {
            signal: string_of("SIGTERM"),
            confirm: true,
            color: string_of("auto"),
            format: string_of("pretty"),
        }
    }
}

/// Theme customization.
#[derive(Debug, Clone)]
pub struct Theme {
    /// Color of the banner.
    pub banner_color: String,
    /// Color of success messages.
    pub success_color: String,
    /// Color of warnings.
    pub warning_color: String,
    /// Color of errors.
    pub error_color: String,
}

/// The mathematical content of [`Theme`].
pub struct ThemeView {
    pub banner_color: Seq<char>,
    pub success_color: Seq<char>,
    pub warning_color: Seq<char>,
    pub error_color: Seq<char>,
}

impl View for Theme {
    type V = ThemeView;

    open spec fn view(&self) -> ThemeView {
        ThemeView {
            banner_color: self.banner_color@,
            success_color: self.success_color@,
            warning_color: self.warning_color@,
            error_color: self.error_color@,
        }
    }
}

/// The built-in theme colors.
pub open spec fn default_theme_view() -> ThemeView {
    ThemeView {
        banner_color: "cyan"@,
        success_color: "green"@,
        warning_color: "yellow"@,
        error_color: "red"@,
    }
}

impl Default for Theme {
    /// The built-in theme.
    fn default() -> (r: Theme)
        ensures
            r@ == default_theme_view(),
    {
        Theme {
            banner_color: string_of("cyan"),
            success_color: string_of("green"),
            warning_color: string_of("yellow"),
            error_color: string_of("red"),
        }
    }
}

/// Port aliases, last assignment per name winning.
#[derive(Debug, Clone)]
pub struct AliasMap {
    /// The (name, port) pairs, names unique.
    pub entries: Vec<(String, u16)>,
}

impl View for AliasMap {
    type V = Seq<(Seq<char>, u16)>;

    open spec fn view(&self) -> Seq<(Seq<char>, u16)> {
        Seq::new(self.entries@.len(), |i: int| (self.entries@[i].0@, self.entries@[i].1))
    }
}

/// The first entry with the given name, from `i` on.
pub open spec fn alias_lookup(s: Seq<(Seq<char>, u16)>, key: Seq<char>, i: int) -> Option<u16>
    decreases s.len() - i,
{
    if i < 0 || i >= s.len() {
        None
    } else if s[i].0 == key {
        Some(s[i].1)
    } else {
        alias_lookup(s, key, i + 1)
    }
}

/// The index of the first entry with the given name, from `i` on.
pub open spec fn alias_index(s: Seq<(Seq<char>, u16)>, key: Seq<char>, i: int) -> Option<int>
    decreases s.len() - i,
{
    if i < 0 || i >= s.len() {
        None
    } else if s[i].0 == key {
        Some(i)
    } else {
        alias_index(s, key, i + 1)
    }
}

/// The map after assigning `key` to `value`: the existing entry updated,
/// or a new entry appended.
pub open spec fn alias_set(s: Seq<(Seq<char>, u16)>, key: Seq<char>, value: u16) -> Seq<
    (Seq<char>, u16),
> {
    match alias_index(s, key, 0) {
        Some(j) => s.update(j, (key, value)),
        None => s.push((key, value)),
    }
}

impl AliasMap {
    /// An empty map.
    pub fn new() -> (r: AliasMap)
        ensures
            r@.len() == 0,
    {
        AliasMap { entries: Vec::new() }
    }

    /// The port an alias stands for.
    pub fn get(&self, key: &str) -> (r: Option<u16>)
        ensures
            r == alias_lookup(self@, key@, 0),
    {
        let n = self.entries.len();
        let mut i: usize = 0;
        while i < n
            invariant
                n == self.entries@.len(),
                n == self@.len(),
                0 <= i <= n,
                forall|j: int|
                    0 <= j < n ==> self@[j] == (self.entries@[j].0@, self.entries@[j].1),
                alias_lookup(self@, key@, 0) == alias_lookup(self@, key@, i as int),
            decreases n - i,
        {
            if str_eq(self.entries[i].0.as_str(), key) {
                return Some(self.entries[i].1);
            }
            i = i + 1;
        }
        None
    }

    /// Assign `key` to `value`, overwriting an existing assignment.
    pub fn set(&mut self, key: &str, value: u16)
        ensures
            final(self)@ == alias_set(old(self)@, key@, value),
    {
        let n = self.entries.len();
        let mut i: usize = 0;
        while i < n
            invariant
                n == self.entries@.len(),
                n == self@.len(),
                *self == *old(self),
                0 <= i <= n,
                forall|j: int|
                    0 <= j < n ==> self@[j] == (self.entries@[j].0@, self.entries@[j].1),
                alias_index(self@, key@, 0) == alias_index(self@, key@, i as int),
            decreases n - i,
        {
            if str_eq(self.entries[i].0.as_str(), key) {
                self.entries[i] = (string_of(key), value);
                proof {
                    assert(self@ =~= alias_set(old(self)@, key@, value));
                }
                return ;
            }
            i = i + 1;
        }
        self.entries.push((string_of(key), value));
        proof {
            assert(self@ =~= alias_set(old(self)@, key@, value));
        }
    }
}

/// Application configuration.
#[derive(Debug, Clone)]
pub struct Config {
    /// Default settings.
    pub defaults: Defaults,
    /// Port aliases.
    pub aliases: AliasMap,
    /// Theme customization.
    pub theme: Theme,
}

/// The mathematical content of [`Config`].
pub struct ConfigView {
    pub defaults: DefaultsView,
    pub aliases: Seq<(Seq<char>, u16)>,
    pub theme: ThemeView,
}

impl View for Config {
    type V = ConfigView;

    open spec fn view(&self) -> ConfigView {
        ConfigView { defaults: self.defaults@, aliases: self.aliases@, theme: self.theme@ }
    }
}

/// The configuration before any file is read.
pub open spec fn default_config_view() -> ConfigView {
    ConfigView {
        defaults: default_defaults_view(),
        aliases: Seq::empty(),
        theme: default_theme_view(),
    }
}

impl Default for Config {
    /// The configuration before any file is read.
    fn default() -> (r: Config)
        ensures
            r@ == default_config_view(),
    {
        let r = Config {
            defaults: Defaults {
                signal: string_of("SIGTERM"),
                confirm: true,
                color: string_of("auto"),
                format: string_of("pretty"),
            },
            aliases: AliasMap::new(),
            theme: Theme {
                banner_color: string_of("cyan"),
                success_color: string_of("green"),
                warning_color: string_of("yellow"),
                error_color: string_of("red"),
            },
        };
        proof {
            assert(r.aliases@ =~= Seq::<(Seq<char>, u16)>::empty());
        }
        r
    }
}

/// How one line changes the configuration and the current section: after
/// trimming, a blank or `#` line changes nothing, a `[name]` line selects
/// the section, and a `key = value` line (key and value trimmed, value
/// unquoted) assigns in the selected section; everything else is ignored.
pub open spec fn config_line_step(cfg: ConfigView, section: Seq<char>, raw: Seq<char>) -> (
    ConfigView,
    Seq<char>,
) {
    let line = trim_spec(raw);
    if line.len() == 0 || line[0] == '#' {
        (cfg, section)
    } else if line[0] == '[' && line[line.len() - 1] == ']' {
        (cfg, line.subrange(1, line.len() - 1))
    } else {
        match find_from(line, '=', 0) {
            Some(e) => {
                let key = trim_spec(line.subrange(0, e));
                let value = strip_ends_spec(
                    trim_spec(line.subrange(e + 1, line.len() as int)),
                    '"',
                    '"',
                );
                (config_assign(cfg, section, key, value), section)
            },
            None => (cfg, section),
        }
    }
}

/// The assignment a `key = value` line makes in the selected section.
pub open spec fn config_assign(
    cfg: ConfigView,
    section: Seq<char>,
    key: Seq<char>,
    value: Seq<char>,
) -> ConfigView {
    if section == "defaults"@ {
        if key == "signal"@ {
            ConfigView {
                defaults: DefaultsView { signal: value, ..cfg.defaults },
                ..cfg
            }
        } else if key == "confirm"@ {
            ConfigView {
                defaults: DefaultsView { confirm: value == "true"@, ..cfg.defaults },
                ..cfg
            }
        } else if key == "color"@ {
            ConfigView {
                defaults: DefaultsView { color: value, ..cfg.defaults },
                ..cfg
            }
        } else if key == "format"@ {
            ConfigView {
                defaults: DefaultsView { format: value, ..cfg.defaults },
                ..cfg
            }
        } else {
            cfg
        }
    } else if section == "aliases"@ {
        match parse_u16_spec(value) {
            Some(p) => ConfigView { aliases: alias_set(cfg.aliases, key, p), ..cfg },
            None => cfg,
        }
    } else if section == "theme"@ {
        if key == "banner_color"@ {
            ConfigView {
                theme: ThemeView { banner_color: value, ..cfg.theme },
                ..cfg
            }
        } else if key == "success_color"@ {
            ConfigView {
                theme: ThemeView { success_color: value, ..cfg.theme },
                ..cfg
            }
        } else if key == "warning_color"@ {
            ConfigView {
                theme: ThemeView { warning_color: value, ..cfg.theme },
                ..cfg
            }
        } else if key == "error_color"@ {
            ConfigView {
                theme: ThemeView { error_color: value, ..cfg.theme },
                ..cfg
            }
        } else {
            cfg
        }
    } else {
        cfg
    }
}

/// Apply one configuration line.
pub fn apply_config_line(config: &mut Config, section: &mut String, raw: &str)
    ensures
        final(config)@ == config_line_step(old(config)@, old(section)@, raw@).0,
        final(section)@ == config_line_step(old(config)@, old(section)@, raw@).1,
{
    let line = trim(raw);
    let ln = line.unicode_len();
    if ln == 0 {
        return ;
    }
    let first = line.get_char(0);
    if first == '#' {
        return ;
    }
    if first == '[' && line.get_char(ln - 1) == ']' {
        let sec = line.substring_char(1, ln - 1);
        *section = string_of(sec);
        return ;
    }
    match find_char(line, '=') {
        Some(e) => {
            proof {
                crate::strutil::lemma_find_from_props(line@, '=', 0);
            }
            let key = trim(line.substring_char(0, e));
            let value = strip_ends(trim(line.substring_char(e + 1, ln)), '"', '"');
            if str_eq(section.as_str(), "defaults") {
                if str_eq(key, "signal") {
                    config.defaults.signal = string_of(value);
                } else if str_eq(key, "confirm") {
                    config.defaults.confirm = str_eq(value, "true");
                } else if str_eq(key, "color") {
                    config.defaults.color = string_of(value);
                } else if str_eq(key, "format") {
                    config.defaults.format = string_of(value);
                }
            } else if str_eq(section.as_str(), "aliases") {
                match parse_u16(value) {
                    Some(p) => {
                        config.aliases.set(key, p);
                    },
                    None => {},
                }
            } else if str_eq(section.as_str(), "theme") {
                if str_eq(key, "banner_color") {
                    config.theme.banner_color = string_of(value);
                } else if str_eq(key, "success_color") {
                    config.theme.success_color = string_of(value);
                } else if str_eq(key, "warning_color") {
                    config.theme.warning_color = string_of(value);
                } else if str_eq(key, "error_color") {
                    config.theme.error_color = string_of(value);
                }
            }
        },
        None => {},
    }
}

/// The configuration a text yields: the built-in defaults folded through
/// every line, starting outside any section.
pub open spec fn config_fold(
    cfg: ConfigView,
    section: Seq<char>,
    ls: Seq<Seq<char>>,
    i: int,
) -> ConfigView
    decreases ls.len() - i,
{
    if i < 0 || i >= ls.len() {
        cfg
    } else {
        let st = config_line_step(cfg, section, ls[i]);
        config_fold(st.0, st.1, ls, i + 1)
    }
}

/// What parsing a configuration text yields.
pub open spec fn parse_config_spec(content: Seq<char>) -> ConfigView {
    config_fold(default_config_view(), Seq::empty(), lines_spec(content), 0)
}

/// Parse a configuration text.
pub fn parse_config(content: &str) -> (r: Config)
    ensures
        r@ == parse_config_spec(content@),
{
    let mut config = Config::default();
    let mut section = String::new();
    let lines = split_lines(content);
    let n = lines.len();
    let mut i: usize = 0;
    while i < n
        invariant
            n == lines@.len(),
            lines.deep_view() == lines_spec(content@),
            0 <= i <= n,
            config_fold(config@, section@, lines.deep_view(), i as int) == parse_config_spec(
                content@,
            ),
        decreases n - i,
    {
        apply_config_line(&mut config, &mut section, lines[i].as_str());
        i = i + 1;
    }
    config
}

/// Resolve a port alias against the configuration.
pub fn resolve_alias(alias: &str, config: &Config) -> (r: Option<u16>)
    ensures
        r == alias_lookup(config.aliases@, alias@, 0),
{
    config.aliases.get(alias)
}

/// Whether `c` counts as alphanumeric in an alias name.
pub uninterp spec fn is_unicode_alnum(c: char) -> bool;

/// Relies on `char::is_alphanumeric`: the result depends on the character
/// alone.
#[verifier::external_body]
fn char_is_alphanumeric(c: char) -> (r: bool)
    ensures
        r == is_unicode_alnum(c),
{
    c.is_alphanumeric()
}

/// True when the string is a port number, or is shaped like an alias
/// name: alphanumeric characters, underscores and dashes only.
pub open spec fn is_port_or_alias_spec(s: Seq<char>) -> bool {
    parse_u16_spec(s) is Some || (forall|i: int|
        0 <= i < s.len() ==> is_unicode_alnum(#[trigger] s[i]) || s[i] == '_' || s[i] == '-')
}

/// Whether a command-line word can name a port: a port number outright,
/// or a well-formed alias name.
pub fn is_port_or_alias(s: &str) -> (r: bool)
    ensures
        r == is_port_or_alias_spec(s@),
{
    if parse_u16(s).is_some() {
        return true;
    }
    let n = s.unicode_len();
    let mut i: usize = 0;
    while i < n
        invariant
            n == s@.len(),
            0 <= i <= n,
            parse_u16_spec(s@) is None,
            forall|j: int|
                0 <= j < i ==> is_unicode_alnum(#[trigger] s@[j]) || s@[j] == '_' || s@[j]
                    == '-',
        decreases n - i,
    {
        let c = s.get_char(i);
        if !(char_is_alphanumeric(c) || c == '_' || c == '-') {
            proof {
                assert(!(is_unicode_alnum(s@[i as int]) || s@[i as int] == '_' || s@[i as int]
                    == '-'));
            }
            return false;
        }
        i = i + 1;
    }
    true
}

/// The contents written into a fresh configuration file: the built-in
/// defaults, a set of common aliases, and the default theme, each
/// commented.
pub fn default_config_content() -> (r: String)
    ensures
        r@ == "# portr configuration file\n# Location: ~/.config/portr/config.toml (Linux/macOS)\n#           %APPDATA%\\portr\\config.toml (Windows)\n\n[defaults]\n# Kill signal: SIGTERM (graceful) or SIGKILL (force)\nsignal = \"SIGTERM\"\n\n# Prompt before killing processes\nconfirm = true\n\n# Color mode: auto, always, never\ncolor = \"auto\"\n\n# Default output format: pretty, json, csv, md\nformat = \"pretty\"\n\n[aliases]\n# Port aliases for quick access\n# Usage: portr react \u{2192} portr 3000\nreact = 3000\nnext = 3000\nvite = 5173\nvue = 8080\nangular = 4200\nbackend = 8080\napi = 8000\nflask = 5000\ndjango = 8000\nrails = 3000\npostgres = 5432\nmysql = 3306\nredis = 6379\nmongo = 27017\nollama = 11434\ndocker = 2375\n\n[theme]\n# Color customization\nbanner_color = \"cyan\"\nsuccess_color = \"green\"\nwarning_color = \"yellow\"\nerror_color = \"red\"\n"@,
{
    string_of(
        "# portr configuration file\n# Location: ~/.config/portr/config.toml (Linux/macOS)\n#           %APPDATA%\\portr\\config.toml (Windows)\n\n[defaults]\n# Kill signal: SIGTERM (graceful) or SIGKILL (force)\nsignal = \"SIGTERM\"\n\n# Prompt before killing processes\nconfirm = true\n\n# Color mode: auto, always, never\ncolor = \"auto\"\n\n# Default output format: pretty, json, csv, md\nformat = \"pretty\"\n\n[aliases]\n# Port aliases for quick access\n# Usage: portr react \u{2192} portr 3000\nreact = 3000\nnext = 3000\nvite = 5173\nvue = 8080\nangular = 4200\nbackend = 8080\napi = 8000\nflask = 5000\ndjango = 8000\nrails = 3000\npostgres = 5432\nmysql = 3306\nredis = 6379\nmongo = 27017\nollama = 11434\ndocker = 2375\n\n[theme]\n# Color customization\nbanner_color = \"cyan\"\nsuccess_color = \"green\"\nwarning_color = \"yellow\"\nerror_color = \"red\"\n",
    )
}

} // verus!
