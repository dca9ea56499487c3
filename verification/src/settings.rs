//! Reading a configuration from INI text: each setting that is set
//! replaces the value it had.

use crate::config::{
    default_config, Config, ConfigError, ConfigErrorModel, ConfigModel, Render, RenderModel,
    Window, WindowModel,
};
use crate::ini::{
    coerced_bool, ini_get, ini_get_bool, ini_has_default_options, ini_new, ini_parsed, ini_read,
    ini_settings, ini_value, IniSettings,
};
use crate::text::{
    chars_of, is_word, lowercased, parse_u32, str_to_lowercase, str_trim, trimmed,
    u32_from_decimal,
};
use configparser::ini::Ini;
use std::path::PathBuf;
use vstd::prelude::*;

verus! {

/// The settings a configuration reads, each a key of a section.
#[derive(Clone, Copy, Debug, PartialEq, Eq, Structural)]
pub enum Setting {
    PresentMode,
    UseCpu,
    AntialiasingSupport,
    NumInitThreads,
    AntialiasingMethod,
    Title,
    Width,
    Height,
    Fullscreen,
    Resizable,
    Active,
    Visible,
    Decorations,
    Transparent,
    Blur,
    Maximized,
    MinWidth,
    MinHeight,
    MaxWidth,
    MaxHeight,
    MacosTitlebarTransparent,
    MacosTitlebarHidden,
    MacosTitlebarButtonsHidden,
    MacosTitleHidden,
    MacosFullsizeContentView,
    MacosHasShadow,
    MacosBorderlessGame,
    MacosDisallowHidpi,
    MacosOptionAsAlt,
    MacosTabbingIdentifier,
    Position,
}

/// The section of a setting.
pub open spec fn setting_section(s: Setting) -> Seq<char> {
    match s {
        Setting::PresentMode => "render"@,
        Setting::UseCpu => "render"@,
        Setting::AntialiasingSupport => "render"@,
        Setting::NumInitThreads => "render"@,
        Setting::AntialiasingMethod => "render"@,
        _ => "window"@,
    }
}

/// The key of a setting within its section.
#[verifier::opaque]
pub open spec fn setting_key(s: Setting) -> Seq<char> {
    match s {
        Setting::PresentMode => "present_mode"@,
        Setting::UseCpu => "use_cpu"@,
        Setting::AntialiasingSupport => "antialiasing_support"@,
        Setting::NumInitThreads => "num_init_threads"@,
        Setting::AntialiasingMethod => "antialiasing_method"@,
        Setting::Title => "title"@,
        Setting::Width => "width"@,
        Setting::Height => "height"@,
        Setting::Fullscreen => "fullscreen"@,
        Setting::Resizable => "resizable"@,
        Setting::Active => "active"@,
        Setting::Visible => "visible"@,
        Setting::Decorations => "decorations"@,
        Setting::Transparent => "transparent"@,
        Setting::Blur => "blur"@,
        Setting::Maximized => "maximized"@,
        Setting::MinWidth => "min_width"@,
        Setting::MinHeight => "min_height"@,
        Setting::MaxWidth => "max_width"@,
        Setting::MaxHeight => "max_height"@,
        Setting::MacosTitlebarTransparent => "macos_titlebar_transparent"@,
        Setting::MacosTitlebarHidden => "macos_titlebar_hidden"@,
        Setting::MacosTitlebarButtonsHidden => "macos_titlebar_buttons_hidden"@,
        Setting::MacosTitleHidden => "macos_title_hidden"@,
        Setting::MacosFullsizeContentView => "macos_fullsize_content_view"@,
        Setting::MacosHasShadow => "macos_has_shadow"@,
        Setting::MacosBorderlessGame => "macos_borderless_game"@,
        Setting::MacosDisallowHidpi => "macos_disallow_hidpi"@,
        Setting::MacosOptionAsAlt => "macos_option_as_alt"@,
        Setting::MacosTabbingIdentifier => "macos_tabbing_identifier"@,
        Setting::Position => "position"@,
    }
}

/// The value written for a setting, if any.
#[verifier::opaque]
pub open spec fn setting_value(e: IniSettings, s: Setting) -> Option<Seq<char>> {
    ini_value(e, setting_section(s), setting_key(s))
}

/// A text setting: the value when set, else `current`.
pub open spec fn text_setting(e: IniSettings, s: Setting, current: Seq<char>) -> Seq<char> {
    match setting_value(e, s) {
        Some(v) => v,
        None => current,
    }
}

/// A number setting: the value when set and a `u32`, else `current`.
pub open spec fn number_setting(e: IniSettings, s: Setting, current: u32) -> u32 {
    match setting_value(e, s) {
        Some(v) => match u32_from_decimal(v) {
            Some(n) => n,
            None => current,
        },
        None => current,
    }
}

/// A flag setting: the value when set and a boolean word, else `current`.
pub open spec fn flag_setting(e: IniSettings, s: Setting, current: bool) -> bool {
    match setting_value(e, s) {
        Some(v) => match coerced_bool(lowercased(v)) {
            Some(b) => b,
            None => current,
        },
        None => current,
    }
}

/// The renderer settings after the `[render]` section is read over `r`.
#[verifier::opaque]
pub open spec fn render_read(e: IniSettings, r: RenderModel) -> RenderModel {
    RenderModel {
        present_mode: text_setting(e, Setting::PresentMode, r.present_mode),
        use_cpu: flag_setting(e, Setting::UseCpu, r.use_cpu),
        antialiasing_support: text_setting(e, Setting::AntialiasingSupport, r.antialiasing_support),
        num_init_threads: number_setting(e, Setting::NumInitThreads, r.num_init_threads),
        antialiasing_method: text_setting(e, Setting::AntialiasingMethod, r.antialiasing_method),
    }
}

/// The window settings after the `[window]` section, but for the
/// position, is read over `w`.
#[verifier::opaque]
pub open spec fn window_read(e: IniSettings, w: WindowModel) -> WindowModel {
    WindowModel {
        title: text_setting(e, Setting::Title, w.title),
        width: number_setting(e, Setting::Width, w.width),
        height: number_setting(e, Setting::Height, w.height),
        fullscreen: flag_setting(e, Setting::Fullscreen, w.fullscreen),
        resizable: flag_setting(e, Setting::Resizable, w.resizable),
        active: flag_setting(e, Setting::Active, w.active),
        visible: flag_setting(e, Setting::Visible, w.visible),
        decorations: flag_setting(e, Setting::Decorations, w.decorations),
        transparent: flag_setting(e, Setting::Transparent, w.transparent),
        blur: flag_setting(e, Setting::Blur, w.blur),
        maximized: flag_setting(e, Setting::Maximized, w.maximized),
        min_width: number_setting(e, Setting::MinWidth, w.min_width),
        min_height: number_setting(e, Setting::MinHeight, w.min_height),
        max_width: number_setting(e, Setting::MaxWidth, w.max_width),
        max_height: number_setting(e, Setting::MaxHeight, w.max_height),
        macos_titlebar_transparent: flag_setting(e, Setting::MacosTitlebarTransparent, w.macos_titlebar_transparent),
        macos_titlebar_hidden: flag_setting(e, Setting::MacosTitlebarHidden, w.macos_titlebar_hidden),
        macos_titlebar_buttons_hidden: flag_setting(e, Setting::MacosTitlebarButtonsHidden, w.macos_titlebar_buttons_hidden),
        macos_title_hidden: flag_setting(e, Setting::MacosTitleHidden, w.macos_title_hidden),
        macos_fullsize_content_view: flag_setting(e, Setting::MacosFullsizeContentView, w.macos_fullsize_content_view),
        macos_has_shadow: flag_setting(e, Setting::MacosHasShadow, w.macos_has_shadow),
        macos_borderless_game: flag_setting(e, Setting::MacosBorderlessGame, w.macos_borderless_game),
        macos_disallow_hidpi: flag_setting(e, Setting::MacosDisallowHidpi, w.macos_disallow_hidpi),
        macos_option_as_alt: text_setting(e, Setting::MacosOptionAsAlt, w.macos_option_as_alt),
        macos_tabbing_identifier: text_setting(e, Setting::MacosTabbingIdentifier, w.macos_tabbing_identifier),
        ..w
    }
}

/// The number of commas in `s`.
pub open spec fn comma_count(s: Seq<char>) -> nat
    decreases s.len(),
{
    if s.len() == 0 {
        0
    } else {
        comma_count(s.drop_last()) + if s.last() == ',' {
            1nat
        } else {
            0nat
        }
    }
}

/// The index of a comma of `s` (the only one when there is one).
pub open spec fn comma_index(s: Seq<char>) -> int {
    choose|i: int| 0 <= i < s.len() && s[i] == ','
}

/// The configuration after INI settings `e` are read over `base`, with
/// the path it came from and the position already read.
pub open spec fn config_read(
    e: IniSettings,
    path: PathBuf,
    base: ConfigModel,
    position: Option<(u32, u32)>,
) -> ConfigModel {
    ConfigModel {
        path: Some(path),
        render: render_read(e, base.render),
        window: window_read(e, WindowModel { position, ..base.window }),
    }
}

/// Reads a position written `x,y`: exactly one comma, each side a `u32`
/// once trimmed.
pub open spec fn position_read(pos: Seq<char>) -> Result<(u32, u32), ConfigErrorModel> {
    if comma_count(pos) != 1 {
        Err(ConfigErrorModel::InvalidPosition(pos))
    } else {
        let i = comma_index(pos);
        match u32_from_decimal(trimmed(pos.take(i))) {
            None => Err(ConfigErrorModel::InvalidX(pos)),
            Some(x) => match u32_from_decimal(trimmed(pos.skip(i + 1))) {
                None => Err(ConfigErrorModel::InvalidY(pos)),
                Some(y) => Ok((x, y)),
            },
        }
    }
}

/// The window position after the `position` setting is read over
/// `current`: an empty value or `none` in any case leaves it.
#[verifier::opaque]
pub open spec fn position_setting(e: IniSettings, current: Option<(u32, u32)>) -> Result<
    Option<(u32, u32)>,
    ConfigErrorModel,
> {
    match setting_value(e, Setting::Position) {
        Some(pos) => if lowercased(pos) != "none"@ && pos.len() != 0 {
            match position_read(pos) {
                Ok(p) => Ok(Some(p)),
                Err(err) => Err(err),
            }
        } else {
            Ok(current)
        },
        None => Ok(current),
    }
}

/// A comma makes the count positive.
proof fn lemma_comma_counted(s: Seq<char>, j: int)
    requires
        0 <= j < s.len(),
        s[j] == ',',
    ensures
        comma_count(s) >= 1,
    decreases s.len(),
{
    if j < s.len() - 1 {
        lemma_comma_counted(s.drop_last(), j);
    }
}

/// Two commas make the count at least two.
proof fn lemma_two_commas_counted(s: Seq<char>, j: int, k: int)
    requires
        0 <= j < k < s.len(),
        s[j] == ',',
        s[k] == ',',
    ensures
        comma_count(s) >= 2,
    decreases s.len(),
{
    if k == s.len() - 1 {
        lemma_comma_counted(s.drop_last(), j);
    } else {
        lemma_two_commas_counted(s.drop_last(), j, k);
    }
}

/// Counts the commas of `s`; when there is exactly one, also gives the
/// text before it and the text after it.
fn split_at_comma(s: &str) -> (r: (usize, String, String))
    ensures
        r.0 == comma_count(s@),
        r.0 == 1 ==> comma_index(s@) == r.1@.len() && r.1@ == s@.take(r.1@.len() as int)
            && r.2@ == s@.skip(r.1@.len() as int + 1),
{
    let chars = chars_of(s);
    let mut count: usize = 0;
    let mut before: usize = 0;
    let mut i: usize = 0;
    assert(chars@.take(0) =~= Seq::<char>::empty());
    while i < chars.len()
        invariant
            i <= chars.len(),
            chars@ == s@,
            count == comma_count(chars@.take(i as int)),
            count <= i,
            count == 0 ==> before == i,
            count == 1 ==> before < i && chars@[before as int] == ',',
        decreases chars.len() - i,
    {
        let c = chars[i];
        assert(chars@.take(i + 1).drop_last() =~= chars@.take(i as int));
        if c == ',' {
            count = count + 1;
        } else if count == 0 {
            before = before + 1;
        }
        i = i + 1;
    }
    assert(chars@.take(chars.len() as int) =~= chars@);
    if count == 1 {
        proof {
            let b = before as int;
            assert(s@[b] == ',');
            let k = comma_index(s@);
            if k != b {
                if k < b {
                    lemma_two_commas_counted(s@, k, b);
                } else {
                    lemma_two_commas_counted(s@, b, k);
                }
            }
        }
        let head = s.substring_char(0, before);
        let tail = s.substring_char(before + 1, chars.len());
        (count, String::from_str(head), String::from_str(tail))
    } else {
        (count, String::new(), String::new())
    }
}

/// The section of a setting, as text.
fn section_text(s: Setting) -> (r: &'static str)
    ensures
        r@ == setting_section(s),
{
    match s {
        Setting::PresentMode => "render",
        Setting::UseCpu => "render",
        Setting::AntialiasingSupport => "render",
        Setting::NumInitThreads => "render",
        Setting::AntialiasingMethod => "render",
        _ => "window",
    }
}

/// The key of a setting, as text.
fn key_text(s: Setting) -> (r: &'static str)
    ensures
        r@ == setting_key(s),
{
    reveal(setting_key);
    match s {
        Setting::PresentMode => "present_mode",
        Setting::UseCpu => "use_cpu",
        Setting::AntialiasingSupport => "antialiasing_support",
        Setting::NumInitThreads => "num_init_threads",
        Setting::AntialiasingMethod => "antialiasing_method",
        Setting::Title => "title",
        Setting::Width => "width",
        Setting::Height => "height",
        Setting::Fullscreen => "fullscreen",
        Setting::Resizable => "resizable",
        Setting::Active => "active",
        Setting::Visible => "visible",
        Setting::Decorations => "decorations",
        Setting::Transparent => "transparent",
        Setting::Blur => "blur",
        Setting::Maximized => "maximized",
        Setting::MinWidth => "min_width",
        Setting::MinHeight => "min_height",
        Setting::MaxWidth => "max_width",
        Setting::MaxHeight => "max_height",
        Setting::MacosTitlebarTransparent => "macos_titlebar_transparent",
        Setting::MacosTitlebarHidden => "macos_titlebar_hidden",
        Setting::MacosTitlebarButtonsHidden => "macos_titlebar_buttons_hidden",
        Setting::MacosTitleHidden => "macos_title_hidden",
        Setting::MacosFullsizeContentView => "macos_fullsize_content_view",
        Setting::MacosHasShadow => "macos_has_shadow",
        Setting::MacosBorderlessGame => "macos_borderless_game",
        Setting::MacosDisallowHidpi => "macos_disallow_hidpi",
        Setting::MacosOptionAsAlt => "macos_option_as_alt",
        Setting::MacosTabbingIdentifier => "macos_tabbing_identifier",
        Setting::Position => "position",
    }
}

/// The value written for a setting, if any.
fn setting_value_read(ini: &Ini, s: Setting) -> (r: Option<String>)
    requires
        ini_has_default_options(*ini),
    ensures
        match r {
            Some(v) => setting_value(ini_settings(*ini), s) == Some(v@),
            None => setting_value(ini_settings(*ini), s) is None,
        },
{
    reveal(setting_value);
    ini_get(ini, section_text(s), key_text(s))
}

/// A text setting read over `current`.
fn text_setting_read(ini: &Ini, s: Setting, current: String) -> (r: String)
    requires
        ini_has_default_options(*ini),
    ensures
        r@ == text_setting(ini_settings(*ini), s, current@),
{
    match setting_value_read(ini, s) {
        Some(v) => v,
        None => current,
    }
}

/// A number setting read over `current`.
fn number_setting_read(ini: &Ini, s: Setting, current: u32) -> (r: u32)
    requires
        ini_has_default_options(*ini),
    ensures
        r == number_setting(ini_settings(*ini), s, current),
{
    if let Some(v) = setting_value_read(ini, s) {
        if let Some(n) = parse_u32(v.as_str()) {
            return n;
        }
    }
    current
}

/// A flag setting read over `current`.
fn flag_setting_read(ini: &Ini, s: Setting, current: bool) -> (r: bool)
    requires
        ini_has_default_options(*ini),
    ensures
        r == flag_setting(ini_settings(*ini), s, current),
{
    reveal(setting_value);
    if let Ok(Some(v)) = ini_get_bool(ini, section_text(s), key_text(s)) {
        v
    } else {
        current
    }
}

/// Reads the `position` setting, if it is set to a position.
fn read_position_setting(ini: &Ini, current: Option<(u32, u32)>) -> (r: Result<
    Option<(u32, u32)>,
    ConfigError,
>)
    requires
        ini_has_default_options(*ini),
    ensures
        match position_setting(ini_settings(*ini), current) {
            Ok(p) => r == Ok::<Option<(u32, u32)>, ConfigError>(p),
            Err(err) => r matches Err(e) && e@ == err,
        },
{
    reveal(position_setting);
    if let Some(pos) = setting_value_read(ini, Setting::Position) {
        let lower = str_to_lowercase(pos.as_str());
        if !is_word(lower.as_str(), "none") && !pos.as_str().is_empty() {
            let (count, before, after) = split_at_comma(pos.as_str());
            if count != 1 {
                return Err(ConfigError::InvalidPosition(pos));
            }
            let x = match parse_u32(str_trim(before.as_str())) {
                Some(x) => x,
                None => {
                    return Err(ConfigError::InvalidX(pos));
                },
            };
            let y = match parse_u32(str_trim(after.as_str())) {
                Some(y) => y,
                None => {
                    return Err(ConfigError::InvalidY(pos));
                },
            };
            return Ok(Some((x, y)));
        }
    }
    Ok(current)
}

/// Reads the `[render]` settings over `render`.
fn render_settings_read(ini: &Ini, render: Render) -> (r: Render)
    requires
        ini_has_default_options(*ini),
    ensures
        r@ == render_read(ini_settings(*ini), render@),
{
    reveal(render_read);
    Render {
        present_mode: text_setting_read(ini, Setting::PresentMode, render.present_mode),
        use_cpu: flag_setting_read(ini, Setting::UseCpu, render.use_cpu),
        antialiasing_support: text_setting_read(ini, Setting::AntialiasingSupport, render.antialiasing_support),
        num_init_threads: number_setting_read(ini, Setting::NumInitThreads, render.num_init_threads),
        antialiasing_method: text_setting_read(ini, Setting::AntialiasingMethod, render.antialiasing_method),
    }
}

/// Reads the `[window]` settings, but for the position, over `window`.
fn window_settings_read(ini: &Ini, window: Window) -> (r: Window)
    requires
        ini_has_default_options(*ini),
    ensures
        r@ == window_read(ini_settings(*ini), window@),
{
    reveal(window_read);
    Window {
        title: text_setting_read(ini, Setting::Title, window.title),
        width: number_setting_read(ini, Setting::Width, window.width),
        height: number_setting_read(ini, Setting::Height, window.height),
        fullscreen: flag_setting_read(ini, Setting::Fullscreen, window.fullscreen),
        resizable: flag_setting_read(ini, Setting::Resizable, window.resizable),
        active: flag_setting_read(ini, Setting::Active, window.active),
        visible: flag_setting_read(ini, Setting::Visible, window.visible),
        decorations: flag_setting_read(ini, Setting::Decorations, window.decorations),
        transparent: flag_setting_read(ini, Setting::Transparent, window.transparent),
        blur: flag_setting_read(ini, Setting::Blur, window.blur),
        maximized: flag_setting_read(ini, Setting::Maximized, window.maximized),
        min_width: number_setting_read(ini, Setting::MinWidth, window.min_width),
        min_height: number_setting_read(ini, Setting::MinHeight, window.min_height),
        max_width: number_setting_read(ini, Setting::MaxWidth, window.max_width),
        max_height: number_setting_read(ini, Setting::MaxHeight, window.max_height),
        macos_titlebar_transparent: flag_setting_read(ini, Setting::MacosTitlebarTransparent, window.macos_titlebar_transparent),
        macos_titlebar_hidden: flag_setting_read(ini, Setting::MacosTitlebarHidden, window.macos_titlebar_hidden),
        macos_titlebar_buttons_hidden: flag_setting_read(ini, Setting::MacosTitlebarButtonsHidden, window.macos_titlebar_buttons_hidden),
        macos_title_hidden: flag_setting_read(ini, Setting::MacosTitleHidden, window.macos_title_hidden),
        macos_fullsize_content_view: flag_setting_read(ini, Setting::MacosFullsizeContentView, window.macos_fullsize_content_view),
        macos_has_shadow: flag_setting_read(ini, Setting::MacosHasShadow, window.macos_has_shadow),
        macos_borderless_game: flag_setting_read(ini, Setting::MacosBorderlessGame, window.macos_borderless_game),
        macos_disallow_hidpi: flag_setting_read(ini, Setting::MacosDisallowHidpi, window.macos_disallow_hidpi),
        macos_option_as_alt: text_setting_read(ini, Setting::MacosOptionAsAlt, window.macos_option_as_alt),
        macos_tabbing_identifier: text_setting_read(ini, Setting::MacosTabbingIdentifier, window.macos_tabbing_identifier),
        ..window
    }
}

/// The configuration the settings of `ini` give over `base`.
fn config_from_settings(ini: &Ini, path: PathBuf, base: Config) -> (r: Result<Config, ConfigError>)
    requires
        ini_has_default_options(*ini),
    ensures
        match position_setting(ini_settings(*ini), base@.window.position) {
            Err(err) => r matches Err(x) && x@ == err,
            Ok(p) => r matches Ok(c) && c@ == config_read(ini_settings(*ini), path, base@, p),
        },
{
    let position = match read_position_setting(ini, base.window.position) {
        Ok(p) => p,
        Err(err) => {
            return Err(err);
        },
    };
    let render = render_settings_read(ini, base.render);
    let window = window_settings_read(ini, Window { position, ..base.window });
    Ok(Config { path: Some(path), render, window })
}

impl Config {
    /// Reads a configuration from INI text over `default` (or the default
    /// configuration) and records `path` as where it came from. Unset
    /// settings keep their value; a number that is not a `u32` and a flag
    /// that is not a boolean word are ignored; a text that does not parse
    /// or a malformed position is an error.
    pub fn from_ini_text(text: String, path: PathBuf, default: Option<Config>) -> (r: Result<
        Config,
        ConfigError,
    >)
        ensures
            match ini_parsed(text@) {
                Err(why) => r matches Err(e) && e@ == ConfigErrorModel::Ini(why),
                Ok(e) => {
                    let base = match default {
                        Some(c) => c@,
                        None => default_config(),
                    };
                    match position_setting(e, base.window.position) {
                        Err(err) => r matches Err(x) && x@ == err,
                        Ok(p) => r matches Ok(c) && c@ == config_read(e, path, base, p),
                    }
                },
            },
    {
        let mut ini = ini_new();
        if let Err(why) = ini_read(&mut ini, text) {
            return Err(ConfigError::Ini(why));
        }
        let base = match default {
            Some(c) => c,
            None => Config::default(),
        };
        config_from_settings(&ini, path, base)
    }
}

/// INI text without settings changes nothing but the recorded path: every
/// setting keeps the value of the configuration it was read over.
pub proof fn law_no_settings_keeps_base(path: PathBuf, base: ConfigModel)
    ensures
        position_setting(IniSettings::empty(), base.window.position) == Ok::<
            Option<(u32, u32)>,
            ConfigErrorModel,
        >(base.window.position),
        config_read(IniSettings::empty(), path, base, base.window.position) == (ConfigModel {
            path: Some(path),
            ..base
        }),
{
    let e = IniSettings::empty();
    lemma_no_setting_set();
    assert(position_setting(e, base.window.position) == Ok::<
        Option<(u32, u32)>,
        ConfigErrorModel,
    >(base.window.position)) by {
        reveal(position_setting);
    }
    assert(render_read(e, base.render) == base.render) by {
        reveal(render_read);
    }
    assert(window_read(e, WindowModel { position: base.window.position, ..base.window })
        == base.window) by {
        reveal(window_read);
    }
}

/// Without settings, no setting has a value.
proof fn lemma_no_setting_set()
    ensures
        forall|st: Setting| #[trigger] setting_value(IniSettings::empty(), st) is None,
{
    reveal(setting_value);
}

/// A setting written with a value replaces the value it is read over:
/// text as written, numbers and flags when they read as such.
pub proof fn law_set_value_wins(e: IniSettings, st: Setting, text: Seq<char>, flag: bool, n: u32)
    requires
        setting_value(e, st) is Some,
    ensures
        text_setting(e, st, text) == setting_value(e, st).unwrap(),
        u32_from_decimal(setting_value(e, st).unwrap()) is Some ==> number_setting(e, st, n)
            == u32_from_decimal(setting_value(e, st).unwrap()).unwrap(),
        coerced_bool(lowercased(setting_value(e, st).unwrap())) is Some ==> flag_setting(
            e,
            st,
            flag,
        ) == coerced_bool(lowercased(setting_value(e, st).unwrap())).unwrap(),
{
}

/// The value written under `key` in `section`, as text; `current` when
/// the key is not set.
pub open spec fn written_text(e: IniSettings, section: Seq<char>, key: Seq<char>, current: Seq<char>) -> Seq<
    char,
> {
    match ini_value(e, section, key) {
        Some(v) => v,
        None => current,
    }
}

/// The value written under `key` in `section`, as a `u32`; `current` when
/// the key is not set or its value is not a `u32`.
pub open spec fn written_number(e: IniSettings, section: Seq<char>, key: Seq<char>, current: u32) -> u32 {
    match ini_value(e, section, key) {
        Some(v) => match u32_from_decimal(v) {
            Some(n) => n,
            None => current,
        },
        None => current,
    }
}

/// The value written under `key` in `section`, as a boolean word;
/// `current` when the key is not set or its value is not such a word.
pub open spec fn written_flag(e: IniSettings, section: Seq<char>, key: Seq<char>, current: bool) -> bool {
    match ini_value(e, section, key) {
        Some(v) => match coerced_bool(lowercased(v)) {
            Some(b) => b,
            None => current,
        },
        None => current,
    }
}

/// Each renderer setting is read from the key of its own name in the
/// `[render]` section, and from no other key.
pub proof fn law_render_settings_read_from_own_keys(
    e: IniSettings,
    path: PathBuf,
    base: ConfigModel,
    p: Option<(u32, u32)>,
)
    ensures
        config_read(e, path, base, p).render.present_mode == written_text(e, "render"@, "present_mode"@, base.render.present_mode),
        config_read(e, path, base, p).render.use_cpu == written_flag(e, "render"@, "use_cpu"@, base.render.use_cpu),
        config_read(e, path, base, p).render.antialiasing_support == written_text(e, "render"@, "antialiasing_support"@, base.render.antialiasing_support),
        config_read(e, path, base, p).render.num_init_threads == written_number(e, "render"@, "num_init_threads"@, base.render.num_init_threads),
        config_read(e, path, base, p).render.antialiasing_method == written_text(e, "render"@, "antialiasing_method"@, base.render.antialiasing_method),
{
    reveal(render_read);
    reveal(setting_value);
    reveal(setting_key);
}

/// Each window setting is read from the key of its own name in the
/// `[window]` section, and from no other key; the position is the one
/// read, and the other window settings are those of the base.
#[verifier::rlimit(40)]
pub proof fn law_window_settings_read_from_own_keys(
    e: IniSettings,
    path: PathBuf,
    base: ConfigModel,
    p: Option<(u32, u32)>,
)
    ensures
        config_read(e, path, base, p).window.title == written_text(e, "window"@, "title"@, base.window.title),
        config_read(e, path, base, p).window.width == written_number(e, "window"@, "width"@, base.window.width),
        config_read(e, path, base, p).window.height == written_number(e, "window"@, "height"@, base.window.height),
        config_read(e, path, base, p).window.fullscreen == written_flag(e, "window"@, "fullscreen"@, base.window.fullscreen),
        config_read(e, path, base, p).window.resizable == written_flag(e, "window"@, "resizable"@, base.window.resizable),
        config_read(e, path, base, p).window.active == written_flag(e, "window"@, "active"@, base.window.active),
        config_read(e, path, base, p).window.visible == written_flag(e, "window"@, "visible"@, base.window.visible),
        config_read(e, path, base, p).window.decorations == written_flag(e, "window"@, "decorations"@, base.window.decorations),
        config_read(e, path, base, p).window.transparent == written_flag(e, "window"@, "transparent"@, base.window.transparent),
        config_read(e, path, base, p).window.blur == written_flag(e, "window"@, "blur"@, base.window.blur),
        config_read(e, path, base, p).window.maximized == written_flag(e, "window"@, "maximized"@, base.window.maximized),
        config_read(e, path, base, p).window.min_width == written_number(e, "window"@, "min_width"@, base.window.min_width),
        config_read(e, path, base, p).window.min_height == written_number(e, "window"@, "min_height"@, base.window.min_height),
        config_read(e, path, base, p).window.max_width == written_number(e, "window"@, "max_width"@, base.window.max_width),
        config_read(e, path, base, p).window.max_height == written_number(e, "window"@, "max_height"@, base.window.max_height),
        config_read(e, path, base, p).window.macos_titlebar_transparent == written_flag(e, "window"@, "macos_titlebar_transparent"@, base.window.macos_titlebar_transparent),
        config_read(e, path, base, p).window.macos_titlebar_hidden == written_flag(e, "window"@, "macos_titlebar_hidden"@, base.window.macos_titlebar_hidden),
        config_read(e, path, base, p).window.macos_titlebar_buttons_hidden == written_flag(e, "window"@, "macos_titlebar_buttons_hidden"@, base.window.macos_titlebar_buttons_hidden),
        config_read(e, path, base, p).window.macos_title_hidden == written_flag(e, "window"@, "macos_title_hidden"@, base.window.macos_title_hidden),
        config_read(e, path, base, p).window.macos_fullsize_content_view == written_flag(e, "window"@, "macos_fullsize_content_view"@, base.window.macos_fullsize_content_view),
        config_read(e, path, base, p).window.macos_has_shadow == written_flag(e, "window"@, "macos_has_shadow"@, base.window.macos_has_shadow),
        config_read(e, path, base, p).window.macos_borderless_game == written_flag(e, "window"@, "macos_borderless_game"@, base.window.macos_borderless_game),
        config_read(e, path, base, p).window.macos_disallow_hidpi == written_flag(e, "window"@, "macos_disallow_hidpi"@, base.window.macos_disallow_hidpi),
        config_read(e, path, base, p).window.macos_option_as_alt == written_text(e, "window"@, "macos_option_as_alt"@, base.window.macos_option_as_alt),
        config_read(e, path, base, p).window.macos_tabbing_identifier == written_text(e, "window"@, "macos_tabbing_identifier"@, base.window.macos_tabbing_identifier),
        config_read(e, path, base, p).window.position == p,
        config_read(e, path, base, p).window.x == base.window.x,
        config_read(e, path, base, p).window.y == base.window.y,
        config_read(e, path, base, p).window.level == base.window.level,
        config_read(e, path, base, p).path == Some(path),
{
    reveal(window_read);
    reveal(setting_value);
    reveal(setting_key);
}

} // verus!
