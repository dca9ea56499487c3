//! Renderer and window configuration: defaults, the meaning of the textual
//! settings, and reading them from INI text.

use crate::text::{chars_of, is_word, lowercased, str_to_lowercase, str_trim, trimmed};
use std::path::PathBuf;
use vstd::prelude::*;

verus! {

/// How frames are presented to the screen.
#[derive(Clone, Copy, Debug, PartialEq, Eq, Structural)]
pub enum PresentMode {
    AutoVsync,
    AutoNoVsync,
    Fifo,
    FifoRelaxed,
    Immediate,
    Mailbox,
}

/// The anti-aliasing method used when rendering.
#[derive(Clone, Copy, Debug, PartialEq, Eq, Structural)]
pub enum AaConfig {
    Area,
    Msaa8,
    Msaa16,
}

/// Which anti-aliasing methods the renderer prepares.
#[derive(Clone, Copy, Debug, PartialEq, Eq, Structural)]
pub struct AaSupport {
    pub area: bool,
    pub msaa8: bool,
    pub msaa16: bool,
}

/// The renderer options a [`Render`] configuration asks for.
/// `antialiasing_support` is `None` where the renderer's own default stays.
#[derive(Clone, Copy, Debug, PartialEq, Eq, Structural)]
pub struct RendererOptions {
    pub use_cpu: bool,
    pub antialiasing_support: Option<AaSupport>,
    pub num_init_threads: Option<u32>,
}

/// The settings of the renderer, as written in the configuration.
#[derive(Clone, Debug)]
pub struct Render {
    pub present_mode: String,
    pub use_cpu: bool,
    pub antialiasing_support: String,
    pub num_init_threads: u32,
    pub antialiasing_method: String,
}

/// What a [`Render`] holds, its strings as character sequences.
pub struct RenderModel {
    pub present_mode: Seq<char>,
    pub use_cpu: bool,
    pub antialiasing_support: Seq<char>,
    pub num_init_threads: u32,
    pub antialiasing_method: Seq<char>,
}

impl View for Render {
    type V = RenderModel;

    open spec fn view(&self) -> RenderModel {
        RenderModel {
            present_mode: self.present_mode@,
            use_cpu: self.use_cpu,
            antialiasing_support: self.antialiasing_support@,
            num_init_threads: self.num_init_threads,
            antialiasing_method: self.antialiasing_method@,
        }
    }
}

/// The present mode that a normalized (lowercase, trimmed) name selects.
pub open spec fn present_mode_named(name: Seq<char>) -> PresentMode {
    if name == "autovsync"@ || name == "auto_vsync"@ || name == "auto-vsync"@ || name == "0"@ {
        PresentMode::AutoVsync
    } else if name == "autonovsync"@ || name == "auto_novsync"@ || name == "auto-novsync"@
        || name == "1"@ {
        PresentMode::AutoNoVsync
    } else if name == "fifo"@ || name == "2"@ {
        PresentMode::Fifo
    } else if name == "fiforelaxed"@ || name == "fifo_relaxed"@ || name == "fifo-relaxed"@
        || name == "3"@ {
        PresentMode::FifoRelaxed
    } else if name == "immediate"@ || name == "4"@ {
        PresentMode::Immediate
    } else if name == "mailbox"@ || name == "5"@ {
        PresentMode::Mailbox
    } else {
        PresentMode::AutoVsync
    }
}

/// The anti-aliasing method that a normalized name selects.
pub open spec fn aa_config_named(name: Seq<char>) -> AaConfig {
    if name == "msaa8"@ || name == "8"@ {
        AaConfig::Msaa8
    } else if name == "msaa16"@ || name == "16"@ {
        AaConfig::Msaa16
    } else {
        AaConfig::Area
    }
}

/// The present mode selected by `name`.
pub fn present_mode_of(name: &str) -> (r: PresentMode)
    ensures
        r == present_mode_named(name@),
{
    if is_word(name, "autovsync") || is_word(name, "auto_vsync") || is_word(name, "auto-vsync")
        || is_word(name, "0") {
        PresentMode::AutoVsync
    } else if is_word(name, "autonovsync") || is_word(name, "auto_novsync") || is_word(
        name,
        "auto-novsync",
    ) || is_word(name, "1") {
        PresentMode::AutoNoVsync
    } else if is_word(name, "fifo") || is_word(name, "2") {
        PresentMode::Fifo
    } else if is_word(name, "fiforelaxed") || is_word(name, "fifo_relaxed") || is_word(
        name,
        "fifo-relaxed",
    ) || is_word(name, "3") {
        PresentMode::FifoRelaxed
    } else if is_word(name, "immediate") || is_word(name, "4") {
        PresentMode::Immediate
    } else if is_word(name, "mailbox") || is_word(name, "5") {
        PresentMode::Mailbox
    } else {
        PresentMode::AutoVsync
    }
}

/// The anti-aliasing method selected by `name`.
pub fn aa_config_of(name: &str) -> (r: AaConfig)
    ensures
        r == aa_config_named(name@),
{
    if is_word(name, "msaa8") || is_word(name, "8") {
        AaConfig::Msaa8
    } else if is_word(name, "msaa16") || is_word(name, "16") {
        AaConfig::Msaa16
    } else {
        AaConfig::Area
    }
}

/// The characters that separate the entries of the anti-aliasing support list.
pub open spec fn is_aa_separator(c: char) -> bool {
    c == ',' || c == '+' || c == ' '
}

/// The pieces of `s` between separators, in order, empty pieces included
/// (as `str::split` gives them): `n` separators give `n + 1` pieces.
pub open spec fn aa_parts(s: Seq<char>) -> Seq<Seq<char>>
    decreases s.len(),
{
    if s.len() == 0 {
        seq![Seq::<char>::empty()]
    } else {
        let prev = aa_parts(s.drop_last());
        if is_aa_separator(s.last()) {
            prev.push(Seq::<char>::empty())
        } else {
            prev.update(prev.len() - 1, prev.last().push(s.last()))
        }
    }
}

/// No anti-aliasing method.
pub open spec fn aa_none() -> AaSupport {
    AaSupport { area: false, msaa8: false, msaa16: false }
}

/// Every anti-aliasing method.
pub open spec fn aa_all() -> AaSupport {
    AaSupport { area: true, msaa8: true, msaa16: true }
}

/// The support after one normalized entry of the list is read.
pub open spec fn aa_entry_applied(acc: AaSupport, name: Seq<char>) -> AaSupport {
    if name == "all"@ || name == "everything"@ || name == "full"@ {
        aa_all()
    } else if name == "area"@ || name == "0"@ {
        AaSupport { area: true, ..acc }
    } else if name == "msaa8"@ || name == "8"@ {
        AaSupport { msaa8: true, ..acc }
    } else if name == "msaa16"@ || name == "16"@ {
        AaSupport { msaa16: true, ..acc }
    } else {
        acc
    }
}

/// The support after the entries are read in order, each trimmed and
/// lowercased first.
pub open spec fn aa_entries_applied(parts: Seq<Seq<char>>, acc: AaSupport) -> AaSupport
    decreases parts.len(),
{
    if parts.len() == 0 {
        acc
    } else {
        aa_entry_applied(
            aa_entries_applied(parts.drop_last(), acc),
            lowercased(trimmed(parts.last())),
        )
    }
}

/// The renderer options that a render configuration asks for.
pub open spec fn renderer_options_for(r: RenderModel) -> RendererOptions {
    RendererOptions {
        use_cpu: r.use_cpu,
        antialiasing_support: if r.antialiasing_support.len() == 0 {
            None
        } else {
            Some(aa_entries_applied(aa_parts(r.antialiasing_support), aa_none()))
        },
        num_init_threads: if r.num_init_threads > 0 {
            Some(r.num_init_threads)
        } else {
            None
        },
    }
}

/// The support after one entry, not yet normalized, is read.
fn apply_aa_entry(acc: AaSupport, entry: &str) -> (r: AaSupport)
    ensures
        r == aa_entry_applied(acc, lowercased(trimmed(entry@))),
{
    let name = str_to_lowercase(str_trim(entry));
    let name = name.as_str();
    if is_word(name, "all") || is_word(name, "everything") || is_word(name, "full") {
        AaSupport { area: true, msaa8: true, msaa16: true }
    } else if is_word(name, "area") || is_word(name, "0") {
        AaSupport { area: true, ..acc }
    } else if is_word(name, "msaa8") || is_word(name, "8") {
        AaSupport { msaa8: true, ..acc }
    } else if is_word(name, "msaa16") || is_word(name, "16") {
        AaSupport { msaa16: true, ..acc }
    } else {
        acc
    }
}

/// Reads an anti-aliasing support list: entries separated by `,`, `+`
/// or a space.
pub fn aa_support_of(list: &str) -> (r: AaSupport)
    ensures
        r == aa_entries_applied(aa_parts(list@), aa_none()),
{
    let chars = chars_of(list);
    let mut acc = AaSupport { area: false, msaa8: false, msaa16: false };
    let mut start: usize = 0;
    let ghost mut done: Seq<Seq<char>> = Seq::empty();
    let mut i: usize = 0;
    assert(chars@.take(0) =~= Seq::<char>::empty());
    assert(aa_parts(chars@.take(0)) =~= done.push(chars@.subrange(0, 0)));
    while i < chars.len()
        invariant
            start <= i <= chars.len(),
            chars@ == list@,
            aa_parts(chars@.take(i as int)) == done.push(chars@.subrange(start as int, i as int)),
            acc == aa_entries_applied(done, aa_none()),
        decreases chars.len() - i,
    {
        let c = chars[i];
        proof {
            assert(chars@.take(i + 1).drop_last() =~= chars@.take(i as int));
        }
        if c == ',' || c == '+' || c == ' ' {
            let entry = list.substring_char(start, i);
            acc = apply_aa_entry(acc, entry);
            proof {
                assert(done.push(entry@).drop_last() =~= done);
                done = done.push(entry@);
            }
            start = i + 1;
            assert(chars@.take(i + 1).last() == c);
            assert(chars@.subrange(start as int, i + 1) =~= Seq::<char>::empty());
            assert(aa_parts(chars@.take(i + 1)) =~= done.push(
                chars@.subrange(start as int, i + 1),
            ));
        } else {
            assert(chars@.subrange(start as int, i + 1) =~= chars@.subrange(
                start as int,
                i as int,
            ).push(c));
            assert(aa_parts(chars@.take(i + 1)) =~= done.push(
                chars@.subrange(start as int, i + 1),
            ));
        }
        i = i + 1;
    }
    assert(chars@.take(chars.len() as int) =~= chars@);
    let entry = list.substring_char(start, chars.len());
    let r = apply_aa_entry(acc, entry);
    assert(done.push(entry@).drop_last() =~= done);
    r
}

/// The renderer settings used when the configuration says nothing.
pub open spec fn default_render() -> RenderModel {
    RenderModel {
        present_mode: "AutoVsync"@,
        use_cpu: false,
        antialiasing_support: "All"@,
        num_init_threads: 0,
        antialiasing_method: "Auto"@,
    }
}

impl Default for Render {
    /// Vsync chosen automatically, the GPU renderer, every anti-aliasing
    /// method prepared, the default number of threads, automatic method.
    fn default() -> (r: Self)
        ensures
            r@ == default_render(),
    {
        Render {
            present_mode: String::from_str("AutoVsync"),
            use_cpu: false,
            antialiasing_support: String::from_str("All"),
            num_init_threads: 0,
            antialiasing_method: String::from_str("Auto"),
        }
    }
}

impl Render {
    /// The present mode named by the `present_mode` setting, compared
    /// case-insensitively and without surrounding white space; unknown
    /// names give `AutoVsync`.
    pub fn present_mode(&self) -> (r: PresentMode)
        ensures
            r == present_mode_named(trimmed(lowercased(self@.present_mode))),
    {
        let lower = str_to_lowercase(self.present_mode.as_str());
        present_mode_of(str_trim(lower.as_str()))
    }

    /// The anti-aliasing method named by the `antialiasing_method` setting,
    /// compared as for the present mode; unknown names give `Area`.
    pub fn antialiasing_method(&self) -> (r: AaConfig)
        ensures
            r == aa_config_named(trimmed(lowercased(self@.antialiasing_method))),
    {
        let lower = str_to_lowercase(self.antialiasing_method.as_str());
        aa_config_of(str_trim(lower.as_str()))
    }

    /// The renderer options asked for: the CPU flag; when the support list
    /// is not empty, the methods it names; and the number of threads for
    /// initialisation when it is positive.
    pub fn renderer_options(&self) -> (r: RendererOptions)
        ensures
            r == renderer_options_for(self@),
    {
        let antialiasing_support = if self.antialiasing_support.as_str().is_empty() {
            None
        } else {
            Some(aa_support_of(self.antialiasing_support.as_str()))
        };
        let num_init_threads = if self.num_init_threads > 0 {
            Some(self.num_init_threads)
        } else {
            None
        };
        RendererOptions { use_cpu: self.use_cpu, antialiasing_support, num_init_threads }
    }
}

/// Where a window stays relative to other windows.
#[derive(Clone, Copy, Debug, PartialEq, Eq, Structural)]
pub enum WindowLevel {
    AlwaysOnBottom,
    Normal,
    AlwaysOnTop,
}

/// Which macOS `Option` keys act as `Alt`.
#[derive(Clone, Copy, Debug, PartialEq, Eq, Structural)]
pub enum OptionAsAlt {
    OnlyLeft,
    OnlyRight,
    Both,
    Off,
}

/// The settings of the main window, as written in the configuration.
#[derive(Clone, Debug)]
pub struct Window {
    pub title: String,
    pub width: u32,
    pub height: u32,
    pub x: u32,
    pub y: u32,
    pub position: Option<(u32, u32)>,
    pub fullscreen: bool,
    pub resizable: bool,
    pub active: bool,
    pub visible: bool,
    pub level: String,
    pub decorations: bool,
    pub transparent: bool,
    pub blur: bool,
    pub maximized: bool,
    pub min_width: u32,
    pub min_height: u32,
    pub max_width: u32,
    pub max_height: u32,
    pub macos_titlebar_transparent: bool,
    pub macos_titlebar_hidden: bool,
    pub macos_titlebar_buttons_hidden: bool,
    pub macos_title_hidden: bool,
    pub macos_fullsize_content_view: bool,
    pub macos_has_shadow: bool,
    pub macos_option_as_alt: String,
    pub macos_tabbing_identifier: String,
    pub macos_borderless_game: bool,
    pub macos_disallow_hidpi: bool,
}

/// What a [`Window`] holds, its strings as character sequences.
pub struct WindowModel {
    pub title: Seq<char>,
    pub width: u32,
    pub height: u32,
    pub x: u32,
    pub y: u32,
    pub position: Option<(u32, u32)>,
    pub fullscreen: bool,
    pub resizable: bool,
    pub active: bool,
    pub visible: bool,
    pub level: Seq<char>,
    pub decorations: bool,
    pub transparent: bool,
    pub blur: bool,
    pub maximized: bool,
    pub min_width: u32,
    pub min_height: u32,
    pub max_width: u32,
    pub max_height: u32,
    pub macos_titlebar_transparent: bool,
    pub macos_titlebar_hidden: bool,
    pub macos_titlebar_buttons_hidden: bool,
    pub macos_title_hidden: bool,
    pub macos_fullsize_content_view: bool,
    pub macos_has_shadow: bool,
    pub macos_option_as_alt: Seq<char>,
    pub macos_tabbing_identifier: Seq<char>,
    pub macos_borderless_game: bool,
    pub macos_disallow_hidpi: bool,
}

impl View for Window {
    type V = WindowModel;

    open spec fn view(&self) -> WindowModel {
        WindowModel {
            title: self.title@,
            width: self.width,
            height: self.height,
            x: self.x,
            y: self.y,
            position: self.position,
            fullscreen: self.fullscreen,
            resizable: self.resizable,
            active: self.active,
            visible: self.visible,
            level: self.level@,
            decorations: self.decorations,
            transparent: self.transparent,
            blur: self.blur,
            maximized: self.maximized,
            min_width: self.min_width,
            min_height: self.min_height,
            max_width: self.max_width,
            max_height: self.max_height,
            macos_titlebar_transparent: self.macos_titlebar_transparent,
            macos_titlebar_hidden: self.macos_titlebar_hidden,
            macos_titlebar_buttons_hidden: self.macos_titlebar_buttons_hidden,
            macos_title_hidden: self.macos_title_hidden,
            macos_fullsize_content_view: self.macos_fullsize_content_view,
            macos_has_shadow: self.macos_has_shadow,
            macos_option_as_alt: self.macos_option_as_alt@,
            macos_tabbing_identifier: self.macos_tabbing_identifier@,
            macos_borderless_game: self.macos_borderless_game,
            macos_disallow_hidpi: self.macos_disallow_hidpi,
        }
    }
}

/// The window settings used when the configuration says nothing.
pub open spec fn default_window() -> WindowModel {
    WindowModel {
        title: "void"@,
        width: 800,
        height: 600,
        x: 0,
        y: 0,
        position: None,
        fullscreen: false,
        resizable: true,
        active: true,
        visible: true,
        level: "normal"@,
        decorations: true,
        transparent: false,
        blur: false,
        maximized: false,
        min_width: 0,
        min_height: 0,
        max_width: 0,
        max_height: 0,
        macos_titlebar_transparent: false,
        macos_titlebar_hidden: false,
        macos_titlebar_buttons_hidden: false,
        macos_title_hidden: false,
        macos_fullsize_content_view: false,
        macos_has_shadow: true,
        macos_option_as_alt: ""@,
        macos_tabbing_identifier: ""@,
        macos_borderless_game: false,
        macos_disallow_hidpi: false,
    }
}

impl Default for Window {
    /// An 800 by 600 window titled "void", resizable, decorated, visible.
    fn default() -> (w: Self)
        ensures
            w@ == default_window(),
    {
        Window {
            title: String::from_str("void"),
            width: 800,
            height: 600,
            x: 0,
            y: 0,
            position: None,
            fullscreen: false,
            resizable: true,
            active: true,
            visible: true,
            level: String::from_str("normal"),
            decorations: true,
            transparent: false,
            blur: false,
            maximized: false,
            min_width: 0,
            min_height: 0,
            max_width: 0,
            max_height: 0,
            macos_titlebar_transparent: false,
            macos_titlebar_hidden: false,
            macos_titlebar_buttons_hidden: false,
            macos_title_hidden: false,
            macos_fullsize_content_view: false,
            macos_has_shadow: true,
            macos_option_as_alt: String::from_str(""),
            macos_tabbing_identifier: String::from_str(""),
            macos_borderless_game: false,
            macos_disallow_hidpi: false,
        }
    }
}

/// The attributes with which the main window is created.
#[derive(Debug)]
pub struct WindowAttributes {
    pub title: String,
    pub inner_size: (u32, u32),
    pub resizable: bool,
    pub visible: bool,
    pub decorations: bool,
    pub transparent: bool,
    pub blur: bool,
    pub maximized: bool,
    pub fullscreen: bool,
    pub position: Option<(u32, u32)>,
    pub min_inner_size: (u32, u32),
    pub max_inner_size: Option<(u32, u32)>,
    pub window_level: Option<WindowLevel>,
    pub macos_titlebar_transparent: bool,
    pub macos_titlebar_hidden: bool,
    pub macos_titlebar_buttons_hidden: bool,
    pub macos_title_hidden: bool,
    pub macos_fullsize_content_view: bool,
    pub macos_has_shadow: bool,
    pub macos_borderless_game: bool,
    pub macos_disallow_hidpi: bool,
    pub macos_option_as_alt: Option<OptionAsAlt>,
    pub macos_tabbing_identifier: Option<String>,
}

/// The larger of two numbers.
pub open spec fn max_u32(a: u32, b: u32) -> u32 {
    if a >= b { a } else { b }
}

/// A minimum window extent: a set value, at least 1, else 1.
pub open spec fn min_extent(v: u32) -> u32 {
    if v > 0 { max_u32(v, 1) } else { 1 }
}

/// A maximum window extent: a set value, at least 2, else unbounded.
pub open spec fn max_extent(v: u32) -> u32 {
    if v > 0 { max_u32(v, 2) } else { u32::MAX }
}

/// The window level that a normalized name selects, if any.
pub open spec fn window_level_named(name: Seq<char>) -> Option<WindowLevel> {
    if name == "normal"@ {
        Some(WindowLevel::Normal)
    } else if name == "alwaysonbottom"@ {
        Some(WindowLevel::AlwaysOnBottom)
    } else if name == "alwaysontop"@ {
        Some(WindowLevel::AlwaysOnTop)
    } else {
        None
    }
}

/// The macOS `Option` key handling that a lowercase name selects.
pub open spec fn option_as_alt_named(name: Seq<char>) -> OptionAsAlt {
    if name == "only_left"@ {
        OptionAsAlt::OnlyLeft
    } else if name == "only_right"@ {
        OptionAsAlt::OnlyRight
    } else if name == "both"@ {
        OptionAsAlt::Both
    } else {
        OptionAsAlt::Off
    }
}

impl Window {
    /// The attributes of the window these settings describe. A set
    /// `position` wins over `x`/`y`, which count only when one is positive;
    /// minimum extents default to 1, maximum ones apply only when one is
    /// set; the level and the macOS settings apply only when not empty.
    pub fn attributes(&self) -> (a: WindowAttributes)
        ensures
            a.title@ == self.title@,
            a.inner_size == (self.width, self.height),
            a.resizable == self.resizable,
            a.visible == self.visible,
            a.decorations == self.decorations,
            a.transparent == self.transparent,
            a.blur == self.blur,
            a.maximized == self.maximized,
            a.fullscreen == self.fullscreen,
            a.position == (match self.position {
                Some(p) => Some(p),
                None => if self.x > 0 || self.y > 0 {
                    Some((self.x, self.y))
                } else {
                    None
                },
            }),
            a.min_inner_size == (min_extent(self.min_width), min_extent(self.min_height)),
            a.max_inner_size == (if self.max_width > 0 || self.max_height > 0 {
                Some((max_extent(self.max_width), max_extent(self.max_height)))
            } else {
                None
            }),
            a.window_level == (if self.level@.len() == 0 {
                None
            } else {
                window_level_named(trimmed(lowercased(self.level@)))
            }),
            a.macos_titlebar_transparent == self.macos_titlebar_transparent,
            a.macos_titlebar_hidden == self.macos_titlebar_hidden,
            a.macos_titlebar_buttons_hidden == self.macos_titlebar_buttons_hidden,
            a.macos_title_hidden == self.macos_title_hidden,
            a.macos_fullsize_content_view == self.macos_fullsize_content_view,
            a.macos_has_shadow == self.macos_has_shadow,
            a.macos_borderless_game == self.macos_borderless_game,
            a.macos_disallow_hidpi == self.macos_disallow_hidpi,
            a.macos_option_as_alt == (if self.macos_option_as_alt@.len() == 0 {
                None
            } else {
                Some(option_as_alt_named(lowercased(self.macos_option_as_alt@)))
            }),
            match a.macos_tabbing_identifier {
                Some(t) => self.macos_tabbing_identifier@.len() > 0 && t@
                    == self.macos_tabbing_identifier@,
                None => self.macos_tabbing_identifier@.len() == 0,
            },
    {
        let mut position = None;
        if self.x > 0 || self.y > 0 {
            position = Some((self.x, self.y));
        }
        if let Some(p) = self.position {
            position = Some(p);
        }
        let mut min_inner_size: (u32, u32) = (1, 1);
        if self.min_width > 0 {
            min_inner_size.0 = if self.min_width >= 1 { self.min_width } else { 1 };
        }
        if self.min_height > 0 {
            min_inner_size.1 = if self.min_height >= 1 { self.min_height } else { 1 };
        }
        let mut max_inner_size = None;
        if self.max_width > 0 || self.max_height > 0 {
            let mut size: (u32, u32) = (u32::MAX, u32::MAX);
            if self.max_width > 0 {
                size.0 = if self.max_width >= 2 { self.max_width } else { 2 };
            }
            if self.max_height > 0 {
                size.1 = if self.max_height >= 2 { self.max_height } else { 2 };
            }
            max_inner_size = Some(size);
        }
        let mut window_level = None;
        if !self.level.as_str().is_empty() {
            let lower = str_to_lowercase(self.level.as_str());
            let name = str_trim(lower.as_str());
            if is_word(name, "normal") {
                window_level = Some(WindowLevel::Normal);
            } else if is_word(name, "alwaysonbottom") {
                window_level = Some(WindowLevel::AlwaysOnBottom);
            } else if is_word(name, "alwaysontop") {
                window_level = Some(WindowLevel::AlwaysOnTop);
            }
        }
        let mut macos_option_as_alt = None;
        if !self.macos_option_as_alt.as_str().is_empty() {
            let lower = str_to_lowercase(self.macos_option_as_alt.as_str());
            let name = lower.as_str();
            macos_option_as_alt = Some(
                if is_word(name, "only_left") {
                    OptionAsAlt::OnlyLeft
                } else if is_word(name, "only_right") {
                    OptionAsAlt::OnlyRight
                } else if is_word(name, "both") {
                    OptionAsAlt::Both
                } else {
                    OptionAsAlt::Off
                },
            );
        }
        let macos_tabbing_identifier = if self.macos_tabbing_identifier.as_str().is_empty() {
            None
        } else {
            Some(self.macos_tabbing_identifier.clone())
        };
        WindowAttributes {
            title: self.title.clone(),
            inner_size: (self.width, self.height),
            resizable: self.resizable,
            visible: self.visible,
            decorations: self.decorations,
            transparent: self.transparent,
            blur: self.blur,
            maximized: self.maximized,
            fullscreen: self.fullscreen,
            position,
            min_inner_size,
            max_inner_size,
            window_level,
            macos_titlebar_transparent: self.macos_titlebar_transparent,
            macos_titlebar_hidden: self.macos_titlebar_hidden,
            macos_titlebar_buttons_hidden: self.macos_titlebar_buttons_hidden,
            macos_title_hidden: self.macos_title_hidden,
            macos_fullsize_content_view: self.macos_fullsize_content_view,
            macos_has_shadow: self.macos_has_shadow,
            macos_borderless_game: self.macos_borderless_game,
            macos_disallow_hidpi: self.macos_disallow_hidpi,
            macos_option_as_alt,
            macos_tabbing_identifier,
        }
    }
}

#[verifier::external_type_specification]
#[verifier::external_body]
pub struct ExPathBuf(PathBuf);

/// The whole configuration: where it was read from, the renderer and the
/// main window.
#[derive(Clone, Debug)]
pub struct Config {
    pub path: Option<PathBuf>,
    pub render: Render,
    pub window: Window,
}

/// What a [`Config`] holds.
pub struct ConfigModel {
    pub path: Option<PathBuf>,
    pub render: RenderModel,
    pub window: WindowModel,
}

impl View for Config {
    type V = ConfigModel;

    open spec fn view(&self) -> ConfigModel {
        ConfigModel { path: self.path, render: self.render@, window: self.window@ }
    }
}

/// The configuration used when none is given.
pub open spec fn default_config() -> ConfigModel {
    ConfigModel { path: None, render: default_render(), window: default_window() }
}

impl Default for Config {
    /// No path, default renderer and window settings.
    fn default() -> (c: Self)
        ensures
            c@ == default_config(),
    {
        Config { path: None, render: Render::default(), window: Window::default() }
    }
}

/// Why a configuration could not be read.
#[derive(Clone, Debug)]
pub enum ConfigError {
    /// The INI text did not parse; the parser's message.
    Ini(String),
    /// The position is not two numbers separated by one comma; the value.
    InvalidPosition(String),
    /// The first number of the position is not a `u32`; the value.
    InvalidX(String),
    /// The second number of the position is not a `u32`; the value.
    InvalidY(String),
}

/// What a [`ConfigError`] holds.
pub enum ConfigErrorModel {
    Ini(Seq<char>),
    InvalidPosition(Seq<char>),
    InvalidX(Seq<char>),
    InvalidY(Seq<char>),
}

impl View for ConfigError {
    type V = ConfigErrorModel;

    open spec fn view(&self) -> ConfigErrorModel {
        match self {
            ConfigError::Ini(m) => ConfigErrorModel::Ini(m@),
            ConfigError::InvalidPosition(m) => ConfigErrorModel::InvalidPosition(m@),
            ConfigError::InvalidX(m) => ConfigErrorModel::InvalidX(m@),
            ConfigError::InvalidY(m) => ConfigErrorModel::InvalidY(m@),
        }
    }
}

/// How each window level is spelled in the configuration, lowercased.
pub open spec fn level_spelling(level: WindowLevel) -> Seq<char> {
    match level {
        WindowLevel::AlwaysOnBottom => "alwaysonbottom"@,
        WindowLevel::Normal => "normal"@,
        WindowLevel::AlwaysOnTop => "alwaysontop"@,
    }
}

/// A level name selects a level exactly when it is that level's spelling:
/// each level has its own name, so distinct names give distinct levels,
/// and any other name selects none.
pub proof fn law_window_level_names(name: Seq<char>, level: WindowLevel)
    ensures
        window_level_named(name) == Some(level) <==> name == level_spelling(level),
        window_level_named(name) is None <==> (name != level_spelling(WindowLevel::AlwaysOnBottom)
            && name != level_spelling(WindowLevel::Normal) && name != level_spelling(
            WindowLevel::AlwaysOnTop,
        )),
{
    reveal_strlit("alwaysonbottom");
    reveal_strlit("normal");
    reveal_strlit("alwaysontop");
    assert("alwaysonbottom"@.len() == 14);
    assert("normal"@.len() == 6);
    assert("alwaysontop"@.len() == 11);
}

} // verus!
