use std::path::PathBuf;
use void_editor::config::{
    AaConfig, AaSupport, Config, ConfigError, OptionAsAlt, PresentMode, Render, Window,
    WindowLevel,
};

fn render_with(present_mode: &str, aa_support: &str, threads: u32, aa_method: &str) -> Render {
    Render {
        present_mode: present_mode.to_string(),
        use_cpu: false,
        antialiasing_support: aa_support.to_string(),
        num_init_threads: threads,
        antialiasing_method: aa_method.to_string(),
    }
}

fn read(text: &str) -> Result<Config, ConfigError> {
    Config::from_ini_text(text.to_string(), PathBuf::from("void.ini"), None)
}

#[test]
fn default_render_settings() {
    let r = Render::default();
    assert_eq!(r.present_mode(), PresentMode::AutoVsync);
    assert_eq!(r.antialiasing_method(), AaConfig::Area);
    let o = r.renderer_options();
    assert!(!o.use_cpu);
    assert_eq!(o.antialiasing_support, Some(AaSupport { area: true, msaa8: true, msaa16: true }));
    assert_eq!(o.num_init_threads, None);
}

#[test]
fn present_mode_names() {
    assert_eq!(render_with(" Mailbox ", "", 0, "").present_mode(), PresentMode::Mailbox);
    assert_eq!(render_with("FIFO_relaxed", "", 0, "").present_mode(), PresentMode::FifoRelaxed);
    assert_eq!(render_with("auto-novsync", "", 0, "").present_mode(), PresentMode::AutoNoVsync);
    assert_eq!(render_with("4", "", 0, "").present_mode(), PresentMode::Immediate);
    assert_eq!(render_with("fifo", "", 0, "").present_mode(), PresentMode::Fifo);
    assert_eq!(render_with("whatever", "", 0, "").present_mode(), PresentMode::AutoVsync);
}

#[test]
fn antialiasing_method_names() {
    assert_eq!(render_with("", "", 0, "MSAA16").antialiasing_method(), AaConfig::Msaa16);
    assert_eq!(render_with("", "", 0, " 8 ").antialiasing_method(), AaConfig::Msaa8);
    assert_eq!(render_with("", "", 0, "area").antialiasing_method(), AaConfig::Area);
    assert_eq!(render_with("", "", 0, "Auto").antialiasing_method(), AaConfig::Area);
}

#[test]
fn antialiasing_support_lists() {
    let o = render_with("", "area+msaa8", 0, "").renderer_options();
    assert_eq!(o.antialiasing_support, Some(AaSupport { area: true, msaa8: true, msaa16: false }));
    let o = render_with("", "msaa16, bogus", 0, "").renderer_options();
    assert_eq!(o.antialiasing_support, Some(AaSupport { area: false, msaa8: false, msaa16: true }));
    let o = render_with("", "16 0", 0, "").renderer_options();
    assert_eq!(o.antialiasing_support, Some(AaSupport { area: true, msaa8: false, msaa16: true }));
    let o = render_with("", "nothing", 0, "").renderer_options();
    assert_eq!(o.antialiasing_support, Some(AaSupport { area: false, msaa8: false, msaa16: false }));
    let o = render_with("", "", 0, "").renderer_options();
    assert_eq!(o.antialiasing_support, None);
    let o = render_with("", "Everything", 3, "").renderer_options();
    assert_eq!(o.antialiasing_support, Some(AaSupport { area: true, msaa8: true, msaa16: true }));
    assert_eq!(o.num_init_threads, Some(3));
}

#[test]
fn default_window_settings() {
    let w = Window::default();
    assert_eq!(w.title, "void");
    assert_eq!((w.width, w.height), (800, 600));
    assert_eq!(w.level, "normal");
    assert!(w.resizable && w.visible && w.decorations && w.macos_has_shadow);
    assert_eq!(w.position, None);
}

#[test]
fn window_attributes_of_defaults() {
    let a = Window::default().attributes();
    assert_eq!(a.title, "void");
    assert_eq!(a.inner_size, (800, 600));
    assert_eq!(a.position, None);
    assert_eq!(a.min_inner_size, (1, 1));
    assert_eq!(a.max_inner_size, None);
    assert_eq!(a.window_level, Some(WindowLevel::Normal));
    assert_eq!(a.macos_option_as_alt, None);
    assert_eq!(a.macos_tabbing_identifier, None);
}

#[test]
fn window_attributes_position_and_limits() {
    let mut w = Window::default();
    w.x = 5;
    w.y = 0;
    assert_eq!(w.attributes().position, Some((5, 0)));
    w.position = Some((30, 40));
    assert_eq!(w.attributes().position, Some((30, 40)));
    w.min_width = 200;
    w.max_height = 1;
    let a = w.attributes();
    assert_eq!(a.min_inner_size, (200, 1));
    assert_eq!(a.max_inner_size, Some((u32::MAX, 2)));
}

#[test]
fn window_attributes_level_and_macos() {
    let mut w = Window::default();
    w.level = " AlwaysOnTop ".to_string();
    assert_eq!(w.attributes().window_level, Some(WindowLevel::AlwaysOnTop));
    w.level = "sideways".to_string();
    assert_eq!(w.attributes().window_level, None);
    w.level = String::new();
    assert_eq!(w.attributes().window_level, None);
    w.macos_option_as_alt = "Only_Left".to_string();
    w.macos_tabbing_identifier = "tabs".to_string();
    let a = w.attributes();
    assert_eq!(a.macos_option_as_alt, Some(OptionAsAlt::OnlyLeft));
    assert_eq!(a.macos_tabbing_identifier, Some("tabs".to_string()));
    w.macos_option_as_alt = "none".to_string();
    assert_eq!(w.attributes().macos_option_as_alt, Some(OptionAsAlt::Off));
}

#[test]
fn empty_ini_keeps_defaults() {
    let c = read("").unwrap();
    assert_eq!(c.path, Some(PathBuf::from("void.ini")));
    assert_eq!(c.window.title, "void");
    assert_eq!(c.window.width, 800);
    assert_eq!(c.render.present_mode, "AutoVsync");
    assert_eq!(c.window.position, None);
}

#[test]
fn ini_settings_replace_values() {
    let text = "[render]\npresent_mode = Mailbox\nuse_cpu = yes\nnum_init_threads = 4\n\
                [window]\ntitle = Canvas\nwidth = 1024\nheight = oops\nblur = On\n\
                resizable = maybe\nmacos_option_as_alt = both\n";
    let c = read(text).unwrap();
    assert_eq!(c.render.present_mode(), PresentMode::Mailbox);
    assert!(c.render.use_cpu);
    assert_eq!(c.render.num_init_threads, 4);
    assert_eq!(c.window.title, "Canvas");
    assert_eq!(c.window.width, 1024);
    assert_eq!(c.window.height, 600);
    assert!(c.window.blur);
    assert!(c.window.resizable);
    assert_eq!(c.window.macos_option_as_alt, "both");
}

#[test]
fn ini_names_are_case_insensitive() {
    let c = read("[Window]\nTITLE = Loud\n").unwrap();
    assert_eq!(c.window.title, "Loud");
}

#[test]
fn ini_reads_over_given_default() {
    let mut base = Config::default();
    base.window.title = "base".to_string();
    base.window.width = 10;
    let c = Config::from_ini_text("[window]\nwidth = 20\n".to_string(), PathBuf::from("a"), Some(base)).unwrap();
    assert_eq!(c.window.title, "base");
    assert_eq!(c.window.width, 20);
}

#[test]
fn ini_position_is_read() {
    let c = read("[window]\nposition = 10, 20\n").unwrap();
    assert_eq!(c.window.position, Some((10, 20)));
    let c = read("[window]\nposition = None\n").unwrap();
    assert_eq!(c.window.position, None);
}

#[test]
fn ini_position_errors() {
    match read("[window]\nposition = 1,2,3\n") {
        Err(ConfigError::InvalidPosition(p)) => assert_eq!(p, "1,2,3"),
        other => panic!("unexpected {:?}", other.map(|_| ())),
    }
    match read("[window]\nposition = a,2\n") {
        Err(ConfigError::InvalidX(p)) => assert_eq!(p, "a,2"),
        other => panic!("unexpected {:?}", other.map(|_| ())),
    }
    match read("[window]\nposition = 1, -2\n") {
        Err(ConfigError::InvalidY(p)) => assert_eq!(p, "1, -2"),
        other => panic!("unexpected {:?}", other.map(|_| ())),
    }
}

#[test]
fn ini_parse_error_is_reported() {
    match read("[window\ntitle = x\n") {
        Err(ConfigError::Ini(msg)) => assert!(!msg.is_empty()),
        other => panic!("unexpected {:?}", other.map(|_| ())),
    }
}

#[test]
fn law_no_settings_keeps_base_on_values() {
    let base = Config::default();
    let c = Config::from_ini_text("; only a comment\n".to_string(), PathBuf::from("p"), Some(base)).unwrap();
    let d = Config::default();
    assert_eq!(c.window.title, d.window.title);
    assert_eq!(c.render.antialiasing_support, d.render.antialiasing_support);
    assert_eq!(c.window.max_width, d.window.max_width);
}
