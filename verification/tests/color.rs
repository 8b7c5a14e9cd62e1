use weather_station::color::{level_color, Background, Color, Colored, Colorize, Foreground, LogLevel};

#[test]
fn foreground_codes() {
    assert_eq!(Foreground(Color::Black).code(), "30");
    assert_eq!(Foreground(Color::White).code(), "37");
    assert_eq!(Foreground(Color::BrightBlack).code(), "90");
    assert_eq!(Foreground(Color::BrightWhite).code(), "97");
    assert_eq!(Foreground(Color::Ansi(5)).code(), "38;5;5");
    assert_eq!(Foreground(Color::Ansi(42)).code(), "38;5;42");
    assert_eq!(Foreground(Color::Ansi(208)).code(), "38;5;208");
}

#[test]
fn background_codes() {
    assert_eq!(Background(Color::Red).code(), "41");
    assert_eq!(Background(Color::BrightCyan).code(), "106");
    assert_eq!(Background(Color::BrightWhite).code(), "107");
    assert_eq!(Background(Color::Ansi(0)).code(), "48;5;0");
}

#[test]
fn from_color() {
    assert_eq!(Foreground::from(Color::Green), Foreground(Color::Green));
    assert_eq!(Background::from(Color::Blue), Background(Color::Blue));
}

#[test]
fn plain_value_renders_as_itself() {
    let c = Colored::new("hi");
    assert!(c.is_plain());
    assert_eq!(c.render("hi"), "hi");
}

#[test]
fn renders_escape_sequences() {
    assert_eq!(Colored::new("hi").with_fg(Color::Red).render("hi"), "\x1B[31mhi\x1B[0m");
    assert_eq!(Colored::new("hi").with_bg(Color::Blue).render("hi"), "\x1B[44mhi\x1B[0m");
    assert_eq!(
        Colored::new("hi").with_fg(Color::Red).with_bg(Color::Blue).render("hi"),
        "\x1B[44;31mhi\x1B[0m"
    );
    assert_eq!(
        Colored::new(1).with_fg(Color::Ansi(123)).render("1"),
        "\x1B[38;5;123m1\x1B[0m"
    );
}

#[test]
fn colorize_methods() {
    let c = "x".red();
    assert_eq!(c, Colored { input: "x", fgcolor: Some(Foreground(Color::Red)), bgcolor: None });
    let c = "x".on_bright_white();
    assert_eq!(c.bgcolor, Some(Background(Color::BrightWhite)));
    assert_eq!(c.fgcolor, None);
    let c: Colored<&str> = Colored::new("x").purple();
    let c: Colored<&str> = c.on_ansi_color(7);
    assert_eq!(c.fgcolor, Some(Foreground(Color::Magenta)));
    assert_eq!(c.bgcolor, Some(Background(Color::Ansi(7))));
    assert!(!c.is_plain());
}

#[test]
fn log_level_colors() {
    assert_eq!(level_color(LogLevel::Error), Color::BrightRed);
    assert_eq!(level_color(LogLevel::Warn), Color::BrightYellow);
    assert_eq!(level_color(LogLevel::Info), Color::BrightGreen);
    assert_eq!(level_color(LogLevel::Debug), Color::BrightBlue);
    assert_eq!(level_color(LogLevel::Trace), Color::BrightMagenta);
}
