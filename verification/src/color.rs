//! ANSI colours for log lines: the SGR codes of each colour and the escape
//! sequence that wraps a coloured text.
use vstd::prelude::*;
use vstd::string::StringExecFns;

verus! {

/// A terminal colour: the sixteen named ones or an entry of the 256-colour table.
#[derive(Debug, Clone, Copy, PartialEq, Eq)]
pub enum Color {
    Black,
    Red,
    Green,
    Yellow,
    Blue,
    Magenta,
    Cyan,
    White,
    BrightBlack,
    BrightRed,
    BrightGreen,
    BrightYellow,
    BrightBlue,
    BrightMagenta,
    BrightCyan,
    BrightWhite,
    Ansi(u8),
}

/// A colour used for the text.
#[derive(Debug, Clone, Copy, PartialEq, Eq)]
pub struct Foreground(pub Color);

/// A colour used for the background.
#[derive(Debug, Clone, Copy, PartialEq, Eq)]
pub struct Background(pub Color);

impl From<Color> for Foreground {
    fn from(color: Color) -> (r: Self)
        ensures
            r == Foreground(color),
    {
        Foreground(color)
    }
}

impl vstd::std_specs::convert::FromSpecImpl<Color> for Foreground {
    open spec fn obeys_from_spec() -> bool {
        true
    }

    open spec fn from_spec(color: Color) -> Self {
        Foreground(color)
    }
}

impl From<Color> for Background {
    fn from(color: Color) -> (r: Self)
        ensures
            r == Background(color),
    {
        Background(color)
    }
}

impl vstd::std_specs::convert::FromSpecImpl<Color> for Background {
    open spec fn obeys_from_spec() -> bool {
        true
    }

    open spec fn from_spec(color: Color) -> Self {
        Background(color)
    }
}

/// The severity of a log record.
#[derive(Debug, Clone, Copy, PartialEq, Eq)]
pub enum LogLevel {
    Error,
    Warn,
    Info,
    Debug,
    Trace,
}

/// The colour that log lines of each level are written in.
pub open spec fn spec_level_color(level: LogLevel) -> Color {
    match level {
        LogLevel::Error => Color::BrightRed,
        LogLevel::Warn => Color::BrightYellow,
        LogLevel::Info => Color::BrightGreen,
        LogLevel::Debug => Color::BrightBlue,
        LogLevel::Trace => Color::BrightMagenta,
    }
}

/// The colour that log lines of the given level are written in.
pub fn level_color(level: LogLevel) -> (r: Color)
    ensures
        r == spec_level_color(level),
{
    match level {
        LogLevel::Error => Color::BrightRed,
        LogLevel::Warn => Color::BrightYellow,
        LogLevel::Info => Color::BrightGreen,
        LogLevel::Debug => Color::BrightBlue,
        LogLevel::Trace => Color::BrightMagenta,
    }
}

/// The character of a decimal digit.
pub open spec fn digit_char(d: nat) -> char {
    (48 + d) as char
}

/// The decimal writing of `n`, without leading zeros.
pub open spec fn decimal_chars(n: nat) -> Seq<char>
    decreases n,
{
    if n < 10 {
        seq![digit_char(n)]
    } else {
        decimal_chars(n / 10) + seq![digit_char(n % 10)]
    }
}

/// The SGR number of a named colour: 30 to 37 for the plain ones and 90 to 97
/// for the bright ones, as a text colour; backgrounds add 10.
pub open spec fn named_code(c: Color) -> nat {
    match c {
        Color::Black => 30,
        Color::Red => 31,
        Color::Green => 32,
        Color::Yellow => 33,
        Color::Blue => 34,
        Color::Magenta => 35,
        Color::Cyan => 36,
        Color::White => 37,
        Color::BrightBlack => 90,
        Color::BrightRed => 91,
        Color::BrightGreen => 92,
        Color::BrightYellow => 93,
        Color::BrightBlue => 94,
        Color::BrightMagenta => 95,
        Color::BrightCyan => 96,
        Color::BrightWhite => 97,
        Color::Ansi(_) => 0,
    }
}

/// The SGR parameters that select a colour: `38;5;n` (text) or `48;5;n`
/// (background) for a table entry, else the colour's number.
pub open spec fn sgr_code(c: Color, background: bool) -> Seq<char> {
    match c {
        Color::Ansi(n) => seq![if background { '4' } else { '3' }, '8', ';', '5', ';'] + decimal_chars(n as nat),
        _ => decimal_chars(named_code(c) + if background { 10nat } else { 0nat }),
    }
}

/// The SGR parameters of each named colour are the standard ANSI ones: 30
/// to 37 and 90 to 97 for text, 40 to 47 and 100 to 107 for backgrounds, in
/// the order black, red, green, yellow, blue, magenta, cyan, white; a table
/// entry `n` is `38;5;n` or `48;5;n`.
pub proof fn lemma_sgr_codes(n: u8)
    ensures
        sgr_code(Color::Black, false) == seq!['3', '0'],
        sgr_code(Color::Black, true) == seq!['4', '0'],
        sgr_code(Color::Red, false) == seq!['3', '1'],
        sgr_code(Color::Red, true) == seq!['4', '1'],
        sgr_code(Color::Green, false) == seq!['3', '2'],
        sgr_code(Color::Green, true) == seq!['4', '2'],
        sgr_code(Color::Yellow, false) == seq!['3', '3'],
        sgr_code(Color::Yellow, true) == seq!['4', '3'],
        sgr_code(Color::Blue, false) == seq!['3', '4'],
        sgr_code(Color::Blue, true) == seq!['4', '4'],
        sgr_code(Color::Magenta, false) == seq!['3', '5'],
        sgr_code(Color::Magenta, true) == seq!['4', '5'],
        sgr_code(Color::Cyan, false) == seq!['3', '6'],
        sgr_code(Color::Cyan, true) == seq!['4', '6'],
        sgr_code(Color::White, false) == seq!['3', '7'],
        sgr_code(Color::White, true) == seq!['4', '7'],
        sgr_code(Color::BrightBlack, false) == seq!['9', '0'],
        sgr_code(Color::BrightBlack, true) == seq!['1', '0', '0'],
        sgr_code(Color::BrightRed, false) == seq!['9', '1'],
        sgr_code(Color::BrightRed, true) == seq!['1', '0', '1'],
        sgr_code(Color::BrightGreen, false) == seq!['9', '2'],
        sgr_code(Color::BrightGreen, true) == seq!['1', '0', '2'],
        sgr_code(Color::BrightYellow, false) == seq!['9', '3'],
        sgr_code(Color::BrightYellow, true) == seq!['1', '0', '3'],
        sgr_code(Color::BrightBlue, false) == seq!['9', '4'],
        sgr_code(Color::BrightBlue, true) == seq!['1', '0', '4'],
        sgr_code(Color::BrightMagenta, false) == seq!['9', '5'],
        sgr_code(Color::BrightMagenta, true) == seq!['1', '0', '5'],
        sgr_code(Color::BrightCyan, false) == seq!['9', '6'],
        sgr_code(Color::BrightCyan, true) == seq!['1', '0', '6'],
        sgr_code(Color::BrightWhite, false) == seq!['9', '7'],
        sgr_code(Color::BrightWhite, true) == seq!['1', '0', '7'],
        sgr_code(Color::Ansi(n), false) == seq!['3', '8', ';', '5', ';'] + decimal_chars(n as nat),
        sgr_code(Color::Ansi(n), true) == seq!['4', '8', ';', '5', ';'] + decimal_chars(n as nat),
{
    reveal_with_fuel(decimal_chars, 3);
    assert(decimal_chars(30) =~= seq!['3', '0']);
    assert(decimal_chars(40) =~= seq!['4', '0']);
    assert(decimal_chars(31) =~= seq!['3', '1']);
    assert(decimal_chars(41) =~= seq!['4', '1']);
    assert(decimal_chars(32) =~= seq!['3', '2']);
    assert(decimal_chars(42) =~= seq!['4', '2']);
    assert(decimal_chars(33) =~= seq!['3', '3']);
    assert(decimal_chars(43) =~= seq!['4', '3']);
    assert(decimal_chars(34) =~= seq!['3', '4']);
    assert(decimal_chars(44) =~= seq!['4', '4']);
    assert(decimal_chars(35) =~= seq!['3', '5']);
    assert(decimal_chars(45) =~= seq!['4', '5']);
    assert(decimal_chars(36) =~= seq!['3', '6']);
    assert(decimal_chars(46) =~= seq!['4', '6']);
    assert(decimal_chars(37) =~= seq!['3', '7']);
    assert(decimal_chars(47) =~= seq!['4', '7']);
    assert(decimal_chars(90) =~= seq!['9', '0']);
    assert(decimal_chars(100) =~= seq!['1', '0', '0']);
    assert(decimal_chars(91) =~= seq!['9', '1']);
    assert(decimal_chars(101) =~= seq!['1', '0', '1']);
    assert(decimal_chars(92) =~= seq!['9', '2']);
    assert(decimal_chars(102) =~= seq!['1', '0', '2']);
    assert(decimal_chars(93) =~= seq!['9', '3']);
    assert(decimal_chars(103) =~= seq!['1', '0', '3']);
    assert(decimal_chars(94) =~= seq!['9', '4']);
    assert(decimal_chars(104) =~= seq!['1', '0', '4']);
    assert(decimal_chars(95) =~= seq!['9', '5']);
    assert(decimal_chars(105) =~= seq!['1', '0', '5']);
    assert(decimal_chars(96) =~= seq!['9', '6']);
    assert(decimal_chars(106) =~= seq!['1', '0', '6']);
    assert(decimal_chars(97) =~= seq!['9', '7']);
    assert(decimal_chars(107) =~= seq!['1', '0', '7']);
}

/// The one-character string of a decimal digit.
fn digit_str(d: u8) -> (r: &'static str)
    requires
        d < 10,
    ensures
        r@ == seq![digit_char(d as nat)],
{
    proof {
        reveal_strlit("0");
        reveal_strlit("1");
        reveal_strlit("2");
        reveal_strlit("3");
        reveal_strlit("4");
        reveal_strlit("5");
        reveal_strlit("6");
        reveal_strlit("7");
        reveal_strlit("8");
        reveal_strlit("9");
    }
    if d == 0 {
        "0"
    } else if d == 1 {
        "1"
    } else if d == 2 {
        "2"
    } else if d == 3 {
        "3"
    } else if d == 4 {
        "4"
    } else if d == 5 {
        "5"
    } else if d == 6 {
        "6"
    } else if d == 7 {
        "7"
    } else if d == 8 {
        "8"
    } else {
        "9"
    }
}

/// Appends the decimal writing of `n` to `s`.
fn push_decimal(s: &mut String, n: u8)
    ensures
        final(s)@ == old(s)@ + decimal_chars(n as nat),
{
    let ghost s0 = s@;
    if n >= 100 {
        s.append(digit_str(n / 100));
        s.append(digit_str((n / 10) % 10));
        s.append(digit_str(n % 10));
        proof {
            let m = n as nat;
            assert(m / 10 >= 10 && m / 10 / 10 == m / 100 && m / 100 < 10);
            reveal_with_fuel(decimal_chars, 3);
            assert(decimal_chars(m / 10) =~= seq![digit_char(m / 100), digit_char((m / 10) % 10)]);
            assert(decimal_chars(m) =~= seq![digit_char(m / 100), digit_char((m / 10) % 10), digit_char(m % 10)]);
            assert(s@ =~= s0 + decimal_chars(m));
        }
    } else if n >= 10 {
        s.append(digit_str(n / 10));
        s.append(digit_str(n % 10));
        proof {
            let m = n as nat;
            reveal_with_fuel(decimal_chars, 2);
            assert(decimal_chars(m) =~= seq![digit_char(m / 10), digit_char(m % 10)]);
            assert(s@ =~= s0 + decimal_chars(m));
        }
    } else {
        s.append(digit_str(n));
        proof {
            assert(s@ =~= s0 + decimal_chars(n as nat));
        }
    }
}

/// Appends the SGR parameters of `c` to `s`.
fn push_sgr_code(s: &mut String, c: Color, background: bool)
    ensures
        final(s)@ == old(s)@ + sgr_code(c, background),
{
    proof {
        reveal_strlit("38;5;");
        reveal_strlit("48;5;");
    }
    let base: u8 = if background { 10 } else { 0 };
    match c {
        Color::Black => push_decimal(s, 30 + base),
        Color::Red => push_decimal(s, 31 + base),
        Color::Green => push_decimal(s, 32 + base),
        Color::Yellow => push_decimal(s, 33 + base),
        Color::Blue => push_decimal(s, 34 + base),
        Color::Magenta => push_decimal(s, 35 + base),
        Color::Cyan => push_decimal(s, 36 + base),
        Color::White => push_decimal(s, 37 + base),
        Color::BrightBlack => push_decimal(s, 90 + base),
        Color::BrightRed => push_decimal(s, 91 + base),
        Color::BrightGreen => push_decimal(s, 92 + base),
        Color::BrightYellow => push_decimal(s, 93 + base),
        Color::BrightBlue => push_decimal(s, 94 + base),
        Color::BrightMagenta => push_decimal(s, 95 + base),
        Color::BrightCyan => push_decimal(s, 96 + base),
        Color::BrightWhite => push_decimal(s, 97 + base),
        Color::Ansi(n) => {
            if background {
                s.append("48;5;");
            } else {
                s.append("38;5;");
            }
            push_decimal(s, n);
        },
    }
    assert(final(s)@ =~= old(s)@ + sgr_code(c, background));
}

impl Foreground {
    /// The SGR parameters of the text colour, as its `Display` writes them.
    pub fn code(&self) -> (r: String)
        ensures
            r@ == sgr_code(self.0, false),
    {
        let mut s = String::new();
        push_sgr_code(&mut s, self.0, false);
        s
    }
}

impl Background {
    /// The SGR parameters of the background colour, as its `Display` writes them.
    pub fn code(&self) -> (r: String)
        ensures
            r@ == sgr_code(self.0, true),
    {
        let mut s = String::new();
        push_sgr_code(&mut s, self.0, true);
        s
    }
}

/// The text of a coloured value as its `Display` writes it: the value alone
/// when it has no colour; else the escape `ESC [`, the background's code, a
/// `;` when both colours are set, the text colour's code, `m`, the value,
/// and the reset `ESC [ 0 m`.
pub open spec fn spec_render(fg: Option<Foreground>, bg: Option<Background>, input: Seq<char>) -> Seq<char> {
    if fg is None && bg is None {
        input
    } else {
        seq!['\x1B', '[']
            + (match bg {
            Some(b) => sgr_code(b.0, true),
            None => Seq::empty(),
        }) + (if bg is Some && fg is Some {
            seq![';']
        } else {
            Seq::empty()
        }) + (match fg {
            Some(f) => sgr_code(f.0, false),
            None => Seq::empty(),
        }) + seq!['m'] + input + seq!['\x1B', '[', '0', 'm']
    }
}

/// A value with an optional text colour and an optional background colour.
#[derive(Debug, Clone, PartialEq, Eq, Default)]
pub struct Colored<T> {
    pub input: T,
    pub fgcolor: Option<Foreground>,
    pub bgcolor: Option<Background>,
}

impl<T> Colored<T> {
    /// Whether neither colour is set.
    pub fn is_plain(&self) -> (r: bool)
        ensures
            r == (self.fgcolor is None && self.bgcolor is None),
    {
        self.fgcolor.is_none() && self.bgcolor.is_none()
    }

    /// The value without colours.
    pub fn new(input: T) -> (r: Self)
        ensures
            r.input == input,
            r.fgcolor is None,
            r.bgcolor is None,
    {
        Self { input, fgcolor: None, bgcolor: None }
    }

    /// The same value with the given text colour.
    pub fn with_fg(self, color: Color) -> (r: Self)
        ensures
            r.input == self.input,
            r.fgcolor == Some(Foreground(color)),
            r.bgcolor == self.bgcolor,
    {
        Self { input: self.input, fgcolor: Some(Foreground(color)), bgcolor: self.bgcolor }
    }

    /// The same value with the given background colour.
    pub fn with_bg(self, color: Color) -> (r: Self)
        ensures
            r.input == self.input,
            r.fgcolor == self.fgcolor,
            r.bgcolor == Some(Background(color)),
    {
        Self { input: self.input, fgcolor: self.fgcolor, bgcolor: Some(Background(color)) }
    }

    /// Writes the coloured value, given the text that the value's own
    /// `Display` writes.
    pub fn render(&self, input: &str) -> (r: String)
        ensures
            r@ == spec_render(self.fgcolor, self.bgcolor, input@),
    {
        proof {
            reveal_strlit("\x1B[");
            reveal_strlit(";");
            reveal_strlit("m");
            reveal_strlit("\x1B[0m");
        }
        if self.is_plain() {
            return String::from_str(input);
        }
        let mut s = String::from_str("\x1B[");
        let mut has_written = false;
        if let Some(bgcolor) = &self.bgcolor {
            push_sgr_code(&mut s, bgcolor.0, true);
            has_written = true;
        }
        if let Some(fgcolor) = &self.fgcolor {
            if has_written {
                s.append(";");
            }
            push_sgr_code(&mut s, fgcolor.0, false);
        }
        s.append("m");
        s.append(input);
        s.append("\x1B[0m");
        assert(s@ =~= spec_render(self.fgcolor, self.bgcolor, input@));
        s
    }
}

/// Colouring a value: set its text colour or its background colour.
pub trait Colorize<T>: Sized {
    /// The value with the given text colour.
    spec fn with_fg_spec(self, color: Color) -> Colored<T>;

    /// The value with the given background colour.
    spec fn with_bg_spec(self, color: Color) -> Colored<T>;

    /// The value itself, with no colour.
    fn colored(self) -> (r: Colored<Self>)
        ensures
            r.input == self,
            r.fgcolor is None,
            r.bgcolor is None,
    {
        Colored::new(self)
    }

    /// The value with the given text colour.
    fn color(self, color: Color) -> (r: Colored<T>)
        ensures
            r == self.with_fg_spec(color),
    ;

    /// The value with the given background colour.
    fn on_color(self, color: Color) -> (r: Colored<T>)
        ensures
            r == self.with_bg_spec(color),
    ;

    /// The value with the text colour Black.
    fn black(self) -> (r: Colored<T>)
        ensures
            r == self.with_fg_spec(Color::Black),
    {
        self.color(Color::Black)
    }

    /// The value with the text colour Red.
    fn red(self) -> (r: Colored<T>)
        ensures
            r == self.with_fg_spec(Color::Red),
    {
        self.color(Color::Red)
    }

    /// The value with the text colour Green.
    fn green(self) -> (r: Colored<T>)
        ensures
            r == self.with_fg_spec(Color::Green),
    {
        self.color(Color::Green)
    }

    /// The value with the text colour Yellow.
    fn yellow(self) -> (r: Colored<T>)
        ensures
            r == self.with_fg_spec(Color::Yellow),
    {
        self.color(Color::Yellow)
    }

    /// The value with the text colour Blue.
    fn blue(self) -> (r: Colored<T>)
        ensures
            r == self.with_fg_spec(Color::Blue),
    {
        self.color(Color::Blue)
    }

    /// The value with the text colour Magenta.
    fn magenta(self) -> (r: Colored<T>)
        ensures
            r == self.with_fg_spec(Color::Magenta),
    {
        self.color(Color::Magenta)
    }

    /// The value with the text colour Magenta.
    fn purple(self) -> (r: Colored<T>)
        ensures
            r == self.with_fg_spec(Color::Magenta),
    {
        self.color(Color::Magenta)
    }

    /// The value with the text colour Cyan.
    fn cyan(self) -> (r: Colored<T>)
        ensures
            r == self.with_fg_spec(Color::Cyan),
    {
        self.color(Color::Cyan)
    }

    /// The value with the text colour White.
    fn white(self) -> (r: Colored<T>)
        ensures
            r == self.with_fg_spec(Color::White),
    {
        self.color(Color::White)
    }

    /// The value with the text colour BrightBlack.
    fn bright_black(self) -> (r: Colored<T>)
        ensures
            r == self.with_fg_spec(Color::BrightBlack),
    {
        self.color(Color::BrightBlack)
    }

    /// The value with the text colour BrightRed.
    fn bright_red(self) -> (r: Colored<T>)
        ensures
            r == self.with_fg_spec(Color::BrightRed),
    {
        self.color(Color::BrightRed)
    }

    /// The value with the text colour BrightGreen.
    fn bright_green(self) -> (r: Colored<T>)
        ensures
            r == self.with_fg_spec(Color::BrightGreen),
    {
        self.color(Color::BrightGreen)
    }

    /// The value with the text colour BrightYellow.
    fn bright_yellow(self) -> (r: Colored<T>)
        ensures
            r == self.with_fg_spec(Color::BrightYellow),
    {
        self.color(Color::BrightYellow)
    }

    /// The value with the text colour BrightBlue.
    fn bright_blue(self) -> (r: Colored<T>)
        ensures
            r == self.with_fg_spec(Color::BrightBlue),
    {
        self.color(Color::BrightBlue)
    }

    /// The value with the text colour BrightMagenta.
    fn bright_magenta(self) -> (r: Colored<T>)
        ensures
            r == self.with_fg_spec(Color::BrightMagenta),
    {
        self.color(Color::BrightMagenta)
    }

    /// The value with the text colour BrightMagenta.
    fn bright_purple(self) -> (r: Colored<T>)
        ensures
            r == self.with_fg_spec(Color::BrightMagenta),
    {
        self.color(Color::BrightMagenta)
    }

    /// The value with the text colour BrightCyan.
    fn bright_cyan(self) -> (r: Colored<T>)
        ensures
            r == self.with_fg_spec(Color::BrightCyan),
    {
        self.color(Color::BrightCyan)
    }

    /// The value with the text colour BrightWhite.
    fn bright_white(self) -> (r: Colored<T>)
        ensures
            r == self.with_fg_spec(Color::BrightWhite),
    {
        self.color(Color::BrightWhite)
    }

    /// The value with the text colour of the given 256-colour table entry.
    fn ansi_color(self, color: u8) -> (r: Colored<T>)
        ensures
            r == self.with_fg_spec(Color::Ansi(color)),
    {
        self.color(Color::Ansi(color))
    }

    /// The value with the background colour Black.
    fn on_black(self) -> (r: Colored<T>)
        ensures
            r == self.with_bg_spec(Color::Black),
    {
        self.on_color(Color::Black)
    }

    /// The value with the background colour Red.
    fn on_red(self) -> (r: Colored<T>)
        ensures
            r == self.with_bg_spec(Color::Red),
    {
        self.on_color(Color::Red)
    }

    /// The value with the background colour Green.
    fn on_green(self) -> (r: Colored<T>)
        ensures
            r == self.with_bg_spec(Color::Green),
    {
        self.on_color(Color::Green)
    }

    /// The value with the background colour Yellow.
    fn on_yellow(self) -> (r: Colored<T>)
        ensures
            r == self.with_bg_spec(Color::Yellow),
    {
        self.on_color(Color::Yellow)
    }

    /// The value with the background colour Blue.
    fn on_blue(self) -> (r: Colored<T>)
        ensures
            r == self.with_bg_spec(Color::Blue),
    {
        self.on_color(Color::Blue)
    }

    /// The value with the background colour Magenta.
    fn on_magenta(self) -> (r: Colored<T>)
        ensures
            r == self.with_bg_spec(Color::Magenta),
    {
        self.on_color(Color::Magenta)
    }

    /// The value with the background colour Magenta.
    fn on_purple(self) -> (r: Colored<T>)
        ensures
            r == self.with_bg_spec(Color::Magenta),
    {
        self.on_color(Color::Magenta)
    }

    /// The value with the background colour Cyan.
    fn on_cyan(self) -> (r: Colored<T>)
        ensures
            r == self.with_bg_spec(Color::Cyan),
    {
        self.on_color(Color::Cyan)
    }

    /// The value with the background colour White.
    fn on_white(self) -> (r: Colored<T>)
        ensures
            r == self.with_bg_spec(Color::White),
    {
        self.on_color(Color::White)
    }

    /// The value with the background colour BrightBlack.
    fn on_bright_black(self) -> (r: Colored<T>)
        ensures
            r == self.with_bg_spec(Color::BrightBlack),
    {
        self.on_color(Color::BrightBlack)
    }

    /// The value with the background colour BrightRed.
    fn on_bright_red(self) -> (r: Colored<T>)
        ensures
            r == self.with_bg_spec(Color::BrightRed),
    {
        self.on_color(Color::BrightRed)
    }

    /// The value with the background colour BrightGreen.
    fn on_bright_green(self) -> (r: Colored<T>)
        ensures
            r == self.with_bg_spec(Color::BrightGreen),
    {
        self.on_color(Color::BrightGreen)
    }

    /// The value with the background colour BrightYellow.
    fn on_bright_yellow(self) -> (r: Colored<T>)
        ensures
            r == self.with_bg_spec(Color::BrightYellow),
    {
        self.on_color(Color::BrightYellow)
    }

    /// The value with the background colour BrightBlue.
    fn on_bright_blue(self) -> (r: Colored<T>)
        ensures
            r == self.with_bg_spec(Color::BrightBlue),
    {
        self.on_color(Color::BrightBlue)
    }

    /// The value with the background colour BrightMagenta.
    fn on_bright_magenta(self) -> (r: Colored<T>)
        ensures
            r == self.with_bg_spec(Color::BrightMagenta),
    {
        self.on_color(Color::BrightMagenta)
    }

    /// The value with the background colour BrightMagenta.
    fn on_bright_purple(self) -> (r: Colored<T>)
        ensures
            r == self.with_bg_spec(Color::BrightMagenta),
    {
        self.on_color(Color::BrightMagenta)
    }

    /// The value with the background colour BrightCyan.
    fn on_bright_cyan(self) -> (r: Colored<T>)
        ensures
            r == self.with_bg_spec(Color::BrightCyan),
    {
        self.on_color(Color::BrightCyan)
    }

    /// The value with the background colour BrightWhite.
    fn on_bright_white(self) -> (r: Colored<T>)
        ensures
            r == self.with_bg_spec(Color::BrightWhite),
    {
        self.on_color(Color::BrightWhite)
    }

    /// The value with the background colour of the given 256-colour table entry.
    fn on_ansi_color(self, color: u8) -> (r: Colored<T>)
        ensures
            r == self.with_bg_spec(Color::Ansi(color)),
    {
        self.on_color(Color::Ansi(color))
    }
}

impl<T> Colorize<T> for Colored<T> {
    open spec fn with_fg_spec(self, color: Color) -> Colored<T> {
        Colored { input: self.input, fgcolor: Some(Foreground(color)), bgcolor: self.bgcolor }
    }

    open spec fn with_bg_spec(self, color: Color) -> Colored<T> {
        Colored { input: self.input, fgcolor: self.fgcolor, bgcolor: Some(Background(color)) }
    }

    fn color(self, color: Color) -> (r: Colored<T>) {
        Colored { input: self.input, fgcolor: Some(Foreground(color)), bgcolor: self.bgcolor }
    }

    fn on_color(self, color: Color) -> (r: Colored<T>) {
        Colored { input: self.input, fgcolor: self.fgcolor, bgcolor: Some(Background(color)) }
    }
}

impl<T> Colorize<T> for T {
    open spec fn with_fg_spec(self, color: Color) -> Colored<T> {
        Colored { input: self, fgcolor: Some(Foreground(color)), bgcolor: None }
    }

    open spec fn with_bg_spec(self, color: Color) -> Colored<T> {
        Colored { input: self, fgcolor: None, bgcolor: Some(Background(color)) }
    }

    fn color(self, color: Color) -> (r: Colored<T>) {
        Colored { input: self, fgcolor: Some(Foreground(color)), bgcolor: None }
    }

    fn on_color(self, color: Color) -> (r: Colored<T>) {
        Colored { input: self, fgcolor: None, bgcolor: Some(Background(color)) }
    }
}

} // verus!
