//! Console log lines: colours and layout.
//!
//! The library writes nothing. It says whether a line is to be printed and
//! what the line is; the caller supplies the time and does the printing.

use vstd::prelude::*;
use vstd::string::StringExecFns;
use crate::shared::text::{decimal_text, integer_text};

verus! {

/// A terminal colour or style, by the escape sequence that selects it.
#[derive(Debug, Clone, Copy, PartialEq, Eq, Structural)]
pub enum Color {
    Reset,
    Black,
    Red,
    Green,
    Yellow,
    Blue,
    Magenta,
    Cyan,
    White,
    BlackBold,
    RedBold,
    GreenBold,
    YellowBold,
    BlueBold,
    MagentaBold,
    CyanBold,
    WhiteBold,
    BlackUnderlined,
    RedUnderlined,
    GreenUnderlined,
    YellowUnderlined,
    BlueUnderlined,
    MagentaUnderlined,
    CyanUnderlined,
    WhiteUnderlined,
    BlackBackground,
    RedBackground,
    GreenBackground,
    YellowBackground,
    BlueBackground,
    MagentaBackground,
    CyanBackground,
    WhiteBackground,
    BlackBright,
    RedBright,
    GreenBright,
    YellowBright,
    BlueBright,
    MagentaBright,
    CyanBright,
    WhiteBright,
    BlackBoldBright,
    RedBoldBright,
    GreenBoldBright,
    YellowBoldBright,
    BlueBoldBright,
    MagentaBoldBright,
    CyanBoldBright,
    WhiteBoldBright,
    BlackBackgroundBright,
    RedBackgroundBright,
    GreenBackgroundBright,
    YellowBackgroundBright,
    BlueBackgroundBright,
    MagentaBackgroundBright,
    CyanBackgroundBright,
    WhiteBackgroundBright,
}

impl Color {
    /// The escape sequence that selects the colour.
    pub open spec fn code_spec(&self) -> Seq<char> {
        match *self {
            Color::Reset => "\x1b[0m"@,
            Color::Black => "\x1b[0;30m"@,
            Color::Red => "\x1b[0;31m"@,
            Color::Green => "\x1b[0;32m"@,
            Color::Yellow => "\x1b[0;33m"@,
            Color::Blue => "\x1b[0;34m"@,
            Color::Magenta => "\x1b[0;35m"@,
            Color::Cyan => "\x1b[0;36m"@,
            Color::White => "\x1b[0;37m"@,
            Color::BlackBold => "\x1b[1;30m"@,
            Color::RedBold => "\x1b[1;31m"@,
            Color::GreenBold => "\x1b[1;32m"@,
            Color::YellowBold => "\x1b[1;33m"@,
            Color::BlueBold => "\x1b[1;34m"@,
            Color::MagentaBold => "\x1b[1;35m"@,
            Color::CyanBold => "\x1b[1;36m"@,
            Color::WhiteBold => "\x1b[1;37m"@,
            Color::BlackUnderlined => "\x1b[4;30m"@,
            Color::RedUnderlined => "\x1b[4;31m"@,
            Color::GreenUnderlined => "\x1b[4;32m"@,
            Color::YellowUnderlined => "\x1b[4;33m"@,
            Color::BlueUnderlined => "\x1b[4;34m"@,
            Color::MagentaUnderlined => "\x1b[4;35m"@,
            Color::CyanUnderlined => "\x1b[4;36m"@,
            Color::WhiteUnderlined => "\x1b[4;37m"@,
            Color::BlackBackground => "\x1b[40m"@,
            Color::RedBackground => "\x1b[41m"@,
            Color::GreenBackground => "\x1b[42m"@,
            Color::YellowBackground => "\x1b[43m"@,
            Color::BlueBackground => "\x1b[44m"@,
            Color::MagentaBackground => "\x1b[45m"@,
            Color::CyanBackground => "\x1b[46m"@,
            Color::WhiteBackground => "\x1b[47m"@,
            Color::BlackBright => "\x1b[0;90m"@,
            Color::RedBright => "\x1b[0;91m"@,
            Color::GreenBright => "\x1b[0;92m"@,
            Color::YellowBright => "\x1b[0;93m"@,
            Color::BlueBright => "\x1b[0;94m"@,
            Color::MagentaBright => "\x1b[0;95m"@,
            Color::CyanBright => "\x1b[0;96m"@,
            Color::WhiteBright => "\x1b[0;97m"@,
            Color::BlackBoldBright => "\x1b[1;90m"@,
            Color::RedBoldBright => "\x1b[1;91m"@,
            Color::GreenBoldBright => "\x1b[1;92m"@,
            Color::YellowBoldBright => "\x1b[1;93m"@,
            Color::BlueBoldBright => "\x1b[1;94m"@,
            Color::MagentaBoldBright => "\x1b[1;95m"@,
            Color::CyanBoldBright => "\x1b[1;96m"@,
            Color::WhiteBoldBright => "\x1b[1;97m"@,
            Color::BlackBackgroundBright => "\x1b[0;100m"@,
            Color::RedBackgroundBright => "\x1b[0;101m"@,
            Color::GreenBackgroundBright => "\x1b[0;102m"@,
            Color::YellowBackgroundBright => "\x1b[0;103m"@,
            Color::BlueBackgroundBright => "\x1b[0;104m"@,
            Color::MagentaBackgroundBright => "\x1b[0;105m"@,
            Color::CyanBackgroundBright => "\x1b[0;106m"@,
            Color::WhiteBackgroundBright => "\x1b[0;107m"@,
        }
    }

    /// The escape sequence that selects the colour.
    pub fn code(&self) -> (code: &'static str)
        ensures
            code@ == self.code_spec(),
    {
        match self {
            Color::Reset => "\x1b[0m",
            Color::Black => "\x1b[0;30m",
            Color::Red => "\x1b[0;31m",
            Color::Green => "\x1b[0;32m",
            Color::Yellow => "\x1b[0;33m",
            Color::Blue => "\x1b[0;34m",
            Color::Magenta => "\x1b[0;35m",
            Color::Cyan => "\x1b[0;36m",
            Color::White => "\x1b[0;37m",
            Color::BlackBold => "\x1b[1;30m",
            Color::RedBold => "\x1b[1;31m",
            Color::GreenBold => "\x1b[1;32m",
            Color::YellowBold => "\x1b[1;33m",
            Color::BlueBold => "\x1b[1;34m",
            Color::MagentaBold => "\x1b[1;35m",
            Color::CyanBold => "\x1b[1;36m",
            Color::WhiteBold => "\x1b[1;37m",
            Color::BlackUnderlined => "\x1b[4;30m",
            Color::RedUnderlined => "\x1b[4;31m",
            Color::GreenUnderlined => "\x1b[4;32m",
            Color::YellowUnderlined => "\x1b[4;33m",
            Color::BlueUnderlined => "\x1b[4;34m",
            Color::MagentaUnderlined => "\x1b[4;35m",
            Color::CyanUnderlined => "\x1b[4;36m",
            Color::WhiteUnderlined => "\x1b[4;37m",
            Color::BlackBackground => "\x1b[40m",
            Color::RedBackground => "\x1b[41m",
            Color::GreenBackground => "\x1b[42m",
            Color::YellowBackground => "\x1b[43m",
            Color::BlueBackground => "\x1b[44m",
            Color::MagentaBackground => "\x1b[45m",
            Color::CyanBackground => "\x1b[46m",
            Color::WhiteBackground => "\x1b[47m",
            Color::BlackBright => "\x1b[0;90m",
            Color::RedBright => "\x1b[0;91m",
            Color::GreenBright => "\x1b[0;92m",
            Color::YellowBright => "\x1b[0;93m",
            Color::BlueBright => "\x1b[0;94m",
            Color::MagentaBright => "\x1b[0;95m",
            Color::CyanBright => "\x1b[0;96m",
            Color::WhiteBright => "\x1b[0;97m",
            Color::BlackBoldBright => "\x1b[1;90m",
            Color::RedBoldBright => "\x1b[1;91m",
            Color::GreenBoldBright => "\x1b[1;92m",
            Color::YellowBoldBright => "\x1b[1;93m",
            Color::BlueBoldBright => "\x1b[1;94m",
            Color::MagentaBoldBright => "\x1b[1;95m",
            Color::CyanBoldBright => "\x1b[1;96m",
            Color::WhiteBoldBright => "\x1b[1;97m",
            Color::BlackBackgroundBright => "\x1b[0;100m",
            Color::RedBackgroundBright => "\x1b[0;101m",
            Color::GreenBackgroundBright => "\x1b[0;102m",
            Color::YellowBackgroundBright => "\x1b[0;103m",
            Color::BlueBackgroundBright => "\x1b[0;104m",
            Color::MagentaBackgroundBright => "\x1b[0;105m",
            Color::CyanBackgroundBright => "\x1b[0;106m",
            Color::WhiteBackgroundBright => "\x1b[0;107m",
        }
    }

    /// The escape sequence that selects the colour, as an owned text.
    pub fn to_string(&self) -> (text: String)
        ensures
            text@ == self.code_spec(),
    {
        String::from_str(self.code())
    }
}

/// Whether console lines are printed. Production deployments print none.
#[derive(Debug, Clone, Copy, PartialEq, Eq, Structural)]
pub struct Logger {
    pub print_info: bool,
}

/// A console line: the colour, the time, a space, the message, and the
/// sequence that resets the colour.
pub open spec fn line(color: Color, now: Seq<char>, message: Seq<char>) -> Seq<char> {
    color.code_spec() + now + " "@ + message + Color::Reset.code_spec()
}

/// What a logger prints for `message` in `color` at the time `now`: the
/// line, or nothing where printing is switched off.
pub open spec fn printed(logger: Logger, color: Color, now: Seq<char>, message: Seq<char>)
    -> Option<Seq<char>> {
    if logger.print_info {
        Some(line(color, now, message))
    } else {
        None
    }
}

/// The line to print for `message` in `color`, if any.
pub fn format_print(logger: &Logger, color: Color, now: &str, message: &str) -> (r: Option<String>)
    ensures
        r.deep_view() == printed(*logger, color, now@, message@),
{
    if logger.print_info {
        let mut text = String::from_str(color.code());
        text.append(now);
        text.append(" ");
        text.append(message);
        text.append(Color::Reset.code());
        Some(text)
    } else {
        None
    }
}

/// The line to print for a plain message.
pub fn info(logger: &Logger, now: &str, message: &str) -> (r: Option<String>)
    ensures
        r.deep_view() == printed(*logger, Color::WhiteBold, now@, message@),
{
    format_print(logger, Color::WhiteBold, now, message)
}

/// The line to print for a message that announces something.
pub fn info2(logger: &Logger, now: &str, message: &str) -> (r: Option<String>)
    ensures
        r.deep_view() == printed(*logger, Color::YellowBold, now@, message@),
{
    format_print(logger, Color::YellowBold, now, message)
}

/// The line to print for a warning.
pub fn warning(logger: &Logger, now: &str, message: &str) -> (r: Option<String>)
    ensures
        r.deep_view() == printed(*logger, Color::MagentaBold, now@, message@),
{
    format_print(logger, Color::MagentaBold, now, message)
}

/// The line to print for a failure.
pub fn error(logger: &Logger, now: &str, message: &str) -> (r: Option<String>)
    ensures
        r.deep_view() == printed(*logger, Color::RedBold, now@, message@),
{
    format_print(logger, Color::RedBold, now, message)
}

/// The line to print for a success.
pub fn success(logger: &Logger, now: &str, message: &str) -> (r: Option<String>)
    ensures
        r.deep_view() == printed(*logger, Color::GreenBold, now@, message@),
{
    format_print(logger, Color::GreenBold, now, message)
}

/// The line to print for a message that helps debugging.
pub fn debug(logger: &Logger, now: &str, message: &str) -> (r: Option<String>)
    ensures
        r.deep_view() == printed(*logger, Color::CyanBold, now@, message@),
{
    format_print(logger, Color::CyanBold, now, message)
}

/// Switches printing on or off.
pub fn set_print_info(logger: &mut Logger, enabled: bool)
    ensures
        final(logger).print_info == enabled,
{
    logger.print_info = enabled;
}

/// The logger of a deployment: it prints unless the deployment is a
/// production one.
pub fn init_from_config(is_prod: bool) -> (logger: Logger)
    ensures
        logger.print_info == !is_prod,
{
    let mut logger = Logger { print_info: true };
    set_print_info(&mut logger, !is_prod);
    logger
}

/// The text of a timed line: the message and the milliseconds that went by.
pub open spec fn timed(message: Seq<char>, elapsed: int) -> Seq<char> {
    message + " millis: "@ + decimal_text(elapsed)
}

/// A message with more said after it.
pub open spec fn extended(message: Seq<char>, more: Seq<char>) -> Seq<char> {
    message + " "@ + more
}

/// Times one piece of work: when it began, in milliseconds since the epoch,
/// and what it is.
#[derive(Debug, Clone, PartialEq, Eq)]
pub struct TimePrinter {
    pub start_millis: i64,
    pub message: String,
}

impl TimePrinter {
    /// A timer without a message that starts at `now_millis`.
    pub fn new(now_millis: i64) -> (timer: Self)
        ensures
            timer.start_millis == now_millis,
            timer.message@ == Seq::<char>::empty(),
    {
        TimePrinter { start_millis: now_millis, message: String::new() }
    }

    /// A timer that starts at `now_millis`, and the line that announces the
    /// work.
    pub fn with_message(logger: &Logger, now: &str, now_millis: i64, message: &str) -> (r: (
        Self,
        Option<String>,
    ))
        ensures
            r.0.start_millis == now_millis,
            r.0.message@ == message@,
            r.1.deep_view() == printed(*logger, Color::YellowBold, now@, message@),
    {
        let announcement = info2(logger, now, message);
        (TimePrinter { start_millis: now_millis, message: message.to_string() }, announcement)
    }

    /// The line that says how long the work has taken at `now_millis`, with
    /// the timer's own message or with `custom_message`.
    pub fn print_internal(
        &self,
        logger: &Logger,
        color: Color,
        now: &str,
        now_millis: i64,
        custom_message: Option<&str>,
    ) -> (r: Option<String>)
        ensures
            r.deep_view() == printed(
                *logger,
                color,
                now@,
                timed(
                    match custom_message {
                        Some(custom) => custom@,
                        None => self.message@,
                    },
                    now_millis - self.start_millis,
                ),
            ),
    {
        if !logger.print_info {
            return None;
        }
        let elapsed: i128 = now_millis as i128 - self.start_millis as i128;
        let mut text = match custom_message {
            Some(custom) => custom.to_string(),
            None => self.message.clone(),
        };
        text.append(" millis: ");
        text.append(integer_text(elapsed).as_str());
        format_print(logger, color, now, text.as_str())
    }

    /// The timer's message with `message` after it.
    fn extended(&self, message: &str) -> (text: String)
        ensures
            text@ == extended(self.message@, message@),
    {
        let mut text = self.message.clone();
        text.append(" ");
        text.append(message);
        text
    }

    /// The timed line, plainly.
    pub fn print(&self, logger: &Logger, now: &str, now_millis: i64) -> (r: Option<String>)
        ensures
            r.deep_view() == printed(
                *logger,
                Color::WhiteBold,
                now@,
                timed(self.message@, now_millis - self.start_millis),
            ),
    {
        self.print_internal(logger, Color::WhiteBold, now, now_millis, None)
    }

    /// The timed line of work that went well.
    pub fn log(&self, logger: &Logger, now: &str, now_millis: i64) -> (r: Option<String>)
        ensures
            r.deep_view() == printed(
                *logger,
                Color::GreenBold,
                now@,
                timed(self.message@, now_millis - self.start_millis),
            ),
    {
        self.print_internal(logger, Color::GreenBold, now, now_millis, None)
    }

    /// The timed line of work worth noting.
    pub fn info(&self, logger: &Logger, now: &str, now_millis: i64) -> (r: Option<String>)
        ensures
            r.deep_view() == printed(
                *logger,
                Color::YellowBold,
                now@,
                timed(self.message@, now_millis - self.start_millis),
            ),
    {
        self.print_internal(logger, Color::YellowBold, now, now_millis, None)
    }

    /// The timed line of work that found nothing.
    pub fn warning(&self, logger: &Logger, now: &str, now_millis: i64) -> (r: Option<String>)
        ensures
            r.deep_view() == printed(
                *logger,
                Color::MagentaBold,
                now@,
                timed(self.message@, now_millis - self.start_millis),
            ),
    {
        self.print_internal(logger, Color::MagentaBold, now, now_millis, None)
    }

    /// The timed line of work that failed.
    pub fn error(&self, logger: &Logger, now: &str, now_millis: i64) -> (r: Option<String>)
        ensures
            r.deep_view() == printed(
                *logger,
                Color::RedBold,
                now@,
                timed(self.message@, now_millis - self.start_millis),
            ),
    {
        self.print_internal(logger, Color::RedBold, now, now_millis, None)
    }

    /// The timed line, plainly, with `message` after the timer's own.
    pub fn print_with_message(&self, logger: &Logger, now: &str, now_millis: i64, message: &str) -> (r:
        Option<String>)
        ensures
            r.deep_view() == printed(
                *logger,
                Color::WhiteBold,
                now@,
                timed(extended(self.message@, message@), now_millis - self.start_millis),
            ),
    {
        let text = self.extended(message);
        self.print_internal(logger, Color::WhiteBold, now, now_millis, Some(text.as_str()))
    }

    /// The timed line of work that went well, with `message` after the
    /// timer's own.
    pub fn log_with_message(&self, logger: &Logger, now: &str, now_millis: i64, message: &str) -> (r:
        Option<String>)
        ensures
            r.deep_view() == printed(
                *logger,
                Color::GreenBold,
                now@,
                timed(extended(self.message@, message@), now_millis - self.start_millis),
            ),
    {
        let text = self.extended(message);
        self.print_internal(logger, Color::GreenBold, now, now_millis, Some(text.as_str()))
    }

    /// The timed line of work worth noting, with `message` after the
    /// timer's own.
    pub fn info_with_message(&self, logger: &Logger, now: &str, now_millis: i64, message: &str) -> (r:
        Option<String>)
        ensures
            r.deep_view() == printed(
                *logger,
                Color::YellowBold,
                now@,
                timed(extended(self.message@, message@), now_millis - self.start_millis),
            ),
    {
        let text = self.extended(message);
        self.print_internal(logger, Color::YellowBold, now, now_millis, Some(text.as_str()))
    }

    /// The timed line of work that found nothing, with `message` after the
    /// timer's own.
    pub fn warning_with_message(
        &self,
        logger: &Logger,
        now: &str,
        now_millis: i64,
        message: &str,
    ) -> (r: Option<String>)
        ensures
            r.deep_view() == printed(
                *logger,
                Color::MagentaBold,
                now@,
                timed(extended(self.message@, message@), now_millis - self.start_millis),
            ),
    {
        let text = self.extended(message);
        self.print_internal(logger, Color::MagentaBold, now, now_millis, Some(text.as_str()))
    }

    /// The timed line of work that failed, with `message` after the timer's
    /// own.
    pub fn error_with_message(&self, logger: &Logger, now: &str, now_millis: i64, message: &str) -> (r:
        Option<String>)
        ensures
            r.deep_view() == printed(
                *logger,
                Color::RedBold,
                now@,
                timed(extended(self.message@, message@), now_millis - self.start_millis),
            ),
    {
        let text = self.extended(message);
        self.print_internal(logger, Color::RedBold, now, now_millis, Some(text.as_str()))
    }
}

/// The colour of the line that reports a response, by the class of its
/// status: green for success, white for a redirect, magenta for a client's
/// mistake, red for a failure of the server, cyan for anything else.
pub open spec fn status_color_spec(status: u16) -> Color {
    if 200 <= status <= 299 {
        Color::GreenBold
    } else if 300 <= status <= 399 {
        Color::WhiteBold
    } else if 400 <= status <= 499 {
        Color::MagentaBold
    } else if 500 <= status <= 599 {
        Color::RedBold
    } else {
        Color::CyanBold
    }
}

/// The colour of the line that reports a response with `status`.
pub fn status_color(status: u16) -> (color: Color)
    ensures
        color == status_color_spec(status),
{
    if 200 <= status && status <= 299 {
        Color::GreenBold
    } else if 300 <= status && status <= 399 {
        Color::WhiteBold
    } else if 400 <= status && status <= 499 {
        Color::MagentaBold
    } else if 500 <= status && status <= 599 {
        Color::RedBold
    } else {
        Color::CyanBold
    }
}

/// What is said of a request: the method in brackets and the address.
pub open spec fn request_text(method: Seq<char>, uri: Seq<char>) -> Seq<char> {
    "[HTTP] ["@ + method + "] "@ + uri
}

/// What is said of a response: the request, and the milliseconds it took.
pub open spec fn response_text(method: Seq<char>, uri: Seq<char>, millis: u64) -> Seq<char> {
    request_text(method, uri) + " - "@ + decimal_text(millis as int) + "ms"@
}

/// The line that announces a request.
pub fn request_line(logger: &Logger, now: &str, method: &str, uri: &str) -> (r: Option<String>)
    ensures
        r.deep_view() == printed(*logger, Color::YellowBold, now@, request_text(method@, uri@)),
{
    let mut text = String::from_str("[HTTP] [");
    text.append(method);
    text.append("] ");
    text.append(uri);
    info2(logger, now, text.as_str())
}

/// The line that reports a response, in the colour of its status.
pub fn response_line(
    logger: &Logger,
    now: &str,
    method: &str,
    uri: &str,
    status: u16,
    millis: u64,
) -> (r: Option<String>)
    ensures
        r.deep_view() == printed(
            *logger,
            status_color_spec(status),
            now@,
            response_text(method@, uri@, millis),
        ),
{
    let mut text = String::from_str("[HTTP] [");
    text.append(method);
    text.append("] ");
    text.append(uri);
    text.append(" - ");
    text.append(integer_text(millis as i128).as_str());
    text.append("ms");
    format_print(logger, status_color(status), now, text.as_str())
}

} // verus!
