//! What can go wrong while the launcher sets up its window and draws, and
//! the messages that say so.

use vstd::prelude::*;
use vstd::std_specs::convert::FromSpecImpl;
use vstd::string::StringExecFns;

verus! {

/// A part of the windowing system that has to be initialised.
#[derive(Debug, Clone, Copy)]
pub enum Subsystem {
    Core,
    Video,
    EventPump,
    Ttf,
}

impl Subsystem {
    /// The name by which messages call the subsystem.
    pub open spec fn text(self) -> Seq<char> {
        match self {
            Subsystem::Core => "core"@,
            Subsystem::Video => "video"@,
            Subsystem::EventPump => "event pump"@,
            Subsystem::Ttf => "ttf"@,
        }
    }

    pub fn name(self) -> (name: &'static str)
        ensures
            name@ == self.text(),
    {
        match self {
            Subsystem::Core => "core",
            Subsystem::Video => "video",
            Subsystem::EventPump => "event pump",
            Subsystem::Ttf => "ttf",
        }
    }
}

/// A kind of file that is loaded at start.
#[derive(Debug, Clone, Copy)]
pub enum AssetKind {
    Font,
    Image,
}

impl AssetKind {
    /// The name by which messages call the kind.
    pub open spec fn text(self) -> Seq<char> {
        match self {
            AssetKind::Font => "font"@,
            AssetKind::Image => "image"@,
        }
    }

    pub fn name(self) -> (name: &'static str)
        ensures
            name@ == self.text(),
    {
        match self {
            AssetKind::Font => "font",
            AssetKind::Image => "image",
        }
    }
}

/// The one decimal digit `digit`, as text.
pub open spec fn digit_text(digit: nat) -> Seq<char> {
    if digit == 0 {
        "0"@
    } else if digit == 1 {
        "1"@
    } else if digit == 2 {
        "2"@
    } else if digit == 3 {
        "3"@
    } else if digit == 4 {
        "4"@
    } else if digit == 5 {
        "5"@
    } else if digit == 6 {
        "6"@
    } else if digit == 7 {
        "7"@
    } else if digit == 8 {
        "8"@
    } else {
        "9"@
    }
}

/// `number` in decimal, without leading zeros.
pub open spec fn decimal_text(number: nat) -> Seq<char>
    decreases number,
{
    if number < 10 {
        digit_text(number)
    } else {
        decimal_text(number / 10) + digit_text(number % 10)
    }
}

fn digit(value: u32) -> (text: &'static str)
    requires
        value < 10,
    ensures
        text@ == digit_text(value as nat),
{
    if value == 0 {
        "0"
    } else if value == 1 {
        "1"
    } else if value == 2 {
        "2"
    } else if value == 3 {
        "3"
    } else if value == 4 {
        "4"
    } else if value == 5 {
        "5"
    } else if value == 6 {
        "6"
    } else if value == 7 {
        "7"
    } else if value == 8 {
        "8"
    } else {
        "9"
    }
}

/// Writes `number` in decimal.
pub fn decimal(number: u32) -> (text: String)
    ensures
        text@ == decimal_text(number as nat),
    decreases number,
{
    if number < 10 {
        String::from_str(digit(number))
    } else {
        decimal(number / 10).concat(digit(number % 10))
    }
}

/// A failure of the windowing system, reduced to its message.
#[derive(Debug)]
pub struct ReducedSdlError {
    content: String,
}

impl View for ReducedSdlError {
    type V = Seq<char>;

    /// The message.
    closed spec fn view(&self) -> Seq<char> {
        self.content@
    }
}

impl From<String> for ReducedSdlError {
    fn from(value: String) -> (error: Self) {
        ReducedSdlError { content: value }
    }
}

impl FromSpecImpl<String> for ReducedSdlError {
    open spec fn obeys_from_spec() -> bool {
        true
    }

    closed spec fn from_spec(value: String) -> Self {
        ReducedSdlError { content: value }
    }
}

impl ReducedSdlError {
    /// The message of a window title that could not be used.
    pub open spec fn invalid_title_text(reason: Seq<char>) -> Seq<char> {
        "invalid window title ("@ + reason + ")"@
    }

    /// The message of a window height that is too large.
    pub open spec fn height_overflows_text(height: nat) -> Seq<char> {
        "height too large ("@ + decimal_text(height) + ")"@
    }

    /// The message of a window width that is too large.
    pub open spec fn width_overflows_text(width: nat) -> Seq<char> {
        "width too large ("@ + decimal_text(width) + ")"@
    }

    /// The message of a number that does not fit where it is needed.
    pub open spec fn integer_overflows_text(reason: Seq<char>, value: nat) -> Seq<char> {
        "value overflowed ("@ + decimal_text(value) + "): "@ + reason
    }

    /// The error with `message` as its message.
    pub fn new(message: String) -> (error: Self)
        ensures
            error@ == message@,
    {
        ReducedSdlError { content: message }
    }

    /// A window title could not be used, for `reason`.
    pub fn invalid_title(reason: &str) -> (error: Self)
        ensures
            error@ == Self::invalid_title_text(reason@),
    {
        Self::new(String::from_str("invalid window title (").concat(reason).concat(")"))
    }

    /// A window of height `height` was asked for.
    pub fn height_overflows(height: u32) -> (error: Self)
        ensures
            error@ == Self::height_overflows_text(height as nat),
    {
        let number = decimal(height);
        Self::new(String::from_str("height too large (").concat(number.as_str()).concat(")"))
    }

    /// A window of width `width` was asked for.
    pub fn width_overflows(width: u32) -> (error: Self)
        ensures
            error@ == Self::width_overflows_text(width as nat),
    {
        let number = decimal(width);
        Self::new(String::from_str("width too large (").concat(number.as_str()).concat(")"))
    }

    /// `value` does not fit where it is needed, for `reason`.
    pub fn integer_overflows(reason: &str, value: u32) -> (error: Self)
        ensures
            error@ == Self::integer_overflows_text(reason@, value as nat),
    {
        let number = decimal(value);
        Self::new(
            String::from_str("value overflowed (").concat(number.as_str()).concat("): ").concat(
                reason,
            ),
        )
    }

    /// The message.
    pub fn message(&self) -> (message: &str)
        ensures
            message@ == self@,
    {
        self.content.as_str()
    }
}

/// What went wrong.
#[derive(Debug)]
pub enum Error {
    SystemInit { subsystem: Subsystem, explanation: String },
    WindowInit(ReducedSdlError),
    Draw(String),
    AssetLoad { kind: AssetKind, explanation: String },
}

pub type Result<T> = std::result::Result<T, Error>;

impl Error {
    /// The message that reports the error.
    pub open spec fn text(self) -> Seq<char> {
        match self {
            Error::SystemInit { subsystem, explanation } => "Failed to initialize SDL feature '"@
                + subsystem.text() + "'. SDL provided an explanation: "@ + explanation@,
            Error::WindowInit(reduced) => "Failed to initialize the SDL window: "@ + reduced@,
            Error::Draw(explanation) => "Error while drawing: "@ + explanation@,
            Error::AssetLoad { kind, explanation } => "Failed to load asset of type '"@
                + kind.text() + "'. SDL provided an explanation: "@ + explanation@,
        }
    }

    pub fn message(&self) -> (message: String)
        ensures
            message@ == self.text(),
    {
        match self {
            Error::SystemInit { subsystem, explanation } => String::from_str(
                "Failed to initialize SDL feature '",
            ).concat(subsystem.name()).concat("'. SDL provided an explanation: ").concat(
                explanation.as_str(),
            ),
            Error::WindowInit(reduced) => String::from_str(
                "Failed to initialize the SDL window: ",
            ).concat(reduced.message()),
            Error::Draw(explanation) => String::from_str("Error while drawing: ").concat(
                explanation.as_str(),
            ),
            Error::AssetLoad { kind, explanation } => String::from_str(
                "Failed to load asset of type '",
            ).concat(kind.name()).concat("'. SDL provided an explanation: ").concat(
                explanation.as_str(),
            ),
        }
    }
}

pub fn system_ttf(explanation: String) -> (error: Error)
    ensures
        error == (Error::SystemInit { subsystem: Subsystem::Ttf, explanation }),
{
    Error::SystemInit { subsystem: Subsystem::Ttf, explanation }
}

pub fn system_video(explanation: String) -> (error: Error)
    ensures
        error == (Error::SystemInit { subsystem: Subsystem::Video, explanation }),
{
    Error::SystemInit { subsystem: Subsystem::Video, explanation }
}

pub fn system_core(explanation: String) -> (error: Error)
    ensures
        error == (Error::SystemInit { subsystem: Subsystem::Core, explanation }),
{
    Error::SystemInit { subsystem: Subsystem::Core, explanation }
}

pub fn system_event_pump(explanation: String) -> (error: Error)
    ensures
        error == (Error::SystemInit { subsystem: Subsystem::EventPump, explanation }),
{
    Error::SystemInit { subsystem: Subsystem::EventPump, explanation }
}

pub fn asset_font(explanation: String) -> (error: Error)
    ensures
        error == (Error::AssetLoad { kind: AssetKind::Font, explanation }),
{
    Error::AssetLoad { kind: AssetKind::Font, explanation }
}

pub fn window_init(inner: ReducedSdlError) -> (error: Error)
    ensures
        error == Error::WindowInit(inner),
{
    Error::WindowInit(inner)
}

pub fn draw(inner: String) -> (error: Error)
    ensures
        error == Error::Draw(inner),
{
    Error::Draw(inner)
}

} // verus!
