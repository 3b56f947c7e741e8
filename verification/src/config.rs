//! What the launcher is configured with: its commands and its colours.

use crate::fuzzer::Fuzzable;
use vstd::prelude::*;

verus! {

/// A command that can be searched for by its name.
pub struct Command {
    name: String,
    description: String,
}

impl Command {
    /// The command's name.
    pub closed spec fn name_text(&self) -> Seq<char> {
        self.name@
    }

    /// The command's description.
    pub closed spec fn description_text(&self) -> Seq<char> {
        self.description@
    }

    pub fn new(name: String, description: String) -> (command: Command)
        ensures
            command.name_text() == name@,
            command.description_text() == description@,
    {
        Command { name, description }
    }

    pub fn name(&self) -> (name: &str)
        ensures
            name@ == self.name_text(),
    {
        self.name.as_str()
    }

    pub fn description(&self) -> (description: &str)
        ensures
            description@ == self.description_text(),
    {
        self.description.as_str()
    }
}

impl Fuzzable for Command {
    /// A command is matched by its name.
    closed spec fn pattern_text(&self) -> Seq<char> {
        self.name@
    }

    fn pattern(&self) -> (text: String)
        ensures
            text@ == self.name_text(),
    {
        self.name.clone()
    }
}

/// A colour, by its red, green and blue parts.
#[derive(Debug, Clone, Copy)]
pub struct Rgb {
    red: u8,
    green: u8,
    blue: u8,
}

impl View for Rgb {
    type V = (u8, u8, u8);

    /// The red, green and blue parts, in that order.
    closed spec fn view(&self) -> (u8, u8, u8) {
        (self.red, self.green, self.blue)
    }
}

impl Rgb {
    pub fn white() -> (colour: Rgb)
        ensures
            colour@ == (255u8, 255u8, 255u8),
    {
        Rgb::new(u8::MAX, u8::MAX, u8::MAX)
    }

    pub fn black() -> (colour: Rgb)
        ensures
            colour@ == (0u8, 0u8, 0u8),
    {
        Rgb::new(u8::MIN, u8::MIN, u8::MIN)
    }

    pub fn almost_white() -> (colour: Rgb)
        ensures
            colour@ == (210u8, 210u8, 210u8),
    {
        Rgb::new(210, 210, 210)
    }

    pub fn almost_black() -> (colour: Rgb)
        ensures
            colour@ == (46u8, 46u8, 46u8),
    {
        Rgb::new(46, 46, 46)
    }

    pub fn new(red: u8, green: u8, blue: u8) -> (colour: Rgb)
        ensures
            colour@ == (red, green, blue),
    {
        Rgb { red, green, blue }
    }

    pub fn red(self) -> (part: u8)
        ensures
            part == self@.0,
    {
        self.red
    }

    pub fn green(self) -> (part: u8)
        ensures
            part == self@.1,
    {
        self.green
    }

    pub fn blue(self) -> (part: u8)
        ensures
            part == self@.2,
    {
        self.blue
    }
}

} // verus!
