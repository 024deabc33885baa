//! Helpers for command-line programs: prompts that read and parse a reply, spinners and a
//! progress bar shown while a task runs, and menus driven by the arrow keys.
//!
//! The library decides and draws; every frame, row and prompt it writes is stated exactly in
//! its contracts, down to the control sequences.
use vstd::prelude::*;

pub mod error;
pub mod glyph;
pub mod menu;
pub mod progress;
pub mod prompt;
pub mod spinner;
pub mod style;

pub use error::{Error, Result};
pub use menu::{MenuKey, MultiMenu, SelectMenu};

verus! {

/// An input to read the user's replies from and an output to draw on.
pub struct Clytia<I, O> {
    input: I,
    output: O,
}

impl<I, O> Clytia<I, O> {
    /// The input held.
    pub closed spec fn input_spec(&self) -> I {
        self.input
    }

    /// The output held.
    pub closed spec fn output_spec(&self) -> O {
        self.output
    }

    /// Bind a reader and a writer.
    pub fn new(input: I, output: O) -> (r: Self)
        ensures
            r.input_spec() == input,
            r.output_spec() == output,
    {
        Clytia { input, output }
    }

    /// The input.
    pub fn input(&self) -> (r: &I)
        ensures
            *r == self.input_spec(),
    {
        &self.input
    }

    /// The output.
    pub fn output(&self) -> (r: &O)
        ensures
            *r == self.output_spec(),
    {
        &self.output
    }

    /// The input, to change in place.
    pub fn input_mut(&mut self) -> (r: &mut I)
        ensures
            *r == old(self).input_spec(),
            final(self).input_spec() == *final(r),
            final(self).output_spec() == old(self).output_spec(),
    {
        &mut self.input
    }

    /// The output, to change in place.
    pub fn output_mut(&mut self) -> (r: &mut O)
        ensures
            *r == old(self).output_spec(),
            final(self).output_spec() == *final(r),
            final(self).input_spec() == old(self).input_spec(),
    {
        &mut self.output
    }

    /// The input and the output at once, to read from one while writing to the other.
    pub fn streams_mut(&mut self) -> (r: (&mut I, &mut O))
        ensures
            *r.0 == old(self).input_spec(),
            *r.1 == old(self).output_spec(),
            final(self).input_spec() == *final(r.0),
            final(self).output_spec() == *final(r.1),
    {
        (&mut self.input, &mut self.output)
    }
}

impl<I: std::io::Read, O: std::io::Write> Clytia<I, O> {
    /// Ask for a value: show the prompt (and the default, when there is one), read a line and
    /// answer as [`prompt::resolve_line`] does. With a default, a blank line is never an error.
    pub fn parsed_input<S, T>(&mut self, prompt: S, default: Option<T>) -> (r: Result<T>)
        where
            S: core::fmt::Display,
            T: core::str::FromStr + core::fmt::Display,
        ensures
            (r matches Err(Error::Io(_))) || exists|line: Option<String>|
                prompt::answers(line, default, r),
            !(r matches Err(Error::InvalidOptionSet)),
            default is Some ==> !(r matches Err(Error::NonOptionalInput)),
            r matches Err(Error::ParseError(t)) ==> t@.len() > 0,
    {
        let shown = prompt.to_string();
        let text = match &default {
            Some(d) => prompt::default_prompt(shown.as_str(), d.to_string().as_str()),
            None => prompt::plain_prompt(shown.as_str()),
        };
        if let Err(e) = prompt::write_text(&mut self.output, text.as_str()) {
            return Err(Error::Io(e));
        }
        if let Err(e) = prompt::flush_output(&mut self.output) {
            return Err(Error::Io(e));
        }
        match prompt::read_reply(&mut self.input) {
            Err(e) => Err(Error::Io(e)),
            Ok(line) => prompt::resolve_line(line, default),
        }
    }
}

} // verus!
