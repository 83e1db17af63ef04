//! What a console or another front end offers the game: writing a line,
//! reading a line, and reading a number.

use vstd::prelude::*;

verus! {

pub trait IoAdapter {
    fn write(&self, text: &str);

    fn read_text(&self) -> String;

    fn read_number(&self) -> u8;
}

} // verus!
