//! The cursor record that is kept between runs.

use vstd::prelude::*;
use vstd::string::*;

verus! {

/// What is kept on disk: the position after the entry read last.
#[derive(Debug, Clone)]
pub struct State {
    pub cursor: String,
}

/// The cursor record together with the file it lives in.
#[derive(Debug)]
pub struct Statefile {
    filename: String,
    state: State,
}

impl Default for Statefile {
    /// No file name and no cursor.
    fn default() -> (made: Self)
        ensures
            made.filename() == Seq::<char>::empty(),
            made.cursor() == Seq::<char>::empty(),
    {
        Statefile { filename: String::new(), state: State { cursor: String::new() } }
    }
}

impl Statefile {
    /// Name of the file that holds the record.
    pub closed spec fn filename(&self) -> Seq<char> {
        self.filename@
    }

    /// The cursor as it stands.
    pub closed spec fn cursor(&self) -> Seq<char> {
        self.state.cursor@
    }

    /// Builds the record from what reading `filename` gave: the stored
    /// cursor, or `None` where the file was missing or could not be parsed.
    ///
    /// The second result says that the file has to be created before the
    /// record is used; the record then starts without a cursor.
    pub fn load(filename: &str, stored: Option<String>) -> (loaded: (Statefile, bool))
        ensures
            loaded.0.filename() == filename@,
            loaded.0.cursor() == match stored {
                Some(cursor) => cursor@,
                None => Seq::<char>::empty(),
            },
            loaded.1 == (stored is None),
    {
        match stored {
            Some(cursor) => (Statefile { filename: filename.to_owned(), state: State { cursor } }, false),
            None => (
                Statefile { filename: filename.to_owned(), state: State { cursor: String::new() } },
                true,
            ),
        }
    }

    /// Replaces the cursor; the file name stays.
    pub fn update_cursor(&mut self, new_cursor: &str)
        ensures
            final(self).cursor() == new_cursor@,
            final(self).filename() == old(self).filename(),
    {
        self.state.cursor = new_cursor.to_owned();
    }

    /// The cursor as it stands; empty where none was stored, which means
    /// that the journal is read from the configured time span instead.
    pub fn get_cursor(&self) -> (cursor: &str)
        ensures
            cursor@ == self.cursor(),
    {
        self.state.cursor.as_str()
    }

    /// The file that the record is written to.
    pub fn get_filename(&self) -> (filename: &str)
        ensures
            filename@ == self.filename(),
    {
        self.filename.as_str()
    }

    /// The record as it goes to disk.
    pub fn get_state(&self) -> (state: &State)
        ensures
            state.cursor@ == self.cursor(),
    {
        &self.state
    }
}

} // verus!
