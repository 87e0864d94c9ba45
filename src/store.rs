use vstd::prelude::*;

verus! {

/// The text that a load returns when no document has been saved yet: a JSON
/// `null`, so that a reader treats "nothing saved" as "saved null".
pub open spec fn missing_sentinel() -> Seq<char> {
    "null"@
}

/// The store's one failure kind: an operating-system error, carried as its
/// display text.
pub enum StoreError {
    IoError(String),
}

impl StoreError {
    /// The error's text.
    pub open spec fn text(&self) -> Seq<char> {
        match self {
            StoreError::IoError(m) => m@,
        }
    }

    /// Returns the error's text, as shown to the user.
    pub fn message(&self) -> (r: String)
        ensures
            r@ == self.text(),
    {
        match self {
            StoreError::IoError(m) => m.clone(),
        }
    }
}

/// What reading the data file gave: `None` when no file was there, else the
/// read's text or the failing read's error text.
pub open spec fn found_text(found: Option<Result<String, String>>) -> Option<Result<Seq<char>, Seq<char>>> {
    match found {
        Some(Ok(s)) => Some(Ok(s@)),
        Some(Err(m)) => Some(Err(m@)),
        None => None,
    }
}

/// The view of a reply that carries a text.
pub open spec fn reply_text(r: Result<String, StoreError>) -> Result<Seq<char>, Seq<char>> {
    match r {
        Ok(s) => Ok(s@),
        Err(e) => Err(e.text()),
    }
}

/// The view of a reply that carries nothing.
pub open spec fn reply_unit(r: Result<(), StoreError>) -> Result<(), Seq<char>> {
    match r {
        Ok(()) => Ok(()),
        Err(e) => Err(e.text()),
    }
}

/// What a load answers, given what was found at the data file: the file's text
/// unchanged, the sentinel when there was no file, the read's error otherwise.
pub open spec fn load_answer(found: Option<Result<Seq<char>, Seq<char>>>) -> Result<Seq<char>, Seq<char>> {
    match found {
        None => Ok(missing_sentinel()),
        Some(read) => read,
    }
}

/// The view of a write's outcome.
pub open spec fn written_text(written: Result<(), String>) -> Result<(), Seq<char>> {
    match written {
        Ok(()) => Ok(()),
        Err(m) => Err(m@),
    }
}

/// Turns what was found at the data file into the load's reply.
pub fn load_reply(found: Option<Result<String, String>>) -> (r: Result<String, StoreError>)
    ensures
        reply_text(r) == load_answer(found_text(found)),
{
    match found {
        None => Ok("null".to_owned()),
        Some(Ok(s)) => Ok(s),
        Some(Err(m)) => Err(StoreError::IoError(m)),
    }
}

/// Turns the outcome of writing the data file into the save's reply. A
/// failure to create the directory beforehand is not part of it: such a
/// failure shows in the write.
pub fn save_reply(written: Result<(), String>) -> (r: Result<(), StoreError>)
    ensures
        reply_unit(r) == written_text(written),
{
    match written {
        Ok(()) => Ok(()),
        Err(m) => Err(StoreError::IoError(m)),
    }
}

} // verus!
