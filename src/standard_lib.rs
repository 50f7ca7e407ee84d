//! Error propagation through `Result`, written out by hand and with `?`.
use vstd::prelude::*;

verus! {

/// Tells whether `right` divides `left`; nothing divides by zero.
pub fn is_divisible_by(left: u32, right: u32) -> (r: bool)
    ensures
        r == (right != 0 && left % right == 0),
{
    if right == 0 {
        return false;
    }
    left % right == 0
}

/// A stand-in for a file that accepts every write.
pub struct FileReplace {
    pub name: String,
}

impl FileReplace {
    /// Accepts `input`; this stand-in never fails.
    pub fn write_all(&self, input: String) -> (r: Result<(), String>)
        ensures
            r is Ok,
    {
        Ok(())
    }
}

/// Three writes, each checked by hand, stopping at the first error.
pub fn the_dirty_way_result() -> (r: Result<(), String>)
    ensures
        r is Ok,
{
    let file: FileReplace = FileReplace { name: "filename.txt".to_string() };
    if let Err(e) = file.write_all("string".to_string()) {
        return Err(e);
    }
    if let Err(e) = file.write_all("other_string".to_string()) {
        return Err(e);
    }
    if let Err(e) = file.write_all("one_more".to_string()) {
        return Err(e);
    }
    Ok(())
}

/// The same three writes, each error passed on by `?`.
pub fn the_clean_way() -> (r: Result<(), String>)
    ensures
        r is Ok,
{
    let file: FileReplace = FileReplace { name: "filename.txt".to_string() };
    file.write_all("string".to_string())?;
    file.write_all("other_string".to_string())?;
    file.write_all("last_string".to_string())?;
    Ok(())
}

} // verus!
