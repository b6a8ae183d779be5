//! Validation of the file name a document is saved under: non-empty, at
//! most 63 bytes, and free of path separators.

use vstd::prelude::*;
use vstd::string::StringSliceAdditionalSpecFns;

verus! {

/// A byte a file name may not contain: the path separator.
pub const SEPARATOR_BYTE: u8 = 47;

/// What makes a file name acceptable.
pub open spec fn filename_ok(bytes: Seq<u8>) -> bool {
    &&& bytes.len() > 0
    &&& bytes.len() <= 63
    &&& forall|i: int| 0 <= i < bytes.len() ==> bytes[i] != SEPARATOR_BYTE
}

/// Check a proposed file name, reporting what is wrong with it: empty
/// names, names over 63 bytes and names holding a path separator are
/// refused, in that order of precedence.
pub fn is_valid_filename(filename: &str) -> (r: Result<(), String>)
    ensures
        r matches Ok(_) <==> filename_ok(filename.spec_bytes()),
        filename.spec_bytes().len() == 0 ==> (r matches Err(m) && m@
            == "File name cannot be empty"@),
        filename.spec_bytes().len() > 63 ==> (r matches Err(m) && m@
            == "File name is longer than 63 letters"@),
{
    let bytes = filename.as_bytes();
    if bytes.len() == 0 {
        return Err("File name cannot be empty".to_owned());
    }
    if bytes.len() > 63 {
        return Err("File name is longer than 63 letters".to_owned());
    }
    let mut i: usize = 0;
    while i < bytes.len()
        invariant
            0 <= i <= bytes@.len(),
            0 < bytes@.len() <= 63,
            bytes@ == filename.spec_bytes(),
            forall|j: int| 0 <= j < i ==> bytes@[j] != SEPARATOR_BYTE,
        decreases bytes@.len() - i,
    {
        if bytes[i] == SEPARATOR_BYTE {
            return Err("File name cannot contain a separator".to_owned());
        }
        i = i + 1;
    }
    Ok(())
}

/// Every size the creation dialog offers is acceptable.
pub fn is_valid_size() -> (r: Result<(), String>)
    ensures
        r matches Ok(_),
{
    Ok(())
}

} // verus!
