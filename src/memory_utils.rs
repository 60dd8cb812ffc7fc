use crate::cursor::Cursor;
use crate::error::AppError;
use vstd::prelude::*;

verus! {

/// The absolute position of the cursor.
pub fn get_file_offset(file: &Cursor) -> (r: usize)
    ensures
        r == file.offset(),
        r <= file.bytes().len() <= usize::MAX,
{
    file.position()
}

/// Seeks to the start of the record that follows the one at `offset`, whose
/// declared length is `cmdsize`, whatever the decoder of that record read.
pub fn advance_to_next_load_command(file: &mut Cursor, offset: usize, cmdsize: u32) -> (r: Result<
    usize,
    AppError,
>)
    ensures
        final(file).bytes() == old(file).bytes(),
        r is Ok <==> offset + cmdsize <= old(file).bytes().len(),
        r is Ok ==> r->Ok_0 == offset + cmdsize && final(file).offset() == offset + cmdsize,
        r is Err ==> r->Err_0 == AppError::SeekOutOfRange,
{
    let len = file.len();
    if offset <= len && cmdsize as usize <= len - offset {
        let target = offset + cmdsize as usize;
        file.seek(target)?;
        Ok(target)
    } else {
        Err(AppError::SeekOutOfRange)
    }
}

} // verus!
