use crate::cursor::Cursor;
use crate::error::AppError;
use vstd::prelude::*;

verus! {

/// Reads `size` bytes at the cursor and moves it back to where it was.
pub fn read_static(file: &mut Cursor, size: usize) -> (r: Result<Vec<u8>, AppError>)
    ensures
        final(file).bytes() == old(file).bytes(),
        final(file).offset() == old(file).offset(),
        r is Ok <==> old(file).has(size as int),
        r is Ok ==> r->Ok_0@ == old(file).bytes().subrange(
            old(file).offset(),
            old(file).offset() + size,
        ),
        r is Err ==> r->Err_0 == AppError::Truncated,
{
    let current_pos = file.position();
    let buffer = file.read_exact(size)?;
    file.seek(current_pos)?;
    Ok(buffer)
}

} // verus!
