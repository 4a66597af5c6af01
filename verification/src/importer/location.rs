//! Source locations of operations.

use vstd::prelude::*;

verus! {

/// Where an operation comes from.
#[derive(Debug)]
pub enum Location {
    /// Not known.
    Unknown,
    /// A position in a file.
    SrcPos { file: String, line: i32, column: i32 },
}

/// The lowest 32 bits of a number, as a signed number.
pub open spec fn wrapped(n: int) -> int {
    let low = n % 0x1_0000_0000;
    if low < 0x8000_0000 {
        low
    } else {
        low - 0x1_0000_0000
    }
}

/// The lowest 32 bits of a number, as a signed number.
fn wrap(n: usize) -> (low: i32)
    ensures
        low == wrapped(n as int),
{
    let low: u64 = (n as u64) % 0x1_0000_0000;
    if low < 0x8000_0000 {
        low as i32
    } else {
        (low as i64 - 0x1_0000_0000) as i32
    }
}

/// The location of a span that begins in `file` at a line and a column. Both
/// count from 1; a span without a file, a line or a column is nowhere.
pub fn span_to_location(file: String, start_line: usize, start_col: usize) -> (location: Location)
    ensures
        if file@.len() == 0 || start_line == 0 || start_col == 0 {
            location is Unknown
        } else {
            location matches Location::SrcPos { file: source, line, column } && source@ == file@
                && line == wrapped(start_line as int) && column == wrapped(start_col as int)
        },
{
    if file.as_str().unicode_len() == 0 || start_line == 0 || start_col == 0 {
        return Location::Unknown;
    }
    Location::SrcPos { file, line: wrap(start_line), column: wrap(start_col) }
}

/// Lines and columns that 31 bits hold are kept as they are.
pub proof fn small_positions_are_kept(n: int)
    requires
        0 <= n < 0x8000_0000,
    ensures
        wrapped(n) == n,
{
}

/// A line or a column differs from what 32 bits keep of it by a multiple of
/// 2^32, and what is kept is a signed number of 32 bits.
pub proof fn positions_wrap(n: int)
    ensures
        exists|turns: int| n == wrapped(n) + #[trigger] (turns * 0x1_0000_0000),
        -0x8000_0000 <= wrapped(n) < 0x8000_0000,
{
    let turns = n / 0x1_0000_0000;
    assert(n == n % 0x1_0000_0000 + turns * 0x1_0000_0000);
    if n % 0x1_0000_0000 >= 0x8000_0000 {
        assert(n == wrapped(n) + (turns + 1) * 0x1_0000_0000);
    }
}

/// A span in a file is at its own line and column, as far as 31 bits hold
/// them; one without a file, a line or a column is nowhere, and no other is.
pub proof fn spans_are_where_they_begin(
    file: String,
    start_line: usize,
    start_col: usize,
    location: Location,
)
    requires
        call_ensures(span_to_location, (file, start_line, start_col), location),
        start_line < 0x8000_0000,
        start_col < 0x8000_0000,
    ensures
        location is Unknown <==> file@ == Seq::<char>::empty() || start_line < 1 || start_col < 1,
        location matches Location::SrcPos { file: source, line, column } ==> source@ == file@
            && line == start_line && column == start_col,
{
    small_positions_are_kept(start_line as int);
    small_positions_are_kept(start_col as int);
    if file@.len() == 0 {
        assert(file@ =~= Seq::<char>::empty());
    }
}

} // verus!
