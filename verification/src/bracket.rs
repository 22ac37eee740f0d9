//! What the game takes from bracket-lib: its random number generator, the
//! one source of chance in the game, and its table of glyph codes. Nothing
//! here is proved; the contracts say what bracket-lib's source shows.

use vstd::prelude::*;

verus! {

/// bracket-lib's `RandomNumberGenerator`. Its state is hidden from the
/// contracts: no two draws are known to agree.
#[verifier::external_type_specification]
#[verifier::external_body]
pub struct ExRandomNumberGenerator(bracket_lib::prelude::RandomNumberGenerator);

/// `RandomNumberGenerator::new`: a generator seeded from the operating
/// system's entropy or, where that fails, from the clock. Nothing is claimed
/// of it.
#[verifier::external_body]
pub(crate) fn fresh_generator() -> bracket_lib::prelude::RandomNumberGenerator {
    bracket_lib::prelude::RandomNumberGenerator::new()
}

/// `RandomNumberGenerator::range` on `i32`: a draw from `low` up to but not
/// including `high`. The generator refuses an empty range by panicking, so
/// `low < high` is required; of the number drawn only its bounds are claimed.
#[verifier::external_body]
pub(crate) fn draw_in_range(
    generator: &mut bracket_lib::prelude::RandomNumberGenerator,
    low: i32,
    high: i32,
) -> (drawn: i32)
    requires
        low < high,
    ensures
        low <= drawn < high,
{
    generator.range(low, high)
}

/// The code that bracket-lib's `to_cp437` gives a character: its place in
/// code page 437, the glyph set of bracket-lib's terminals.
pub uninterp spec fn cp437(glyph: char) -> u16;

/// `to_cp437`: the code of a character in code page 437. The function is a
/// fixed table of some 270 characters, so its result depends on the character
/// alone; the contract gives that result its name and claims no more.
#[verifier::external_body]
pub(crate) fn glyph_code(glyph: char) -> (code: u16)
    ensures
        code == cp437(glyph),
{
    bracket_lib::prelude::to_cp437(glyph)
}

} // verus!
