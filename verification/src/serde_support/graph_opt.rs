//! The level of graph rewriting, as the engine's number.
use vstd::prelude::*;

use crate::session_options::GraphOptimizationLevel;
use crate::text::push_signed_decimal;

verus! {

/// A number that is no level.
#[derive(Debug, Clone, Copy, PartialEq, Eq, Structural)]
pub struct UnknownLevel {
    /// The number.
    pub number: i32,
}

impl UnknownLevel {
    /// The text of the error.
    pub fn message(&self) -> (message: String)
        ensures
            message@ == "unknown GraphOptimizationLevel discriminant: "@
                + crate::text::signed_decimal(self.number as int),
    {
        let mut out: String = String::new();
        out.append("unknown GraphOptimizationLevel discriminant: ");
        push_signed_decimal(&mut out, self.number as i64);
        assert(out@ =~= "unknown GraphOptimizationLevel discriminant: "@
            + crate::text::signed_decimal(self.number as int));
        out
    }
}

/// The number of some level.
pub open spec fn is_level(number: i32) -> bool {
    0 <= number <= 3 || number == 99
}

/// The number of a level.
pub fn serialize(level: &GraphOptimizationLevel) -> (number: i32)
    ensures
        number == level.spec_discriminant(),
{
    level.discriminant()
}

/// The level of a number.
pub fn deserialize(number: i32) -> (level: Result<GraphOptimizationLevel, UnknownLevel>)
    ensures
        match level {
            Ok(level) => is_level(number) && level.spec_discriminant() == number,
            Err(error) => !is_level(number) && error.number == number,
        },
{
    match number {
        0 => Ok(GraphOptimizationLevel::DisableAll),
        1 => Ok(GraphOptimizationLevel::Basic),
        2 => Ok(GraphOptimizationLevel::Extended),
        3 => Ok(GraphOptimizationLevel::Layout),
        99 => Ok(GraphOptimizationLevel::All),
        number => Err(UnknownLevel { number }),
    }
}

/// A level that is written down and read back is the same level.
pub proof fn levels_round_trip(level: GraphOptimizationLevel, read: GraphOptimizationLevel)
    requires
        read.spec_discriminant() == level.spec_discriminant(),
    ensures
        is_level(level.spec_discriminant()),
        read == level,
{
}

} // verus!
