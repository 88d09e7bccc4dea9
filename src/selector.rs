use vstd::prelude::*;

use crate::types::RaffleError;

verus! {

/// A named strategy that supplies the entropy for drawing the winner.
#[derive(Clone, Copy, Debug, PartialEq, Eq, Structural)]
pub enum RandomnessSource {
    /// The host's pseudorandom facility.
    Prng,
    /// An external oracle feed.
    Oracle,
}

/// The source that a name selects, if the selector knows it.
pub open spec fn source_named(name: Seq<char>) -> Option<RandomnessSource> {
    if name == "prng"@ {
        Some(RandomnessSource::Prng)
    } else if name == "oracle"@ {
        Some(RandomnessSource::Oracle)
    } else {
        None
    }
}

/// The winning index that `entropy` selects among `tickets_sold` tickets.
pub open spec fn winning_index(tickets_sold: u32, entropy: u64) -> int {
    entropy as int % tickets_sold as int
}

impl RandomnessSource {
    pub fn parse(name: &str) -> (r: Result<RandomnessSource, RaffleError>)
        ensures
            r matches Ok(s) ==> source_named(name@) == Some(s),
            r is Err ==> source_named(name@) is None && r == Err::<RandomnessSource, RaffleError>(
                RaffleError::UnsupportedRandomnessSource,
            ),
    {
        let given = name.to_owned();
        if given == "prng".to_owned() {
            Ok(RandomnessSource::Prng)
        } else if given == "oracle".to_owned() {
            Ok(RandomnessSource::Oracle)
        } else {
            Err(RaffleError::UnsupportedRandomnessSource)
        }
    }
}

/// Reduces `entropy` modulo the ticket count: the index of the winning ticket.
pub fn select_winner(tickets_sold: u32, entropy: u64) -> (index: u32)
    requires
        tickets_sold >= 1,
    ensures
        index == winning_index(tickets_sold, entropy),
        index < tickets_sold,
{
    (entropy % (tickets_sold as u64)) as u32
}

} // verus!
