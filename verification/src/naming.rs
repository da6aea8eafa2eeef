//! Names for indexes that the operator did not name.

use vstd::prelude::*;
use vstd::string::*;
use rand::Rng;

verus! {

/// The number of letters in a generated name.
pub const NAME_LENGTH: usize = 5;

/// The letters that a generated name is drawn from.
pub open spec fn alphabet() -> Seq<char> {
    "abcdefghijklmnopqrstuvwxyz"@
}

/// The letter that a pick stands for: picks count from `a` and wrap around
/// after `z`.
pub open spec fn letter(pick: usize) -> char {
    alphabet()[pick as int % 26]
}

/// The name that a sequence of picks spells.
pub open spec fn name_of(picks: Seq<usize>) -> Seq<char> {
    picks.map_values(|pick: usize| letter(pick))
}

/// Whether `name` has the shape of a generated name: `NAME_LENGTH` letters
/// of the alphabet.
pub open spec fn is_index_name(name: Seq<char>) -> bool {
    &&& name.len() == NAME_LENGTH
    &&& forall|i: int| 0 <= i < name.len() ==> alphabet().contains(#[trigger] name[i])
}

/// The alphabet has 26 letters, all of them ASCII.
proof fn lemma_alphabet()
    ensures
        alphabet().len() == 26,
        is_ascii("abcdefghijklmnopqrstuvwxyz"),
{
    reveal_strlit("abcdefghijklmnopqrstuvwxyz");
}

/// Spells the name that `picks` stand for, one letter for each pick.
pub fn name_from_picks(picks: &Vec<usize>) -> (name: String)
    ensures
        name@ == name_of(picks@),
{
    let letters = "abcdefghijklmnopqrstuvwxyz";
    let mut name = String::new();
    let mut i: usize = 0;
    proof {
        lemma_alphabet();
    }
    while i < picks.len()
        invariant
            i <= picks.len(),
            letters@ == alphabet(),
            alphabet().len() == 26,
            is_ascii(letters),
            name@ == name_of(picks@.take(i as int)),
        decreases picks.len() - i,
    {
        let place: usize = picks[i] % 26;
        let piece = letters.substring_ascii(place, place + 1);
        name.append(piece);
        proof {
            assert(piece@ =~= seq![letter(picks[i as int])]);
            assert(picks@.take(i + 1) =~= picks@.take(i as int).push(picks[i as int]));
            assert(name@ =~= name_of(picks@.take(i + 1)));
        }
        i = i + 1;
    }
    assert(picks@.take(i as int) =~= picks@);
    name
}

/// Draws a number below `bound` from the random generator of the thread:
/// `rand::rng()`, then `Rng::random_range` on `0..bound`. The generator
/// refuses an empty range, so `bound` is positive; the result lies in the
/// range, and nothing else is known of it.
#[verifier::external_body]
fn random_below(bound: usize) -> (pick: usize)
    requires
        bound > 0,
    ensures
        pick < bound,
{
    rand::rng().random_range(0..bound)
}

/// A fresh name for an index: `NAME_LENGTH` letters drawn at random.
pub fn generate_random_string() -> (name: String)
    ensures
        is_index_name(name@),
{
    let mut picks: Vec<usize> = Vec::new();
    while picks.len() < NAME_LENGTH
        invariant
            picks.len() <= NAME_LENGTH,
            forall|i: int| 0 <= i < picks.len() ==> picks[i] < 26,
        decreases NAME_LENGTH - picks.len(),
    {
        let pick = random_below(26);
        picks.push(pick);
    }
    let name = name_from_picks(&picks);
    proof {
        lemma_alphabet();
        assert forall|i: int| 0 <= i < name@.len() implies alphabet().contains(
            #[trigger] name@[i],
        ) by {
            assert(name@[i] == alphabet()[picks[i] as int % 26]);
        }
    }
    name
}

} // verus!
