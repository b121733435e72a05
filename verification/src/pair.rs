//! The four nucleotide pairs and their selection from a random byte.

use vstd::prelude::*;

verus! {

/// One of the four fixed two-character combinations substituted into a frame
/// template: the pair's first character fills the template's first placeholder
/// slot, the second character fills the second slot.
#[derive(Clone, Copy, PartialEq, Eq, Structural, Debug)]
pub enum NucleotidePair {
    AdenineThymine,
    ThymineAdenine,
    CytosineGuanine,
    GuanineCytosine,
}

impl NucleotidePair {
    /// The character that fills the first placeholder slot.
    pub open spec fn spec_first(self) -> char {
        match self {
            NucleotidePair::AdenineThymine => 'A',
            NucleotidePair::ThymineAdenine => 'T',
            NucleotidePair::CytosineGuanine => 'C',
            NucleotidePair::GuanineCytosine => 'G',
        }
    }

    /// The character that fills the second placeholder slot.
    pub open spec fn spec_second(self) -> char {
        match self {
            NucleotidePair::AdenineThymine => 'T',
            NucleotidePair::ThymineAdenine => 'A',
            NucleotidePair::CytosineGuanine => 'G',
            NucleotidePair::GuanineCytosine => 'C',
        }
    }

    /// The first character as a one-character string slice, for rendering.
    pub fn first_str(self) -> (r: &'static str)
        ensures
            r@ == seq![self.spec_first()],
    {
        proof {
            reveal_strlit("A");
            reveal_strlit("T");
            reveal_strlit("C");
            reveal_strlit("G");
            assert("A"@ =~= seq!['A']);
            assert("T"@ =~= seq!['T']);
            assert("C"@ =~= seq!['C']);
            assert("G"@ =~= seq!['G']);
        }
        match self {
            NucleotidePair::AdenineThymine => "A",
            NucleotidePair::ThymineAdenine => "T",
            NucleotidePair::CytosineGuanine => "C",
            NucleotidePair::GuanineCytosine => "G",
        }
    }

    /// The second character as a one-character string slice, for rendering.
    pub fn second_str(self) -> (r: &'static str)
        ensures
            r@ == seq![self.spec_second()],
    {
        proof {
            reveal_strlit("A");
            reveal_strlit("T");
            reveal_strlit("C");
            reveal_strlit("G");
            assert("A"@ =~= seq!['A']);
            assert("T"@ =~= seq!['T']);
            assert("C"@ =~= seq!['C']);
            assert("G"@ =~= seq!['G']);
        }
        match self {
            NucleotidePair::AdenineThymine => "T",
            NucleotidePair::ThymineAdenine => "A",
            NucleotidePair::CytosineGuanine => "G",
            NucleotidePair::GuanineCytosine => "C",
        }
    }
}

/// The pair that a random byte selects: the remainder of the byte modulo four
/// picks one of the four pairs, so a uniformly distributed byte picks each
/// pair with equal probability.
pub open spec fn spec_pair_from_byte(b: u8) -> NucleotidePair {
    if b % 4 == 0 {
        NucleotidePair::AdenineThymine
    } else if b % 4 == 1 {
        NucleotidePair::ThymineAdenine
    } else if b % 4 == 2 {
        NucleotidePair::CytosineGuanine
    } else {
        NucleotidePair::GuanineCytosine
    }
}

/// Selects the nucleotide pair that the byte's remainder modulo four picks.
pub fn pair_from_byte(b: u8) -> (p: NucleotidePair)
    ensures
        p == spec_pair_from_byte(b),
{
    let r = b % 4;
    if r == 0 {
        NucleotidePair::AdenineThymine
    } else if r == 1 {
        NucleotidePair::ThymineAdenine
    } else if r == 2 {
        NucleotidePair::CytosineGuanine
    } else {
        NucleotidePair::GuanineCytosine
    }
}

/// Every pair substitutes exactly one of the four fixed character
/// combinations, and both of a frame's placeholder slots draw from the same
/// pair: the two characters below always come from one line of this
/// disjunction.
pub proof fn lemma_pair_one_of_four(p: NucleotidePair)
    ensures
        (p.spec_first() == 'A' && p.spec_second() == 'T') || (p.spec_first() == 'T'
            && p.spec_second() == 'A') || (p.spec_first() == 'C' && p.spec_second() == 'G') || (
        p.spec_first() == 'G' && p.spec_second() == 'C'),
{
}

} // verus!
