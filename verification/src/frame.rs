//! Frame templates of the double helix and their rendering.

use vstd::prelude::*;
use crate::pair::NucleotidePair;

verus! {

/// The two characters of a pair, in the order in which they fill a
/// template's placeholder slots.
pub open spec fn pair_chars(p: NucleotidePair) -> Seq<char> {
    seq![p.spec_first(), p.spec_second()]
}

/// The template text with each placeholder slot (the two characters `{}`)
/// filled, left to right, by the next character of `cs`; placeholder slots
/// beyond the supply of characters stay as they are.
pub open spec fn spec_subst(t: Seq<char>, cs: Seq<char>) -> Seq<char>
    decreases t.len(),
{
    if t.len() == 0 {
        Seq::<char>::empty()
    } else if t.len() >= 2 && t[0] == '{' && t[1] == '}' && cs.len() > 0 {
        seq![cs[0]] + spec_subst(t.skip(2), cs.skip(1))
    } else {
        seq![t[0]] + spec_subst(t.skip(1), cs)
    }
}

/// Fills the template's placeholder slots, in order, with the pair's two
/// characters: the first slot takes the pair's first character, the second
/// slot the second.
pub fn render_template(t: &str, p: NucleotidePair) -> (out: String)
    ensures
        out@ == spec_subst(t@, pair_chars(p)),
{
    let n = t.unicode_len();
    let mut out = String::new();
    let mut i: usize = 0;
    let mut used: usize = 0;
    proof {
        assert(t@.skip(0) =~= t@);
        assert(pair_chars(p).skip(0) =~= pair_chars(p));
        assert(out@ + spec_subst(t@, pair_chars(p)) =~= spec_subst(t@, pair_chars(p)));
    }
    while i < n
        invariant
            n == t@.len(),
            i <= n,
            used <= 2,
            out@ + spec_subst(t@.skip(i as int), pair_chars(p).skip(used as int)) == spec_subst(
                t@,
                pair_chars(p),
            ),
        decreases n - i,
    {
        let ghost rest = t@.skip(i as int);
        let ghost left = pair_chars(p).skip(used as int);
        let ghost done = out@;
        let c0 = t.get_char(i);
        if used < 2 && i + 1 < n && c0 == '{' && t.get_char(i + 1) == '}' {
            let piece = if used == 0 {
                p.first_str()
            } else {
                p.second_str()
            };
            out.append(piece);
            proof {
                assert(rest[0] == t@[i as int]);
                assert(rest[1] == t@[i as int + 1]);
                assert(left[0] == pair_chars(p)[used as int]);
                assert(piece@ == seq![left[0]]);
                assert(spec_subst(rest, left) == seq![left[0]] + spec_subst(
                    rest.skip(2),
                    left.skip(1),
                ));
                assert(rest.skip(2) =~= t@.skip(i as int + 2));
                assert(left.skip(1) =~= pair_chars(p).skip(used as int + 1));
                assert((done + seq![left[0]]) + spec_subst(
                    t@.skip(i as int + 2),
                    pair_chars(p).skip(used as int + 1),
                ) =~= done + (seq![left[0]] + spec_subst(
                    t@.skip(i as int + 2),
                    pair_chars(p).skip(used as int + 1),
                )));
            }
            i = i + 2;
            used = used + 1;
        } else {
            out.append(t.substring_char(i, i + 1));
            proof {
                assert(rest[0] == t@[i as int]);
                assert(rest.len() >= 2 ==> rest[1] == t@[i as int + 1]);
                assert(!(rest.len() >= 2 && rest[0] == '{' && rest[1] == '}' && left.len() > 0));
                assert(spec_subst(rest, left) == seq![rest[0]] + spec_subst(rest.skip(1), left));
                assert(rest.skip(1) =~= t@.skip(i as int + 1));
                assert(t@.subrange(i as int, i as int + 1) =~= seq![t@[i as int]]);
                assert((done + seq![rest[0]]) + spec_subst(t@.skip(i as int + 1), left) =~= done + (
                seq![rest[0]] + spec_subst(t@.skip(i as int + 1), left)));
            }
            i = i + 1;
        }
    }
    proof {
        assert(t@.skip(n as int) =~= Seq::<char>::empty());
        assert(out@ + Seq::<char>::empty() =~= out@);
    }
    out
}

/// The double-helix animation: an ordered, fixed set of frame templates and
/// the pause between frames, in milliseconds.
pub struct Dna {
    pub pause_ms: u64,
    pub rows: Vec<&'static str>,
}

/// The eighteen frame templates of the standard helix, in order.
pub open spec fn default_rows() -> Seq<Seq<char>> {
    seq![
        "         ##"@,
        "        #{}-{}#"@,
        "       #{}---{}#"@,
        "      #{}-----{}#"@,
        "     #{}------{}#"@,
        "    #{}------{}#"@,
        "    #{}-----{}#"@,
        "     #{}---{}#"@,
        "     #{}-{}#"@,
        "      ##"@,
        "     #{}-{}#"@,
        "     #{}---{}#"@,
        "    #{}-----{}#"@,
        "    #{}------{}#"@,
        "     #{}------{}#"@,
        "      #{}-----{}#"@,
        "       #{}---{}#"@,
        "        #{}-{}#"@,
    ]
}

impl Dna {
    /// The frame templates as character sequences.
    pub open spec fn spec_rows(self) -> Seq<Seq<char>> {
        Seq::new(self.rows@.len() as nat, |i: int| self.rows@[i]@)
    }

    /// A cap index: the first row and the row half way down the set render
    /// the rounded ends of the helix and are emitted verbatim.
    pub open spec fn spec_is_cap(self, i: int) -> bool {
        i == 0 || i == self.rows@.len() as int / 2
    }

    /// The line that the frame at `i` renders when pair `p` was drawn: a cap
    /// row verbatim, any other row with the pair substituted into its
    /// placeholder slots.
    pub open spec fn spec_frame(self, i: int, p: NucleotidePair) -> Seq<char> {
        if self.spec_is_cap(i) {
            self.spec_rows()[i]
        } else {
            spec_subst(self.spec_rows()[i], pair_chars(p))
        }
    }

    /// The standard helix: the eighteen rows above, with a 150 ms pause.
    pub fn new() -> (d: Dna)
        ensures
            d.pause_ms == 150,
            d.rows@.len() == 18,
            d.spec_rows() == default_rows(),
    {
        let rows: Vec<&'static str> = vec![
            "         ##",
            "        #{}-{}#",
            "       #{}---{}#",
            "      #{}-----{}#",
            "     #{}------{}#",
            "    #{}------{}#",
            "    #{}-----{}#",
            "     #{}---{}#",
            "     #{}-{}#",
            "      ##",
            "     #{}-{}#",
            "     #{}---{}#",
            "    #{}-----{}#",
            "    #{}------{}#",
            "     #{}------{}#",
            "      #{}-----{}#",
            "       #{}---{}#",
            "        #{}-{}#",
        ];
        let d = Dna { pause_ms: 150, rows };
        proof {
            assert(d.spec_rows() =~= default_rows());
        }
        d
    }

    /// Renders the frame at index `i` with pair `p`.
    pub fn render_frame(&self, i: usize, p: NucleotidePair) -> (line: String)
        requires
            i < self.rows@.len(),
        ensures
            line@ == self.spec_frame(i as int, p),
    {
        if i == 0 || i == self.rows.len() / 2 {
            self.rows[i].to_owned()
        } else {
            render_template(self.rows[i], p)
        }
    }
}

/// A cap row is emitted verbatim: whatever pair was drawn, the rendered
/// frame at a cap index equals the template itself, so every run emits the
/// same line there.
pub proof fn lemma_cap_row_verbatim(d: Dna, i: int, p: NucleotidePair, q: NucleotidePair)
    requires
        0 <= i < d.rows@.len(),
        d.spec_is_cap(i),
    ensures
        d.spec_frame(i, p) == d.spec_rows()[i],
        d.spec_frame(i, p) == d.spec_frame(i, q),
{
}

/// A row off the caps is the template with its placeholder slots filled, in
/// order, by the two characters of one single pair.
pub proof fn lemma_plain_row_substituted(d: Dna, i: int, p: NucleotidePair)
    requires
        0 <= i < d.rows@.len(),
        !d.spec_is_cap(i),
    ensures
        d.spec_frame(i, p) == spec_subst(d.spec_rows()[i], pair_chars(p)),
{
}

} // verus!
