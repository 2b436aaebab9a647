//! Text helpers shared by the other modules.

use vstd::prelude::*;

verus! {

/// The characters of each slice of a list.
pub open spec fn texts(lines: Seq<&str>) -> Seq<Seq<char>> {
    Seq::new(lines.len(), |k: int| lines[k]@)
}

/// The line break that separates the lines of a text.
pub open spec fn line_break() -> Seq<char> {
    seq!['\n']
}

/// The lines of a list written one after the other, with a line break
/// between each two.
pub open spec fn spec_join_lines(lines: Seq<Seq<char>>) -> Seq<char>
    decreases lines.len(),
{
    if lines.len() == 0 {
        Seq::empty()
    } else if lines.len() == 1 {
        lines[0]
    } else {
        spec_join_lines(lines.drop_last()) + line_break() + lines.last()
    }
}

/// Joins the lines with a line break between each two.
pub fn join_lines(lines: &Vec<&str>) -> (joined: String)
    ensures
        joined@ == spec_join_lines(texts(lines@)),
{
    let n: usize = lines.len();
    let mut joined: String = String::new();
    let mut k: usize = 0;
    while k < n
        invariant
            n == lines@.len(),
            k <= n,
            joined@ == spec_join_lines(texts(lines@).take(k as int)),
        decreases n - k,
    {
        let ghost before = texts(lines@).take(k as int);
        let ghost after = texts(lines@).take(k + 1);
        proof {
            assert(after.drop_last() =~= before);
            assert(after.last() == lines@[k as int]@);
        }
        if k > 0 {
            proof {
                reveal_strlit("\n");
                assert("\n"@ =~= line_break());
            }
            joined.append("\n");
        } else {
            assert(Seq::<char>::empty() + lines@[0]@ =~= lines@[0]@);
        }
        joined.append(lines[k]);
        k = k + 1;
    }
    assert(texts(lines@).take(n as int) =~= texts(lines@));
    joined
}

} // verus!
