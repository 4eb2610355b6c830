//! Statement source: turns the lines of a source file into the ordered
//! sequence of operations to replay.
//!
//! A line is dropped when it begins with a transaction-start marker
//! (`BEGIN`), a transaction-commit marker (`COMMIT`) or a comment marker
//! (`--`); every other line, blank ones included, is kept verbatim, in its
//! original position relative to the other kept lines.

use vstd::prelude::*;

verus! {

/// `p` is a prefix of `s`.
pub open spec fn has_prefix(s: Seq<char>, p: Seq<char>) -> bool {
    p.len() <= s.len() && s.take(p.len() as int) == p
}

/// A line that the source drops: it begins with a transaction boundary
/// marker or a comment marker.
pub open spec fn is_skipped_line(s: Seq<char>) -> bool {
    ||| has_prefix(s, "BEGIN"@)
    ||| has_prefix(s, "COMMIT"@)
    ||| has_prefix(s, "--"@)
}

/// The operations retained from a sequence of source lines: the lines that
/// are not skipped, in their original order.
pub open spec fn retained_lines(lines: Seq<String>) -> Seq<String> {
    lines.filter(|l: String| !is_skipped_line(l@))
}

fn str_has_prefix(s: &str, p: &str) -> (r: bool)
    ensures
        r == has_prefix(s@, p@),
{
    let n = p.unicode_len();
    if n > s.unicode_len() {
        assert(!has_prefix(s@, p@));
        return false;
    }
    let mut i: usize = 0;
    while i < n
        invariant
            i <= n,
            n == p@.len(),
            n <= s@.len(),
            forall|j: int| 0 <= j < i ==> s@[j] == p@[j],
        decreases n - i,
    {
        if s.get_char(i) != p.get_char(i) {
            assert(!has_prefix(s@, p@)) by {
                assert(s@.take(p@.len() as int)[i as int] == s@[i as int]);
            }
            return false;
        }
        i += 1;
    }
    assert(s@.take(p@.len() as int) =~= p@);
    true
}

/// Decides whether a source line is retained as an operation.
pub fn keep_line(line: &str) -> (r: bool)
    ensures
        r == !is_skipped_line(line@),
{
    !(str_has_prefix(line, "BEGIN") || str_has_prefix(line, "COMMIT") || str_has_prefix(
        line,
        "--",
    ))
}

/// Filters the lines of a source file down to the operations to replay:
/// exactly the lines that no skip rule matches, in original order.
pub fn load_statements(lines: Vec<String>) -> (r: Vec<String>)
    ensures
        r@ == retained_lines(lines@),
{
    let mut r: Vec<String> = Vec::new();
    let mut i: usize = 0;
    while i < lines.len()
        invariant
            i <= lines@.len(),
            r@ == lines@.take(i as int).filter(|l: String| !is_skipped_line(l@)),
        decreases lines@.len() - i,
    {
        let ghost prefix = lines@.take(i as int);
        if keep_line(lines[i].as_str()) {
            r.push(lines[i].clone());
        }
        proof {
            let single = seq![lines@[i as int]];
            assert(lines@.take(i + 1) =~= prefix + single);
            Seq::filter_distributes_over_add(prefix, single, |l: String| !is_skipped_line(l@));
            reveal_with_fuel(Seq::filter, 2);
            assert(single.drop_last() =~= Seq::<String>::empty());
        }
        i += 1;
    }
    proof {
        assert(lines@.take(lines@.len() as int) =~= lines@);
    }
    r
}

/// Line accounting of the statement source: of `n` lines, where `m` match a
/// skip rule, exactly `n - m` are retained as operations.
pub proof fn lemma_source_line_accounting(lines: Seq<String>)
    ensures
        retained_lines(lines).len() + lines.filter(|l: String| is_skipped_line(l@)).len()
            == lines.len(),
    decreases lines.len(),
{
    reveal_with_fuel(Seq::filter, 2);
    if lines.len() > 0 {
        lemma_source_line_accounting(lines.drop_last());
    }
}

} // verus!
