//! Credential provisioning: the judgement over what the external
//! provisioning command printed.
//!
//! The command itself — one external CLI invocation per credential — runs
//! outside the library. The library decides what its captured output means:
//! a zero exit yields the printed value with every line break removed, any
//! other exit fails the run with the captured standard-error text.

use vstd::prelude::*;

verus! {

/// `s` with every line break removed.
pub open spec fn without_newlines(s: Seq<char>) -> Seq<char> {
    s.filter(|c: char| c != '\n')
}

/// Removes every line break from the printed value, as the provisioning
/// output is a single value wrapped in terminal line breaks.
pub fn strip_newlines(s: &str) -> (r: String)
    ensures
        r@ == without_newlines(s@),
{
    let n = s.unicode_len();
    let mut r = String::new();
    let mut i: usize = 0;
    while i < n
        invariant
            i <= n,
            n == s@.len(),
            r@ == s@.take(i as int).filter(|c: char| c != '\n'),
        decreases n - i,
    {
        let ghost prefix = s@.take(i as int);
        let c = s.get_char(i);
        if c != '\n' {
            r.push(c);
        }
        proof {
            let single = seq![s@[i as int]];
            assert(s@.take(i + 1) =~= prefix + single);
            Seq::filter_distributes_over_add(prefix, single, |c: char| c != '\n');
            reveal_with_fuel(Seq::filter, 2);
            assert(single.drop_last() =~= Seq::<char>::empty());
        }
        i += 1;
    }
    proof {
        assert(s@.take(s@.len() as int) =~= s@);
    }
    r
}

/// Decides what one provisioning command's captured output means: a zero
/// exit yields the printed value, stripped of line breaks; any other exit
/// fails with the captured standard-error text.
pub fn parse_provision_output(success: bool, stdout: &str, stderr: String) -> (r: Result<
    String,
    String,
>)
    ensures
        success ==> (r matches Ok(v) && v@ == without_newlines(stdout@)),
        !success ==> r == Err::<String, String>(stderr),
{
    if success {
        Ok(strip_newlines(stdout))
    } else {
        Err(stderr)
    }
}

} // verus!
