//! Framing of the batch-execution request body.
//!
//! A batch travels as a JSON object with a single `statements` member whose
//! value is the array of the batch's operations, in order, each as a JSON
//! string. The library frames the body itself, character by character, so
//! that what goes on the wire is pinned exactly: a quote or a backslash in
//! an operation is escaped with a backslash, a control character as a
//! `\u00` hexadecimal escape, and every other character stands as itself.

use vstd::prelude::*;

verus! {

/// The lower-case hexadecimal digit of a value below sixteen.
pub open spec fn spec_hex_digit(n: int) -> char {
    if n == 0 {
        '0'
    } else if n == 1 {
        '1'
    } else if n == 2 {
        '2'
    } else if n == 3 {
        '3'
    } else if n == 4 {
        '4'
    } else if n == 5 {
        '5'
    } else if n == 6 {
        '6'
    } else if n == 7 {
        '7'
    } else if n == 8 {
        '8'
    } else if n == 9 {
        '9'
    } else if n == 10 {
        'a'
    } else if n == 11 {
        'b'
    } else if n == 12 {
        'c'
    } else if n == 13 {
        'd'
    } else if n == 14 {
        'e'
    } else {
        'f'
    }
}

/// How one character of an operation appears inside its JSON string.
pub open spec fn json_escape_char(c: char) -> Seq<char> {
    if c == '"' {
        seq!['\\', '"']
    } else if c == '\\' {
        seq!['\\', '\\']
    } else if (c as u32) < 32 {
        seq!['\\', 'u', '0', '0', spec_hex_digit((c as u32) as int / 16), spec_hex_digit(
            (c as u32) as int % 16,
        )]
    } else {
        seq![c]
    }
}

/// The body of a JSON string holding `s`: each character escaped in order.
pub open spec fn json_escape(s: Seq<char>) -> Seq<char>
    decreases s.len(),
{
    if s.len() == 0 {
        Seq::empty()
    } else {
        json_escape(s.drop_last()) + json_escape_char(s.last())
    }
}

/// The JSON string holding `s`: its escaped characters between quotes.
pub open spec fn json_string(s: Seq<char>) -> Seq<char> {
    seq!['"'] + json_escape(s) + seq!['"']
}

/// The members of the JSON array of the batch's operations: their JSON
/// strings, in order, separated by commas.
pub open spec fn json_statements_array(stmts: Seq<String>) -> Seq<char>
    decreases stmts.len(),
{
    if stmts.len() == 0 {
        Seq::empty()
    } else if stmts.len() == 1 {
        json_string(stmts[0]@)
    } else {
        json_statements_array(stmts.drop_last()) + seq![','] + json_string(stmts.last()@)
    }
}

/// The batch-execution request body carrying `stmts`.
pub open spec fn spec_statements_body(stmts: Seq<String>) -> Seq<char> {
    "{\"statements\":["@ + json_statements_array(stmts) + "]}"@
}

/// The lower-case hexadecimal digit of a value below sixteen.
fn hex_digit(n: u32) -> (c: char)
    requires
        n < 16,
    ensures
        c == spec_hex_digit(n as int),
{
    match n {
        0 => '0',
        1 => '1',
        2 => '2',
        3 => '3',
        4 => '4',
        5 => '5',
        6 => '6',
        7 => '7',
        8 => '8',
        9 => '9',
        10 => 'a',
        11 => 'b',
        12 => 'c',
        13 => 'd',
        14 => 'e',
        _ => 'f',
    }
}

/// Appends one operation character to the body, escaped as JSON asks.
fn push_escaped(out: &mut String, c: char)
    ensures
        final(out)@ == old(out)@ + json_escape_char(c),
{
    let ghost start = out@;
    if c == '"' {
        out.push('\\');
        out.push('"');
        proof {
            assert(out@ =~= start + json_escape_char(c));
        }
    } else if c == '\\' {
        out.push('\\');
        out.push('\\');
        proof {
            assert(out@ =~= start + json_escape_char(c));
        }
    } else if (c as u32) < 32 {
        let v = c as u32;
        out.push('\\');
        out.push('u');
        out.push('0');
        out.push('0');
        out.push(hex_digit(v / 16));
        out.push(hex_digit(v % 16));
        proof {
            assert(out@ =~= start + json_escape_char(c));
        }
    } else {
        out.push(c);
        proof {
            assert(out@ =~= start + json_escape_char(c));
        }
    }
}

/// Appends the JSON string holding one operation to the body.
fn push_json_string(out: &mut String, s: &str)
    ensures
        final(out)@ == old(out)@ + json_string(s@),
{
    let ghost start = out@;
    out.push('"');
    let n = s.unicode_len();
    let mut i: usize = 0;
    while i < n
        invariant
            i <= n,
            n == s@.len(),
            out@ == start + seq!['"'] + json_escape(s@.take(i as int)),
        decreases n - i,
    {
        let c = s.get_char(i);
        push_escaped(out, c);
        proof {
            let t = s@.take(i + 1);
            assert(t.drop_last() =~= s@.take(i as int));
            assert(t.last() == s@[i as int]);
            assert(out@ =~= start + seq!['"'] + json_escape(s@.take(i + 1)));
        }
        i += 1;
    }
    out.push('"');
    proof {
        assert(s@.take(s@.len() as int) =~= s@);
        assert(out@ =~= start + json_string(s@));
    }
}

/// Frames the batch-execution request body: the batch's operations as a JSON
/// array of strings under the single `statements` member, in batch order.
pub fn statements_body(stmts: &Vec<String>) -> (r: String)
    ensures
        r@ == spec_statements_body(stmts@),
{
    let mut out = String::from_str("{\"statements\":[");
    let ghost head = "{\"statements\":["@;
    let mut i: usize = 0;
    while i < stmts.len()
        invariant
            i <= stmts@.len(),
            out@ == head + json_statements_array(stmts@.take(i as int)),
        decreases stmts@.len() - i,
    {
        if i > 0 {
            out.push(',');
        }
        push_json_string(&mut out, stmts[i].as_str());
        proof {
            let t = stmts@.take(i + 1);
            assert(t.drop_last() =~= stmts@.take(i as int));
            assert(t.last() == stmts@[i as int]);
            if i == 0 {
                assert(json_statements_array(t) == json_string(stmts@[0]@));
                assert(out@ =~= head + json_statements_array(t));
            } else {
                assert(json_statements_array(t) == json_statements_array(stmts@.take(i as int))
                    + seq![','] + json_string(stmts@[i as int]@));
                assert(out@ =~= head + json_statements_array(t));
            }
        }
        i += 1;
    }
    out.append("]}");
    proof {
        assert(stmts@.take(stmts@.len() as int) =~= stmts@);
        assert(out@ =~= spec_statements_body(stmts@));
    }
    out
}

} // verus!
