use vstd::prelude::*;
use vstd::string::*;

use crate::batch::Batch;
use crate::hunk::LineRange;

verus! {

/// The characters of the decimal digits, in order of value.
pub const DIGITS: &'static str = "0123456789";

/// The character of the decimal digit `d`.
pub open spec fn digit_char(d: nat) -> char {
    DIGITS@[d as int]
}

/// The decimal notation of `n`, without sign or leading zeros.
pub open spec fn decimal(n: nat) -> Seq<char>
    decreases n,
{
    if n < 10 {
        seq![digit_char(n)]
    } else {
        decimal(n / 10).push(digit_char(n % 10))
    }
}

/// The formatter flag that restricts it to a range: `--lines=start:end`.
pub open spec fn lines_flag(r: (int, int)) -> Seq<char> {
    "--lines="@ + decimal(r.0 as nat) + ":"@ + decimal(r.1 as nat)
}

/// The formatter's arguments for a batch: edit the file in place, and one
/// range flag for each range, in order.
pub open spec fn command_args(b: (Seq<char>, Seq<(int, int)>)) -> Seq<Seq<char>> {
    seq!["-i"@, b.0] + b.1.map_values(|r: (int, int)| lines_flag(r))
}

/// Append the decimal notation of `n` to `s`.
pub fn push_decimal(s: &mut String, n: usize)
    ensures
        final(s)@ == old(s)@ + decimal(n as nat),
    decreases n,
{
    proof {
        reveal_strlit("0123456789");
    }
    if n >= 10 {
        push_decimal(s, n / 10);
    }
    let d: usize = n % 10;
    let digit = DIGITS.substring_char(d, d + 1);
    assert(digit@ =~= seq![digit_char(d as nat)]);
    s.append(digit);
    assert(s@ =~= old(s)@ + decimal(n as nat));
}

/// The flag `--lines=start:end` for one range.
pub fn lines_arg(range: LineRange) -> (r: String)
    ensures
        r@ == lines_flag(range@),
{
    let mut s = String::from_str("--lines=");
    push_decimal(&mut s, range.start);
    s.append(":");
    push_decimal(&mut s, range.end);
    s
}

/// The arguments of the formatter invocation for a batch:
/// `-i <file> --lines=<start>:<end> ...`.
pub fn invocation_args(batch: &Batch) -> (r: Vec<String>)
    ensures
        r@.map_values(|a: String| a@) == command_args(batch@),
{
    let mut args: Vec<String> = Vec::new();
    args.push(String::from_str("-i"));
    args.push(batch.file.clone());
    let mut i: usize = 0;
    while i < batch.ranges.len()
        invariant
            i <= batch.ranges@.len(),
            args@.map_values(|a: String| a@) == seq!["-i"@, batch.file@] + batch@.1.take(
                i as int,
            ).map_values(|r: (int, int)| lines_flag(r)),
        decreases batch.ranges@.len() - i,
    {
        let ghost before = args@;
        let ghost rv = batch@.1[i as int];
        let flag = lines_arg(batch.ranges[i]);
        assert(flag@ == lines_flag(rv));
        args.push(flag);
        assert(batch@.1.take(i + 1) =~= batch@.1.take(i as int).push(rv));
        assert(batch@.1.take(i + 1).map_values(|r: (int, int)| lines_flag(r)) =~= batch@.1.take(
            i as int,
        ).map_values(|r: (int, int)| lines_flag(r)).push(lines_flag(rv)));
        assert(args@.map_values(|a: String| a@) =~= before.map_values(|a: String| a@).push(
            lines_flag(rv),
        ));
        assert(args@.map_values(|a: String| a@) =~= seq!["-i"@, batch.file@] + batch@.1.take(
            i + 1,
        ).map_values(|r: (int, int)| lines_flag(r)));
        i = i + 1;
    }
    assert(batch@.1.take(i as int) =~= batch@.1);
    args
}

} // verus!
