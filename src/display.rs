//! Text for the two-line character display: fixed-width lines of ASCII.

use vstd::prelude::*;
use crate::params::MachineParameters;

verus! {

/// Characters per display line.
pub const LINE_WIDTH: usize = 16;

/// The decimal digits of `n`, most significant first, in ASCII.
pub open spec fn decimal(n: nat) -> Seq<u8>
    decreases n,
{
    if n < 10 {
        seq![(48 + n) as u8]
    } else {
        decimal(n / 10).push((48 + n % 10) as u8)
    }
}

/// `t` tenths as a decimal number with one fractional digit.
pub open spec fn tenths(t: nat) -> Seq<u8> {
    decimal(t / 10).push(46u8).push((48 + t % 10) as u8)
}

/// `s` cut or padded with spaces to exactly [`LINE_WIDTH`] characters.
pub open spec fn fit(s: Seq<u8>) -> Seq<u8> {
    if s.len() >= LINE_WIDTH {
        s.subrange(0, LINE_WIDTH as int)
    } else {
        s + Seq::new((LINE_WIDTH - s.len()) as nat, |i: int| 32u8)
    }
}

/// `turns: <done>/<target>`.
pub open spec fn turns_text(done: nat, target: nat) -> Seq<u8> {
    seq![116u8, 117, 114, 110, 115, 58, 32] + decimal(done) + seq![47u8] + decimal(target)
}

/// `L<length>cm R<radius>cm`, both in tenths of a centimetre, rounded down.
pub open spec fn params_text(p: MachineParameters) -> Seq<u8> {
    seq![76u8] + tenths(p.length_um as nat / 1000) + seq![99u8, 109, 32, 82] + tenths(
        p.radius_um as nat / 1000,
    ) + seq![99u8, 109]
}

fn push_decimal(out: &mut Vec<u8>, n: u64)
    ensures
        final(out)@ == old(out)@ + decimal(n as nat),
    decreases n,
{
    if n < 10 {
        out.push(48 + n as u8);
        assert(final(out)@ =~= old(out)@ + decimal(n as nat)) by {
            assert(out@ =~= old(out)@ + decimal(n as nat));
        }
    } else {
        push_decimal(out, n / 10);
        out.push(48 + (n % 10) as u8);
        assert(out@ =~= old(out)@ + decimal(n as nat));
    }
}

fn push_all(out: &mut Vec<u8>, s: &[u8])
    ensures
        final(out)@ == old(out)@ + s@,
{
    let mut i: usize = 0;
    while i < s.len()
        invariant
            i <= s@.len(),
            out@ == old(out)@ + s@.subrange(0, i as int),
        decreases s@.len() - i,
    {
        out.push(s[i]);
        i = i + 1;
        assert(out@ =~= old(out)@ + s@.subrange(0, i as int));
    }
    assert(s@.subrange(0, s@.len() as int) =~= s@);
}

fn push_tenths(out: &mut Vec<u8>, t: u64)
    ensures
        final(out)@ == old(out)@ + tenths(t as nat),
{
    push_decimal(out, t / 10);
    out.push(46u8);
    out.push(48 + (t % 10) as u8);
    assert(out@ =~= old(out)@ + tenths(t as nat));
}

/// Cuts or pads `s` to one display line.
pub fn fit_line(line: Vec<u8>) -> (r: Vec<u8>)
    ensures
        r@ == fit(line@),
        r@.len() == LINE_WIDTH,
{
    let mut s = line;
    let ghost s0 = s@;
    if s.len() >= LINE_WIDTH {
        s.truncate(LINE_WIDTH);
        assert(s@ =~= fit(s0));
        s
    } else {
        while s.len() < LINE_WIDTH
            invariant
                s0.len() <= s@.len() <= LINE_WIDTH,
                s@ =~= s0 + Seq::new((s@.len() - s0.len()) as nat, |i: int| 32u8),
            decreases LINE_WIDTH - s@.len(),
        {
            s.push(32u8);
        }
        s
    }
}

/// The progress line, `turns: <done>/<target>`, fitted to the display.
pub fn turns_line(done: u64, target: u64) -> (r: Vec<u8>)
    ensures
        r@ == fit(turns_text(done as nat, target as nat)),
{
    let mut out: Vec<u8> = Vec::new();
    let head: [u8; 7] = [116u8, 117, 114, 110, 115, 58, 32];
    push_all(&mut out, &head);
    push_decimal(&mut out, done);
    out.push(47u8);
    push_decimal(&mut out, target);
    assert(out@ =~= turns_text(done as nat, target as nat));
    fit_line(out)
}

/// The parameter line, `L<length>cm R<radius>cm`, fitted to the display.
pub fn params_line(p: &MachineParameters) -> (r: Vec<u8>)
    ensures
        r@ == fit(params_text(*p)),
{
    let mut out: Vec<u8> = Vec::new();
    out.push(76u8);
    push_tenths(&mut out, p.length_um as u64 / 1000);
    let mid: [u8; 4] = [99u8, 109, 32, 82];
    push_all(&mut out, &mid);
    push_tenths(&mut out, p.radius_um as u64 / 1000);
    out.push(99u8);
    out.push(109u8);
    assert(out@ =~= params_text(*p));
    fit_line(out)
}

} // verus!
