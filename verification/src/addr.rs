//! A 16-byte IPv6 network address and its canonical compressed textual
//! form (lowercase hexadecimal groups, longest zero run folded to `::`).

use vstd::prelude::*;

use crate::hex_text::chars_to_string;
use crate::hex_text::hex_digit_char;
use crate::hex_text::hex_digits;

verus! {

/// The eight 16-bit groups of an address, big-endian.
pub open spec fn spec_groups(a: Seq<u8>) -> Seq<u16>
    recommends
        a.len() == 16,
{
    Seq::new(8, |i: int| (a[2 * i] * 256 + a[2 * i + 1]) as u16)
}

/// One group in lowercase hexadecimal without leading zeros (a zero
/// group is the single digit `0`).
pub open spec fn spec_group_text(g: u16) -> Seq<char> {
    if g < 16 {
        seq![hex_digits()[g as int % 16]]
    } else if g < 256 {
        seq![hex_digits()[g as int / 16], hex_digits()[g as int % 16]]
    } else if g < 4096 {
        seq![
            hex_digits()[g as int / 256],
            hex_digits()[g as int / 16 % 16],
            hex_digits()[g as int % 16],
        ]
    } else {
        seq![
            hex_digits()[g as int / 4096],
            hex_digits()[g as int / 256 % 16],
            hex_digits()[g as int / 16 % 16],
            hex_digits()[g as int % 16],
        ]
    }
}

/// Groups `lo` to `hi` (exclusive), joined with `:`.
pub open spec fn spec_groups_text(gs: Seq<u16>, lo: int, hi: int) -> Seq<char>
    recommends
        0 <= lo <= hi <= gs.len(),
    decreases hi - lo,
{
    if lo >= hi {
        Seq::empty()
    } else if lo + 1 == hi {
        spec_group_text(gs[lo])
    } else {
        spec_group_text(gs[lo]) + seq![':'] + spec_groups_text(gs, lo + 1, hi)
    }
}

/// Length of the run of zero groups starting at `i`.
pub open spec fn spec_run_len(gs: Seq<u16>, i: int) -> int
    recommends
        0 <= i <= gs.len(),
    decreases gs.len() - i,
{
    if i < 0 || i >= gs.len() || gs[i] != 0 {
        0
    } else {
        1 + spec_run_len(gs, i + 1)
    }
}

/// Scans groups `i` and onward for the zero run that beats the best one
/// found so far (`bi`, `bl`); a strictly longer run wins, so of equally
/// long runs the leftmost is kept.
pub open spec fn spec_best_run_from(gs: Seq<u16>, i: int, bi: int, bl: int) -> (int, int)
    recommends
        0 <= i <= gs.len(),
    decreases gs.len() - i,
{
    if i < 0 || i >= gs.len() {
        (bi, bl)
    } else if spec_run_len(gs, i) > bl {
        spec_best_run_from(gs, i + 1, i, spec_run_len(gs, i))
    } else {
        spec_best_run_from(gs, i + 1, bi, bl)
    }
}

/// The leftmost longest run of zero groups: its start and its length.
pub open spec fn spec_best_run(gs: Seq<u16>) -> (int, int) {
    spec_best_run_from(gs, 0, 0, 0)
}

/// The canonical compressed textual form: lowercase hexadecimal groups
/// joined with `:`, with the leftmost longest run of at least two zero
/// groups folded to `::`; a lone zero group is not folded.
pub open spec fn spec_addr_text(a: Seq<u8>) -> Seq<char>
    recommends
        a.len() == 16,
{
    let gs = spec_groups(a);
    let bi = spec_best_run(gs).0;
    let bl = spec_best_run(gs).1;
    if bl >= 2 {
        spec_groups_text(gs, 0, bi) + seq![':', ':'] + spec_groups_text(gs, bi + bl, 8)
    } else {
        spec_groups_text(gs, 0, 8)
    }
}

/// A fixed 16-byte network address. Any 16-byte pattern is a valid
/// address; no interpretation is placed on the bytes here.
#[derive(Debug, Clone)]
pub struct IPv6Address {
    pub bytes: Vec<u8>,
}

impl View for IPv6Address {
    type V = Seq<u8>;

    open spec fn view(&self) -> Seq<u8> {
        self.bytes@
    }
}

impl IPv6Address {
    /// Wraps 16 raw bytes as an address.
    pub fn new(bytes: Vec<u8>) -> (r: IPv6Address)
        requires
            bytes@.len() == 16,
        ensures
            r@ == bytes@,
    {
        IPv6Address { bytes }
    }

    /// The raw bytes, network order.
    pub fn as_bytes(&self) -> (r: &Vec<u8>)
        ensures
            r@ == self@,
    {
        &self.bytes
    }

    /// Renders the address in its canonical compressed textual form.
    pub fn to_text(&self) -> (r: String)
        requires
            self@.len() == 16,
        ensures
            r@ == spec_addr_text(self@),
    {
        let g = compute_groups(&self.bytes);
        let best = best_zero_run(&g);
        let bi = best.0;
        let bl = best.1;
        let mut out: Vec<char> = Vec::new();
        if bl >= 2 {
            push_groups_range(&mut out, &g, 0, bi);
            out.push(':');
            out.push(':');
            push_groups_range(&mut out, &g, bi + bl, 8);
            proof {
                assert(out@ =~= spec_addr_text(self@));
            }
        } else {
            push_groups_range(&mut out, &g, 0, 8);
            proof {
                assert(out@ =~= spec_addr_text(self@));
            }
        }
        chars_to_string(out)
    }
}

/// The eight big-endian 16-bit groups of 16 address bytes.
fn compute_groups(bytes: &Vec<u8>) -> (g: Vec<u16>)
    requires
        bytes@.len() == 16,
    ensures
        g@ == spec_groups(bytes@),
{
    let mut g: Vec<u16> = Vec::new();
    let mut i: usize = 0;
    while i < 8
        invariant
            bytes@.len() == 16,
            i <= 8,
            g@.len() == i,
            forall|j: int| 0 <= j < i ==> g@[j] == spec_groups(bytes@)[j],
        decreases 8 - i,
    {
        let v: u16 = (bytes[2 * i] as u16) * 256 + (bytes[2 * i + 1] as u16);
        g.push(v);
        i = i + 1;
    }
    proof {
        assert(g@ =~= spec_groups(bytes@));
    }
    g
}

/// Length of the run of zero groups starting at `i`.
fn run_len_at(g: &Vec<u16>, i: usize) -> (r: usize)
    requires
        g@.len() == 8,
        i <= 8,
    ensures
        r == spec_run_len(g@, i as int),
        r <= 8 - i,
{
    let mut j: usize = i;
    while j < 8 && g[j] == 0
        invariant
            g@.len() == 8,
            i <= j <= 8,
            spec_run_len(g@, i as int) == (j - i) + spec_run_len(g@, j as int),
        decreases 8 - j,
    {
        j = j + 1;
    }
    j - i
}

/// Start and length of the leftmost longest run of zero groups.
fn best_zero_run(g: &Vec<u16>) -> (r: (usize, usize))
    requires
        g@.len() == 8,
    ensures
        r.0 as int == spec_best_run(g@).0,
        r.1 as int == spec_best_run(g@).1,
        r.0 + r.1 <= 8,
{
    let mut bi: usize = 0;
    let mut bl: usize = 0;
    let mut i: usize = 0;
    while i < 8
        invariant
            g@.len() == 8,
            i <= 8,
            bi + bl <= 8,
            spec_best_run_from(g@, i as int, bi as int, bl as int) == spec_best_run(g@),
        decreases 8 - i,
    {
        let rl = run_len_at(g, i);
        if rl > bl {
            bi = i;
            bl = rl;
        }
        i = i + 1;
    }
    (bi, bl)
}

/// Appends one group in lowercase hexadecimal without leading zeros.
fn push_group(out: &mut Vec<char>, g: u16)
    ensures
        final(out)@ == old(out)@ + spec_group_text(g),
{
    if g < 16 {
        out.push(hex_digit_char((g % 16) as u8));
    } else if g < 256 {
        out.push(hex_digit_char((g / 16) as u8));
        out.push(hex_digit_char((g % 16) as u8));
    } else if g < 4096 {
        out.push(hex_digit_char((g / 256) as u8));
        out.push(hex_digit_char((g / 16 % 16) as u8));
        out.push(hex_digit_char((g % 16) as u8));
    } else {
        out.push(hex_digit_char((g / 4096) as u8));
        out.push(hex_digit_char((g / 256 % 16) as u8));
        out.push(hex_digit_char((g / 16 % 16) as u8));
        out.push(hex_digit_char((g % 16) as u8));
    }
    proof {
        assert(out@ =~= old(out)@ + spec_group_text(g));
    }
}

/// Extending a joined range by one more group appends a separator (when
/// the range was not empty) and that group's text.
proof fn lemma_groups_text_snoc(gs: Seq<u16>, lo: int, k: int)
    requires
        0 <= lo <= k < gs.len(),
    ensures
        spec_groups_text(gs, lo, k + 1) == if k == lo {
            spec_group_text(gs[k])
        } else {
            spec_groups_text(gs, lo, k) + seq![':'] + spec_group_text(gs[k])
        },
    decreases k - lo,
{
    if k == lo {
    } else {
        lemma_groups_text_snoc(gs, lo + 1, k);
        assert(spec_groups_text(gs, lo, k + 1) =~= spec_groups_text(gs, lo, k) + seq![':']
            + spec_group_text(gs[k]));
    }
}

/// Appends groups `lo` to `hi` (exclusive), joined with `:`.
fn push_groups_range(out: &mut Vec<char>, g: &Vec<u16>, lo: usize, hi: usize)
    requires
        g@.len() == 8,
        lo <= hi <= 8,
    ensures
        final(out)@ == old(out)@ + spec_groups_text(g@, lo as int, hi as int),
{
    let mut k: usize = lo;
    while k < hi
        invariant
            g@.len() == 8,
            lo <= k <= hi <= 8,
            out@ == old(out)@ + spec_groups_text(g@, lo as int, k as int),
        decreases hi - k,
    {
        if k > lo {
            out.push(':');
        }
        push_group(out, g[k]);
        proof {
            lemma_groups_text_snoc(g@, lo as int, k as int);
            assert(out@ =~= old(out)@ + spec_groups_text(g@, lo as int, k + 1 as int));
        }
        k = k + 1;
    }
}

} // verus!
