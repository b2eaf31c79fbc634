use vstd::prelude::*;

verus! {

/// A display unit for throughput, a power of 1000 bits per second.
#[derive(PartialEq, Eq, Structural, Clone, Copy, Debug)]
pub enum Unit {
    Bits,
    Kbits,
    Mbits,
    Gbits,
    Tbits,
    Pbits,
}

/// Label of a unit as the graph shows it.
pub open spec fn label_of(u: Unit) -> Seq<char> {
    match u {
        Unit::Bits => "bits"@,
        Unit::Kbits => "Kbits"@,
        Unit::Mbits => "Mbits"@,
        Unit::Gbits => "Gbits"@,
        Unit::Tbits => "Tbits"@,
        Unit::Pbits => "Pbits"@,
    }
}

impl Unit {
    /// The unit's label: `bits`, `Kbits`, `Mbits`, `Gbits`, `Tbits` or `Pbits`.
    pub fn label(&self) -> (r: String)
        ensures
            r@ == label_of(*self),
    {
        match self {
            Unit::Bits => String::from_str("bits"),
            Unit::Kbits => String::from_str("Kbits"),
            Unit::Mbits => String::from_str("Mbits"),
            Unit::Gbits => String::from_str("Gbits"),
            Unit::Tbits => String::from_str("Tbits"),
            Unit::Pbits => String::from_str("Pbits"),
        }
    }
}

/// Sum of the samples.
pub open spec fn total(s: Seq<u64>) -> nat
    decreases s.len(),
{
    if s.len() == 0 {
        0
    } else {
        total(s.drop_last()) + s.last() as nat
    }
}

/// The unit chosen for a window whose samples are in millionths of a megabit
/// per second, from its mean: above 1000^3 megabits petabits, above 1000^2
/// terabits, above 1000 gigabits, below 1000^-2 bits, below 1000^-1 kilobits,
/// else megabits. The mean is compared as `total > threshold * count`, so an
/// empty window stays in megabits.
pub open spec fn tier_of(s: Seq<u64>) -> Unit {
    let n = s.len();
    let t = total(s);
    if t > 1_000_000_000_000_000 * n {
        Unit::Pbits
    } else if t > 1_000_000_000_000 * n {
        Unit::Tbits
    } else if t > 1_000_000_000 * n {
        Unit::Gbits
    } else if t < n {
        Unit::Bits
    } else if t < 1_000 * n {
        Unit::Kbits
    } else {
        Unit::Mbits
    }
}

/// A sample in millionths of a megabit per second, re-expressed in millionths
/// of `u`; going to a larger unit rounds down.
pub open spec fn scaled_value(x: nat, u: Unit) -> nat {
    match u {
        Unit::Bits => x * 1_000_000,
        Unit::Kbits => x * 1_000,
        Unit::Mbits => x,
        Unit::Gbits => x / 1_000,
        Unit::Tbits => x / 1_000_000,
        Unit::Pbits => x / 1_000_000_000,
    }
}

fn total_exec(s: &Vec<u64>) -> (r: u128)
    ensures
        r == total(s@),
{
    let n = s.len();
    let mut acc: u128 = 0;
    let mut i: usize = 0;
    while i < n
        invariant
            i <= n == s@.len(),
            acc == total(s@.subrange(0, i as int)),
            acc <= i * (u64::MAX as int),
        decreases s@.len() - i,
    {
        assert(s@.subrange(0, i + 1).drop_last() =~= s@.subrange(0, i as int));
        assert(acc + s@[i as int] <= (i + 1) * (u64::MAX as int)) by (nonlinear_arith)
            requires
                acc <= i * (u64::MAX as int),
                s@[i as int] <= u64::MAX,
        {
        };
        assert((i + 1) * (u64::MAX as int) < u128::MAX) by (nonlinear_arith)
            requires
                i < n,
                n <= usize::MAX,
        {
        };
        acc = acc + s[i] as u128;
        i = i + 1;
    }
    assert(s@.subrange(0, i as int) =~= s@);
    acc
}

/// Picks the display unit for the window from its mean, and expresses every
/// sample in it (in millionths of that unit).
pub fn scale(samples: &Vec<u64>) -> (r: (Unit, Vec<u128>))
    ensures
        r.0 == tier_of(samples@),
        r.1@.len() == samples@.len(),
        forall|i: int| 0 <= i < samples@.len() ==> r.1@[i] == scaled_value(#[trigger] samples@[i] as nat, r.0),
{
    let t = total_exec(samples);
    let n = samples.len() as u128;
    let unit = if t > 1_000_000_000_000_000 * n {
        Unit::Pbits
    } else if t > 1_000_000_000_000 * n {
        Unit::Tbits
    } else if t > 1_000_000_000 * n {
        Unit::Gbits
    } else if t < n {
        Unit::Bits
    } else if t < 1_000 * n {
        Unit::Kbits
    } else {
        Unit::Mbits
    };
    let mut out: Vec<u128> = Vec::new();
    let mut i: usize = 0;
    while i < samples.len()
        invariant
            i <= samples@.len(),
            unit == tier_of(samples@),
            out@.len() == i,
            forall|j: int| 0 <= j < i ==> out@[j] == scaled_value(#[trigger] samples@[j] as nat, unit),
        decreases samples@.len() - i,
    {
        let x = samples[i] as u128;
        let v: u128 = match unit {
            Unit::Bits => x * 1_000_000,
            Unit::Kbits => x * 1_000,
            Unit::Mbits => x,
            Unit::Gbits => x / 1_000,
            Unit::Tbits => x / 1_000_000,
            Unit::Pbits => x / 1_000_000_000,
        };
        out.push(v);
        i = i + 1;
    }
    (unit, out)
}

/// A window whose mean lies in (1000, 1000^2] megabits per second is shown in
/// gigabits, each sample divided by 1000.
pub proof fn lemma_gigabit_band(s: Seq<u64>)
    requires
        1_000_000_000 * s.len() < total(s) <= 1_000_000_000_000 * s.len(),
    ensures
        tier_of(s) == Unit::Gbits,
        forall|i: int| 0 <= i < s.len() ==> scaled_value(#[trigger] s[i] as nat, tier_of(s)) == s[i] as nat / 1_000,
{
}

/// A window whose mean lies in [1000^-2, 1000^-1) megabits per second is shown
/// in kilobits, each sample multiplied by 1000.
pub proof fn lemma_kilobit_band(s: Seq<u64>)
    requires
        s.len() <= total(s) < 1_000 * s.len(),
    ensures
        tier_of(s) == Unit::Kbits,
        forall|i: int| 0 <= i < s.len() ==> scaled_value(#[trigger] s[i] as nat, tier_of(s)) == s[i] as nat * 1_000,
{
}

} // verus!
