//! Semantic versions and the pure bump arithmetic over them.

use vstd::prelude::*;

use crate::bumping::BumpType;
use crate::text::string_from_chars;

verus! {

/// A semantic version: three non-negative counters.
#[derive(Copy, Clone, Debug, Eq, PartialEq, Structural)]
pub struct Version {
    pub major: u64,
    pub minor: u64,
    pub patch: u64,
}

/// Extension method for version-like values, adding the ability to perform a
/// version bump according to a `BumpType`.
pub trait Bump: Sized {
    /// Whether the bump can be performed without overflowing a counter.
    spec fn can_bump(&self, bt: BumpType) -> bool;

    /// The value after the bump.
    spec fn spec_bump(&self, bt: BumpType) -> Self;

    /// Perform the bump: a pure function of the value and the bump type.
    fn bump(self, bt: &BumpType) -> (r: Self)
        requires
            self.can_bump(*bt),
        ensures
            r == self.spec_bump(*bt),
    ;
}

impl Bump for Version {
    open spec fn can_bump(&self, bt: BumpType) -> bool {
        match bt {
            BumpType::Major => self.major < u64::MAX,
            BumpType::Minor => self.minor < u64::MAX,
            BumpType::Patch => self.patch < u64::MAX,
            BumpType::NoBump => true,
        }
    }

    /// Major bumps increment `major` and reset the rest; minor bumps increment
    /// `minor` and reset `patch`; patch bumps increment `patch`; no bump leaves
    /// the version unchanged.
    open spec fn spec_bump(&self, bt: BumpType) -> Version {
        match bt {
            BumpType::Major => Version { major: (self.major + 1) as u64, minor: 0, patch: 0 },
            BumpType::Minor => Version {
                major: self.major,
                minor: (self.minor + 1) as u64,
                patch: 0,
            },
            BumpType::Patch => Version {
                major: self.major,
                minor: self.minor,
                patch: (self.patch + 1) as u64,
            },
            BumpType::NoBump => *self,
        }
    }

    fn bump(self, bt: &BumpType) -> (r: Self) {
        match bt {
            BumpType::Major => Version { major: self.major + 1, minor: 0, patch: 0 },
            BumpType::Minor => Version { major: self.major, minor: self.minor + 1, patch: 0 },
            BumpType::Patch => Version {
                major: self.major,
                minor: self.minor,
                patch: self.patch + 1,
            },
            BumpType::NoBump => self,
        }
    }
}

/// The decimal digits.
pub open spec fn spec_digits() -> Seq<char> {
    "0123456789"@
}

/// The decimal notation of `n` (defined for non-negative numbers).
pub open spec fn spec_dec(n: int) -> Seq<char>
    decreases n,
{
    if n < 0 {
        Seq::empty()
    } else if n < 10 {
        seq![spec_digits()[n]]
    } else {
        spec_dec(n / 10) + seq![spec_digits()[n % 10]]
    }
}

/// The character of one decimal digit.
fn digit_char(d: u64) -> (r: char)
    requires
        d < 10,
    ensures
        r == spec_digits()[d as int],
{
    proof {
        reveal_strlit("0123456789");
    }
    vstd::string::StrSliceExecFns::get_char("0123456789", d as usize)
}

/// Appends the decimal notation of `n` to `out`.
pub fn push_dec(n: u64, out: &mut Vec<char>)
    ensures
        final(out)@ == old(out)@ + spec_dec(n as int),
    decreases n,
{
    if n >= 10 {
        push_dec(n / 10, out);
    }
    out.push(digit_char(n % 10));
    proof {
        if n >= 10 {
            assert(final(out)@ =~= old(out)@ + (spec_dec(n as int / 10) + seq![
                spec_digits()[n as int % 10],
            ]));
        } else {
            assert(final(out)@ =~= old(out)@ + spec_dec(n as int));
        }
    }
}

/// `s` with `'0'` prepended until it is at least `width` long.
pub open spec fn spec_zero_pad(s: Seq<char>, width: int) -> Seq<char>
    decreases width - s.len(),
{
    if width <= s.len() {
        s
    } else {
        spec_zero_pad(seq!['0'] + s, width)
    }
}

proof fn lemma_zero_pad_unfold(s: Seq<char>, width: int, zeros: Seq<char>)
    requires
        zeros.len() + s.len() >= width,
        forall|j: int| 0 <= j < zeros.len() ==> zeros[j] == '0',
        zeros.len() == 0 || s.len() < width,
        zeros.len() == 0 ==> s.len() >= width,
        zeros.len() > 0 ==> zeros.len() + s.len() == width,
    ensures
        spec_zero_pad(s, width) == zeros + s,
    decreases zeros.len(),
{
    if zeros.len() == 0 {
        assert(zeros + s =~= s);
    } else {
        let rest = zeros.drop_last();
        assert(zeros.last() == '0');
        assert(zeros + s =~= rest + (seq!['0'] + s));
        lemma_zero_pad_unfold(seq!['0'] + s, width, rest);
    }
}

/// The decimal notation of `n`, left-padded with zeroes to at least `width`
/// characters.
pub fn padded_dec(n: u64, width: usize) -> (r: Vec<char>)
    ensures
        r@ == spec_zero_pad(spec_dec(n as int), width as int),
{
    let mut digits: Vec<char> = Vec::new();
    push_dec(n, &mut digits);
    proof {
        assert(digits@ =~= spec_dec(n as int));
    }
    let mut r: Vec<char> = Vec::new();
    if digits.len() < width {
        let missing = width - digits.len();
        while r.len() < missing
            invariant
                r@.len() <= missing,
                forall|j: int| 0 <= j < r@.len() ==> r@[j] == '0',
            decreases missing - r@.len(),
        {
            r.push('0');
        }
        proof {
            lemma_zero_pad_unfold(digits@, width as int, r@);
        }
    } else {
        proof {
            lemma_zero_pad_unfold(digits@, width as int, r@);
        }
    }
    let mut d = digits;
    r.append(&mut d);
    r
}

/// The dotted-triple notation of a version.
pub open spec fn spec_version_string(v: Version) -> Seq<char> {
    spec_dec(v.major as int) + seq!['.'] + spec_dec(v.minor as int) + seq!['.'] + spec_dec(
        v.patch as int,
    )
}

impl Version {
    /// The version as `major.minor.patch`.
    pub fn version_string(&self) -> (r: String)
        ensures
            r@ == spec_version_string(*self),
    {
        let mut v: Vec<char> = Vec::new();
        push_dec(self.major, &mut v);
        v.push('.');
        push_dec(self.minor, &mut v);
        v.push('.');
        push_dec(self.patch, &mut v);
        proof {
            assert(v@ =~= spec_version_string(*self));
        }
        string_from_chars(&v)
    }
}

/// The line the tool prints: the bumped version when an old version was
/// supplied, the bare name of the bump otherwise.
pub fn output_line(new_version: Option<&Version>, bump: BumpType) -> (r: String)
    ensures
        match new_version {
            Some(v) => r@ == spec_version_string(*v),
            None => r@ == crate::bumping::spec_bump_name(bump),
        },
{
    match new_version {
        Some(v) => v.version_string(),
        None => bump.name().to_owned(),
    }
}

} // verus!
