//! Semantic versions, modelled as plain values.
//!
//! A version is kept as its three numeric components plus the optional
//! pre-release and build-metadata strings; its canonical textual form
//! (`major.minor.patch`, then `-pre` and `+build` when present) is produced
//! by a verified renderer. Canonical semantic versions contain no
//! shell-special characters, which is why version values may be exported
//! unquoted.

use vstd::prelude::*;
use vstd::string::*;

verus! {

/// The character standing for a single decimal digit value.
pub open spec fn digit_char(d: nat) -> char {
    if d == 0 {
        '0'
    } else if d == 1 {
        '1'
    } else if d == 2 {
        '2'
    } else if d == 3 {
        '3'
    } else if d == 4 {
        '4'
    } else if d == 5 {
        '5'
    } else if d == 6 {
        '6'
    } else if d == 7 {
        '7'
    } else if d == 8 {
        '8'
    } else {
        '9'
    }
}

/// The decimal rendering of a natural number, most significant digit first,
/// with no leading zeros (a lone `0` for zero).
pub open spec fn dec_digits(n: nat) -> Seq<char>
    decreases n,
{
    if n < 10 {
        seq![digit_char(n)]
    } else {
        dec_digits(n / 10) + seq![digit_char(n % 10)]
    }
}

/// A semantic version: `major.minor.patch` with optional pre-release and
/// build metadata. An empty `pre` or `build` string means the component is
/// absent.
pub struct Version {
    pub major: u64,
    pub minor: u64,
    pub patch: u64,
    pub pre: String,
    pub build: String,
}

/// The canonical string form of a version: the three numeric components
/// joined by dots, then `-pre` if a pre-release is present and `+build` if
/// build metadata is present.
pub open spec fn version_chars(v: Version) -> Seq<char> {
    dec_digits(v.major as nat) + seq!['.'] + dec_digits(v.minor as nat) + seq!['.'] + dec_digits(
        v.patch as nat,
    ) + (if v.pre@.len() > 0 {
        seq!['-'] + v.pre@
    } else {
        Seq::<char>::empty()
    }) + (if v.build@.len() > 0 {
        seq!['+'] + v.build@
    } else {
        Seq::<char>::empty()
    })
}

/// The one-character string for a decimal digit.
fn digit_str(d: u64) -> (r: &'static str)
    requires
        d < 10,
    ensures
        r@ == seq![digit_char(d as nat)],
{
    if d == 0 {
        proof {
            reveal_strlit("0");
            assert("0"@ =~= seq![digit_char(0)]);
        }
        "0"
    } else if d == 1 {
        proof {
            reveal_strlit("1");
            assert("1"@ =~= seq![digit_char(1)]);
        }
        "1"
    } else if d == 2 {
        proof {
            reveal_strlit("2");
            assert("2"@ =~= seq![digit_char(2)]);
        }
        "2"
    } else if d == 3 {
        proof {
            reveal_strlit("3");
            assert("3"@ =~= seq![digit_char(3)]);
        }
        "3"
    } else if d == 4 {
        proof {
            reveal_strlit("4");
            assert("4"@ =~= seq![digit_char(4)]);
        }
        "4"
    } else if d == 5 {
        proof {
            reveal_strlit("5");
            assert("5"@ =~= seq![digit_char(5)]);
        }
        "5"
    } else if d == 6 {
        proof {
            reveal_strlit("6");
            assert("6"@ =~= seq![digit_char(6)]);
        }
        "6"
    } else if d == 7 {
        proof {
            reveal_strlit("7");
            assert("7"@ =~= seq![digit_char(7)]);
        }
        "7"
    } else if d == 8 {
        proof {
            reveal_strlit("8");
            assert("8"@ =~= seq![digit_char(8)]);
        }
        "8"
    } else {
        proof {
            reveal_strlit("9");
            assert("9"@ =~= seq![digit_char(9)]);
        }
        "9"
    }
}

/// Appends the decimal rendering of `n` to `out`.
pub fn push_decimal(out: &mut String, n: u64)
    ensures
        final(out)@ == old(out)@ + dec_digits(n as nat),
    decreases n,
{
    if n < 10 {
        out.append(digit_str(n));
    } else {
        push_decimal(out, n / 10);
        out.append(digit_str(n % 10));
        proof {
            assert(out@ =~= old(out)@ + dec_digits(n as nat));
        }
    }
}

impl Version {
    /// A version with the given numeric components and no pre-release or
    /// build metadata.
    pub fn new(major: u64, minor: u64, patch: u64) -> (r: Version)
        ensures
            r.major == major,
            r.minor == minor,
            r.patch == patch,
            r.pre@ =~= Seq::<char>::empty(),
            r.build@ =~= Seq::<char>::empty(),
    {
        Version { major, minor, patch, pre: String::new(), build: String::new() }
    }

    /// Renders the canonical string form of the version.
    pub fn to_version_string(&self) -> (r: String)
        ensures
            r@ == version_chars(*self),
    {
        let mut out = String::new();
        push_decimal(&mut out, self.major);
        out.append(".");
        push_decimal(&mut out, self.minor);
        out.append(".");
        push_decimal(&mut out, self.patch);
        if !self.pre.as_str().is_empty() {
            out.append("-");
            out.append(self.pre.as_str());
        }
        if !self.build.as_str().is_empty() {
            out.append("+");
            out.append(self.build.as_str());
        }
        proof {
            reveal_strlit(".");
            reveal_strlit("-");
            reveal_strlit("+");
            assert("."@ =~= seq!['.']);
            assert("-"@ =~= seq!['-']);
            assert("+"@ =~= seq!['+']);
            assert(out@ =~= version_chars(*self));
        }
        out
    }
}

} // verus!
