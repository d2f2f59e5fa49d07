//! Identification of external packages: an immutable, versioned bundle of
//! files addressable by namespace, name and version.

use vstd::prelude::*;

verus! {

/// The decimal digit character for a value in `0..10`.
pub open spec fn dec_digit(d: int) -> char {
    if d == 0 {
        '0'
    } else if d == 1 {
        '1'
    } else if d == 2 {
        '2'
    } else if d == 3 {
        '3'
    } else if d == 4 {
        '4'
    } else if d == 5 {
        '5'
    } else if d == 6 {
        '6'
    } else if d == 7 {
        '7'
    } else if d == 8 {
        '8'
    } else {
        '9'
    }
}

/// The decimal text of a non-negative integer, without leading zeros.
pub open spec fn dec_chars(n: int) -> Seq<char>
    recommends
        n >= 0,
    decreases n,
{
    if n < 10 {
        seq![dec_digit(n)]
    } else {
        dec_chars(n / 10).push(dec_digit(n % 10))
    }
}

/// The decimal digits accumulated lowest-first, read back in printing order.
spec fn rev_digit_chars(ds: Seq<u8>) -> Seq<char> {
    Seq::new(ds.len(), |i: int| dec_digit(ds[ds.len() - 1 - i] as int))
}

/// The single-character text of a decimal digit value.
fn digit_str(d: u8) -> (r: &'static str)
    requires
        d < 10,
    ensures
        r@ == seq![dec_digit(d as int)],
{
    proof {
        reveal_strlit("0");
        reveal_strlit("1");
        reveal_strlit("2");
        reveal_strlit("3");
        reveal_strlit("4");
        reveal_strlit("5");
        reveal_strlit("6");
        reveal_strlit("7");
        reveal_strlit("8");
        reveal_strlit("9");
    }
    let r: &'static str = if d == 0 {
        "0"
    } else if d == 1 {
        "1"
    } else if d == 2 {
        "2"
    } else if d == 3 {
        "3"
    } else if d == 4 {
        "4"
    } else if d == 5 {
        "5"
    } else if d == 6 {
        "6"
    } else if d == 7 {
        "7"
    } else if d == 8 {
        "8"
    } else {
        "9"
    };
    proof {
        assert(r@ =~= seq![dec_digit(d as int)]);
    }
    r
}

/// Formats a number as decimal text.
pub fn u32_to_string(x: u32) -> (r: String)
    ensures
        r@ == dec_chars(x as int),
{
    usize_to_string(x as usize)
}

/// Formats a machine-sized number as decimal text.
pub fn usize_to_string(x: usize) -> (r: String)
    ensures
        r@ == dec_chars(x as int),
{
    let mut digits: Vec<u8> = Vec::new();
    let mut v = x;
    if v == 0 {
        digits.push(0);
    }
    while v > 0
        invariant
            v == 0 ==> digits@.len() > 0 && dec_chars(x as int) == rev_digit_chars(digits@),
            v > 0 ==> dec_chars(x as int) == dec_chars(v as int) + rev_digit_chars(digits@),
            forall|k: int| 0 <= k < digits@.len() ==> digits@[k] < 10,
        decreases v,
    {
        let ghost pre = digits@;
        let d = (v % 10) as u8;
        digits.push(d);
        proof {
            assert(rev_digit_chars(digits@) =~= seq![dec_digit(d as int)] + rev_digit_chars(pre));
            if v >= 10 {
                assert(dec_chars(v as int) == dec_chars(v as int / 10).push(
                    dec_digit(v as int % 10),
                ));
                assert(dec_chars(v as int) + rev_digit_chars(pre) =~= dec_chars(v as int / 10)
                    + rev_digit_chars(digits@));
            } else {
                assert(dec_chars(v as int) + rev_digit_chars(pre) =~= rev_digit_chars(digits@));
            }
        }
        v = v / 10;
    }
    let mut out = String::new();
    let mut k: usize = 0;
    let len = digits.len();
    while k < len
        invariant
            k <= len,
            len == digits@.len(),
            forall|j: int| 0 <= j < digits@.len() ==> digits@[j] < 10,
            out@ == rev_digit_chars(digits@).take(k as int),
        decreases len - k,
    {
        out.append(digit_str(digits[len - 1 - k]));
        proof {
            assert(out@ =~= rev_digit_chars(digits@).take(k as int + 1));
        }
        k = k + 1;
    }
    proof {
        assert(rev_digit_chars(digits@).take(digits@.len() as int) =~= rev_digit_chars(digits@));
    }
    out
}

/// A package version: major, minor and patch numbers.
#[derive(Clone, Copy, Debug, PartialEq, Eq, Structural)]
pub struct Version {
    pub major: u32,
    pub minor: u32,
    pub patch: u32,
}

impl Version {
    /// The `major.minor.patch` text of the version.
    pub open spec fn text_spec(&self) -> Seq<char> {
        dec_chars(self.major as int) + seq!['.'] + dec_chars(self.minor as int) + seq!['.']
            + dec_chars(self.patch as int)
    }

    /// Formats the version as `major.minor.patch`.
    pub fn to_text(&self) -> (r: String)
        ensures
            r@ == self.text_spec(),
    {
        proof {
            reveal_strlit(".");
        }
        let mut out = u32_to_string(self.major);
        out.append(".");
        let minor = u32_to_string(self.minor);
        out.append(minor.as_str());
        out.append(".");
        let patch = u32_to_string(self.patch);
        out.append(patch.as_str());
        proof {
            assert(out@ =~= self.text_spec());
        }
        out
    }
}

/// The mathematical identity of a package specification.
#[verifier::ext_equal]
pub struct PackageSpecView {
    pub namespace: Seq<char>,
    pub name: Seq<char>,
    pub version: Version,
}

/// Identifies an external, versioned, immutable bundle of files.
///
/// Only the `preview` namespace is network-fetchable; packages of any other
/// namespace must already exist locally or resolution fails.
#[derive(Debug)]
pub struct PackageSpec {
    pub namespace: String,
    pub name: String,
    pub version: Version,
}

impl View for PackageSpec {
    type V = PackageSpecView;

    open spec fn view(&self) -> PackageSpecView {
        PackageSpecView { namespace: self.namespace@, name: self.name@, version: self.version }
    }
}

impl Clone for PackageSpec {
    fn clone(&self) -> (r: Self)
        ensures
            r == *self,
    {
        PackageSpec {
            namespace: self.namespace.clone(),
            name: self.name.clone(),
            version: self.version,
        }
    }
}

/// The qualifier string `@namespace/name:major.minor.patch` under which all
/// storage operations for a package are attributed.
pub open spec fn qualifier_spec(s: PackageSpecView) -> Seq<char> {
    seq!['@'] + s.namespace + seq!['/'] + s.name + seq![':'] + s.version.text_spec()
}

impl PackageSpec {
    /// Formats the qualifier string `@namespace/name:major.minor.patch`.
    pub fn to_qualifier(&self) -> (r: String)
        ensures
            r@ == qualifier_spec(self@),
    {
        proof {
            reveal_strlit("@");
            reveal_strlit("/");
            reveal_strlit(":");
        }
        let mut out = "@".to_owned();
        out.append(self.namespace.as_str());
        out.append("/");
        out.append(self.name.as_str());
        out.append(":");
        let version = self.version.to_text();
        out.append(version.as_str());
        proof {
            assert(out@ =~= qualifier_spec(self@));
        }
        out
    }

    /// Whether the package lives in the network-fetchable `preview`
    /// namespace.
    pub fn is_preview(&self) -> (r: bool)
        ensures
            r == (self@.namespace == "preview"@),
    {
        self.namespace == "preview".to_owned()
    }

    /// Whether two specifications identify the same package.
    pub fn matches(&self, other: &PackageSpec) -> (r: bool)
        ensures
            r == (self@ == other@),
    {
        let r = self.namespace == other.namespace && self.name == other.name
            && self.version.major == other.version.major && self.version.minor
            == other.version.minor && self.version.patch == other.version.patch;
        proof {
            if r {
                assert(self@ =~= other@);
            }
        }
        r
    }
}

} // verus!
