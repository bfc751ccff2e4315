//! Parsing and range-checking of the layout version a producer reports.
//!
//! A simulator embeds its shared-memory layout version as a fixed-width,
//! NUL-padded string of UTF-16 code units, such as `"1.8"`.  The reader
//! accepts a producer only when the reported `major.minor` pair lies inside
//! the capability's supported range, compared as `major * 2^16 + minor` so
//! that minor versions order correctly within a major version.

use vstd::prelude::*;

use crate::TelemetryError;

verus! {

/// The inclusive `[min, max]` version range one capability supports.
#[derive(Clone, Copy, Debug, PartialEq, Eq, Structural)]
pub struct VersionBounds {
    pub major_min: u16,
    pub minor_min: u16,
    pub major_max: u16,
    pub minor_max: u16,
}

/// An ASCII decimal digit, as a UTF-16 code unit.
pub open spec fn digit_unit(u: u16) -> bool {
    48 <= u <= 57
}

pub open spec fn all_digit_units(c: Seq<u16>) -> bool {
    forall|i: int| 0 <= i < c.len() ==> digit_unit(c[i])
}

/// The number a sequence of decimal digit units denotes, most significant first.
pub open spec fn digits_value(c: Seq<u16>) -> nat
    decreases c.len(),
{
    if c.len() == 0 {
        0
    } else {
        digits_value(c.drop_last()) * 10 + (c.last() - 48) as nat
    }
}

/// A dot-separated component that `u16::from_str` would accept here:
/// non-empty, digits only, and within `u16` range.
pub open spec fn valid_component(c: Seq<u16>) -> bool {
    c.len() > 0 && all_digit_units(c) && digits_value(c) <= 0xFFFF
}

/// Splitting on `'.'` (code unit 46): always at least one component, and a
/// trailing dot yields a trailing empty component.
pub open spec fn split_on_dots(s: Seq<u16>) -> Seq<Seq<u16>>
    decreases s.len(),
{
    if s.len() == 0 {
        seq![Seq::<u16>::empty()]
    } else {
        let r = split_on_dots(s.drop_last());
        if s.last() == 46 {
            r.push(Seq::<u16>::empty())
        } else {
            r.update(r.len() - 1, r.last().push(s.last()))
        }
    }
}

pub proof fn lemma_split_on_dots_len(s: Seq<u16>)
    ensures
        split_on_dots(s).len() >= 1,
    decreases s.len(),
{
    if s.len() > 0 {
        lemma_split_on_dots_len(s.drop_last());
    }
}

/// How many code units stand before the first NUL (all of them if none).
pub open spec fn nul_free_prefix_len(s: Seq<u16>) -> int
    decreases s.len(),
{
    if s.len() == 0 {
        0
    } else if s[0] == 0 {
        0
    } else {
        1 + nul_free_prefix_len(s.drop_first())
    }
}

proof fn lemma_nul_free_prefix_len_at(s: Seq<u16>, i: int)
    requires
        0 <= i <= s.len(),
        forall|k: int| 0 <= k < i ==> s[k] != 0,
        i == s.len() || s[i] == 0,
    ensures
        nul_free_prefix_len(s) == i,
    decreases s.len(),
{
    if s.len() > 0 && i > 0 {
        let t = s.drop_first();
        assert(forall|k: int| 0 <= k < i - 1 ==> t[k] == s[k + 1] && t[k] != 0);
        lemma_nul_free_prefix_len_at(t, i - 1);
    }
}

/// The dot-separated components of the version text (the units before the
/// first NUL).
pub open spec fn version_components(units: Seq<u16>) -> Seq<Seq<u16>> {
    split_on_dots(units.take(nul_free_prefix_len(units)))
}

/// What parsing the embedded version text yields: the `(major, minor)` pair,
/// or the error describing why the text is unusable.
pub open spec fn spec_parse_version(units: Seq<u16>) -> Result<(u16, u16), TelemetryError> {
    let comps = version_components(units);
    if exists|i: int| 0 <= i < comps.len() && !valid_component(comps[i]) {
        Err(TelemetryError::MalformedVersion)
    } else if comps.len() == 0 {
        Err(TelemetryError::MissingMajorVersion)
    } else if comps.len() == 1 {
        Err(TelemetryError::MissingMinorVersion)
    } else {
        Ok((digits_value(comps[0]) as u16, digits_value(comps[1]) as u16))
    }
}

proof fn lemma_digits_value_take_le(c: Seq<u16>, j: int)
    requires
        0 <= j <= c.len(),
    ensures
        digits_value(c.take(j)) <= digits_value(c),
    decreases c.len() - j,
{
    if j == c.len() {
        assert(c.take(j) =~= c);
    } else {
        lemma_digits_value_take_le(c, j + 1);
        assert(c.take(j + 1).drop_last() =~= c.take(j));
        assert(digits_value(c.take(j)) <= digits_value(c.take(j + 1)));
    }
}

/// Parses one dot-separated component, exactly as the version text demands:
/// `Some` with its value when it is non-empty, digits only, and fits `u16`;
/// `None` otherwise.
fn parse_component(c: &Vec<u16>) -> (r: Option<u16>)
    ensures
        valid_component(c@) ==> r == Some((digits_value(c@) as u16)),
        !valid_component(c@) ==> r is None,
{
    if c.len() == 0 {
        return None;
    }
    let mut acc: u32 = 0;
    let mut j: usize = 0;
    while j < c.len()
        invariant
            0 <= j <= c@.len(),
            all_digit_units(c@.take(j as int)),
            acc == digits_value(c@.take(j as int)),
            acc <= 0xFFFF,
        decreases c@.len() - j,
    {
        let u = c[j];
        proof {
            assert(c@.take(j + 1).drop_last() =~= c@.take(j as int));
            assert(c@.take(j + 1).last() == c@[j as int]);
        }
        if !(48 <= u && u <= 57) {
            proof {
                assert(!digit_unit(c@[j as int]));
            }
            return None;
        }
        acc = acc * 10 + ((u - 48) as u32);
        if acc > 0xFFFF {
            proof {
                lemma_digits_value_take_le(c@, j + 1);
            }
            return None;
        }
        j = j + 1;
    }
    proof {
        assert(c@.take(c@.len() as int) =~= c@);
    }
    Some(acc as u16)
}

/// Parses the fixed-width, NUL-padded version text into its major and minor
/// numbers.  Every dot-separated component before the first NUL must be a
/// decimal number fitting `u16`, and at least two components must be present.
pub fn parse_version(units: &[u16; 15]) -> (r: Result<(u16, u16), TelemetryError>)
    ensures
        r == spec_parse_version(units@),
{
    // Find the NUL padding, if any.
    let mut n: usize = 0;
    while n < 15 && units[n] != 0
        invariant
            0 <= n <= 15,
            units@.len() == 15,
            forall|k: int| 0 <= k < n ==> units@[k] != 0,
        decreases 15 - n,
    {
        n = n + 1;
    }
    proof {
        lemma_nul_free_prefix_len_at(units@, n as int);
    }

    // Split the prefix on dots.
    let mut done: Vec<Vec<u16>> = Vec::new();
    let mut cur: Vec<u16> = Vec::new();
    let ghost mut comps_done: Seq<Seq<u16>> = Seq::empty();
    let mut i: usize = 0;
    proof {
        assert(units@.take(0) =~= Seq::<u16>::empty());
    }
    while i < n
        invariant
            0 <= i <= n <= 15,
            units@.len() == 15,
            comps_done.push(cur@) == split_on_dots(units@.take(i as int)),
            comps_done.len() == done@.len(),
            forall|k: int| 0 <= k < done@.len() ==> comps_done[k] == done@[k]@,
        decreases n - i,
    {
        let u = units[i];
        proof {
            assert(units@.take(i + 1).drop_last() =~= units@.take(i as int));
            assert(units@.take(i + 1).last() == units@[i as int]);
        }
        if u == 46 {
            let ghost prev = comps_done;
            let ghost cur_view = cur@;
            done.push(cur);
            cur = Vec::new();
            proof {
                comps_done = prev.push(cur_view);
                assert(comps_done.push(cur@) =~= split_on_dots(units@.take(i + 1)));
            }
        } else {
            let ghost old_cur = cur@;
            cur.push(u);
            proof {
                let r = split_on_dots(units@.take(i as int));
                assert(r == comps_done.push(old_cur));
                assert(r.len() - 1 == comps_done.len());
                assert(r.last() == old_cur);
                assert(comps_done.push(cur@) =~= r.update(r.len() - 1, r.last().push(u)));
            }
        }
        i = i + 1;
    }
    let ghost last_view = cur@;
    done.push(cur);
    let ghost comps = version_components(units@);
    proof {
        assert(comps == comps_done.push(last_view));
        assert(comps.len() == done@.len());
        assert(forall|k: int| 0 <= k < done@.len() ==> comps[k] == done@[k]@);
    }

    // Validate every component, then take the first two as major and minor.
    let mut k: usize = 0;
    while k < done.len()
        invariant
            0 <= k <= done@.len(),
            comps.len() == done@.len(),
            forall|j: int| 0 <= j < done@.len() ==> comps[j] == done@[j]@,
            comps == version_components(units@),
            forall|j: int| 0 <= j < k ==> valid_component(comps[j]),
        decreases done@.len() - k,
    {
        if parse_component(&done[k]).is_none() {
            proof {
                assert(!valid_component(comps[k as int]));
            }
            return Err(TelemetryError::MalformedVersion);
        }
        k = k + 1;
    }
    if done.len() == 0 {
        return Err(TelemetryError::MissingMajorVersion);
    }
    if done.len() == 1 {
        return Err(TelemetryError::MissingMinorVersion);
    }
    let major = match parse_component(&done[0]) {
        Some(v) => v,
        None => {
            proof {
                assert(false);
            }
            return Err(TelemetryError::MalformedVersion);
        },
    };
    let minor = match parse_component(&done[1]) {
        Some(v) => v,
        None => {
            proof {
                assert(false);
            }
            return Err(TelemetryError::MalformedVersion);
        },
    };
    Ok((major, minor))
}

/// A version pair packed so that pairs order lexicographically:
/// `major * 2^16 + minor`.
pub open spec fn packed_version(major: u16, minor: u16) -> int {
    major * 0x10000 + minor
}

/// Whether `major.minor` lies in the inclusive range the bounds describe.
pub open spec fn version_in_range(major: u16, minor: u16, b: VersionBounds) -> bool {
    packed_version(b.major_min, b.minor_min) <= packed_version(major, minor)
        <= packed_version(b.major_max, b.minor_max)
}

/// Compares a reported version pair against the supported range.
pub fn version_pair_in_range(major: u16, minor: u16, b: &VersionBounds) -> (r: bool)
    ensures
        r == version_in_range(major, minor, *b),
{
    let v: u32 = (major as u32) * 0x10000 + (minor as u32);
    let lo: u32 = (b.major_min as u32) * 0x10000 + (b.minor_min as u32);
    let hi: u32 = (b.major_max as u32) * 0x10000 + (b.minor_max as u32);
    lo <= v && v <= hi
}

/// What checking a reported version text against a supported range yields:
/// parse errors pass through; a parsed version outside the range is
/// `IncompatibleVersion`; otherwise the check succeeds.
pub open spec fn spec_check_version(units: Seq<u16>, b: VersionBounds) -> Result<
    (),
    TelemetryError,
> {
    match spec_parse_version(units) {
        Err(e) => Err(e),
        Ok((major, minor)) => if version_in_range(major, minor, b) {
            Ok(())
        } else {
            Err(TelemetryError::IncompatibleVersion { major, minor })
        },
    }
}

/// Checks a version text against a supported range; see [`spec_check_version`].
pub fn check_version_text(units: &[u16; 15], b: &VersionBounds) -> (r: Result<
    (),
    TelemetryError,
>)
    ensures
        r == spec_check_version(units@, *b),
{
    match parse_version(units) {
        Err(e) => Err(e),
        Ok((major, minor)) => if version_pair_in_range(major, minor, b) {
            Ok(())
        } else {
            Err(TelemetryError::IncompatibleVersion { major, minor })
        },
    }
}

} // verus!
