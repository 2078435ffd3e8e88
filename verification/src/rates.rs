//! The exchange-rate snapshot: a dated table of currency rates relative to a
//! base currency, valid for one calendar day. Rates are carried as the raw
//! bit patterns of binary64 values, so that the table and its rules stay in
//! verified code; the caller that installs the resolver materializes the
//! numbers at the boundary.

use vstd::prelude::*;
use vstd::string::StringSliceAdditionalSpecFns;
use vstd::utf8::decode_utf8;

verus! {

/// Whether two strings hold the same characters. Decided byte for byte over
/// the UTF-8 encodings, which determine the character sequences exactly.
pub fn str_eq(a: &str, b: &str) -> (r: bool)
    ensures
        r == (a@ == b@),
{
    proof {
        vstd::utf8::encode_utf8_decode_utf8(a@);
        vstd::utf8::encode_utf8_decode_utf8(b@);
    }
    let ab = a.as_bytes();
    let bb = b.as_bytes();
    if ab.len() != bb.len() {
        return false;
    }
    let mut i: usize = 0;
    while i < ab.len()
        invariant
            ab@ == a.spec_bytes(),
            bb@ == b.spec_bytes(),
            ab@.len() == bb@.len(),
            i <= ab@.len(),
            forall|j: int| 0 <= j < i ==> ab@[j] == bb@[j],
            decode_utf8(a.spec_bytes()) == a@,
            decode_utf8(b.spec_bytes()) == b@,
        decreases ab@.len() - i,
    {
        if ab[i] != bb[i] {
            return false;
        }
        i += 1;
    }
    proof {
        assert(a.spec_bytes() =~= b.spec_bytes());
    }
    true
}

/// The bit patterns of positive finite binary64 values: sign bit clear,
/// exponent not all ones, and not the pattern of zero.
pub open spec fn rate_bits_positive_finite(bits: u64) -> bool {
    0 < bits < 0x7FF0_0000_0000_0000u64
}

/// Executable form of `rate_bits_positive_finite`.
pub fn rate_bits_ok(bits: u64) -> (r: bool)
    ensures
        r == rate_bits_positive_finite(bits),
{
    0 < bits && bits < 0x7FF0_0000_0000_0000u64
}

/// A valid rate table: currency codes pairwise distinct, every rate the bit
/// pattern of a positive finite value.
pub open spec fn valid_rate_table(rates: Seq<(String, u64)>) -> bool {
    &&& forall|i: int, j: int|
        0 <= i < j < rates.len() ==> rates[i].0@ != rates[j].0@
    &&& forall|i: int| 0 <= i < rates.len() ==> rate_bits_positive_finite(rates[i].1)
}

/// A dated table of exchange rates relative to `base`, valid for the one
/// calendar day named by `date` (a local calendar-day string).
pub struct RateSnapshot {
    pub date: String,
    pub base: String,
    pub rates: Vec<(String, u64)>,
}

impl RateSnapshot {
    /// Well-formedness: the table is valid as `valid_rate_table` says.
    pub open spec fn wf(self) -> bool {
        valid_rate_table(self.rates@)
    }

    /// Freshness: the snapshot counts as current exactly on the calendar day
    /// whose string equals its date — string equality, not elapsed time.
    pub open spec fn fresh_on(self, today: Seq<char>) -> bool {
        self.date@ == today
    }

    /// Builds a snapshot after checking the table: distinct codes, every
    /// rate positive and finite. An invalid table yields nothing, exactly
    /// when `valid_rate_table` fails.
    pub fn new(date: String, base: String, rates: Vec<(String, u64)>) -> (r: Option<RateSnapshot>)
        ensures
            match r {
                Some(s) => {
                    &&& s.date == date
                    &&& s.base == base
                    &&& s.rates == rates
                    &&& s.wf()
                },
                None => !valid_rate_table(rates@),
            },
    {
        let n = rates.len();
        let mut i: usize = 0;
        while i < n
            invariant
                n == rates@.len(),
                i <= n,
                forall|p: int, q: int| 0 <= p < q < n && p < i ==> rates@[p].0@ != rates@[q].0@,
                forall|p: int| 0 <= p < i ==> rate_bits_positive_finite(rates@[p].1),
            decreases n - i,
        {
            if !rate_bits_ok(rates[i].1) {
                return None;
            }
            let mut j: usize = i + 1;
            while j < n
                invariant
                    n == rates@.len(),
                    i < j <= n,
                    forall|q: int| i < q < j ==> rates@[i as int].0@ != rates@[q].0@,
                decreases n - j,
            {
                if str_eq(rates[i].0.as_str(), rates[j].0.as_str()) {
                    return None;
                }
                j += 1;
            }
            i += 1;
        }
        Some(RateSnapshot { date, base, rates })
    }

    /// Whether the snapshot is current today: exactly the `fresh_on` rule.
    pub fn is_fresh(&self, today: &str) -> (r: bool)
        ensures
            r == self.fresh_on(today@),
    {
        str_eq(self.date.as_str(), today)
    }

    /// The recorded rate for a currency code: the bits stored beside the
    /// code if the table holds it, nothing if it does not.
    pub fn rate_bits(&self, code: &str) -> (r: Option<u64>)
        ensures
            match r {
                Some(bits) => exists|i: int|
                    0 <= i < self.rates@.len() && self.rates@[i].0@ == code@
                        && self.rates@[i].1 == bits,
                None => forall|i: int|
                    0 <= i < self.rates@.len() ==> self.rates@[i].0@ != code@,
            },
    {
        let n = self.rates.len();
        let mut i: usize = 0;
        while i < n
            invariant
                n == self.rates@.len(),
                i <= n,
                forall|j: int| 0 <= j < i ==> self.rates@[j].0@ != code@,
            decreases n - i,
        {
            if str_eq(self.rates[i].0.as_str(), code) {
                return Some(self.rates[i].1);
            }
            i += 1;
        }
        None
    }
}

/// The cache-acceptance rule: a snapshot read back from the cache is kept
/// only if it is dated today; a stale or missing one counts as absent, and
/// the caller then falls back to fetching a fresh table.
pub fn accept_cached(snapshot: Option<RateSnapshot>, today: &str) -> (r: Option<RateSnapshot>)
    ensures
        match r {
            Some(s) => snapshot == Some(s) && s.fresh_on(today@),
            None => match snapshot {
                Some(s) => !s.fresh_on(today@),
                None => true,
            },
        },
{
    match snapshot {
        Some(s) => {
            if s.is_fresh(today) {
                Some(s)
            } else {
                None
            }
        },
        None => None,
    }
}

/// The freshness round trip: a snapshot dated `today` is accepted by the
/// freshness rule on that day and rejected on any other day, independent of
/// any elapsed time.
pub proof fn lemma_freshness_round_trip(s: RateSnapshot, today: Seq<char>, other_day: Seq<char>)
    requires
        s.date@ == today,
        today != other_day,
    ensures
        s.fresh_on(today),
        !s.fresh_on(other_day),
{
}

} // verus!
