use vstd::prelude::*;

verus! {

/// Exchange rates are held in millionths of a USD-denominated rate.
pub const RATE_SCALE: u64 = 1_000_000;

/// Looks up `code` in `entries`; a later entry overrides an earlier one.
pub open spec fn rate_lookup(entries: Seq<(Seq<char>, u64)>, code: Seq<char>) -> Option<u64>
    decreases entries.len(),
{
    if entries.len() == 0 {
        None
    } else if entries.last().0 == code {
        Some(entries.last().1)
    } else {
        rate_lookup(entries.drop_last(), code)
    }
}

/// The exchange-rate feed: a mapping from currency code to a positive rate.
pub struct ExchangeRateApiResponse {
    entries: Vec<(String, u64)>,
}

impl View for ExchangeRateApiResponse {
    type V = Map<Seq<char>, u64>;

    open spec fn view(&self) -> Map<Seq<char>, u64> {
        Map::new(
            |k: Seq<char>| rate_lookup(self.entry_seq(), k).is_some(),
            |k: Seq<char>| rate_lookup(self.entry_seq(), k).unwrap(),
        )
    }
}

impl ExchangeRateApiResponse {
    /// The entries in insertion order, as plain values.
    pub closed spec fn entry_seq(&self) -> Seq<(Seq<char>, u64)> {
        self.entries@.map_values(|e: (String, u64)| (e.0@, e.1))
    }

    /// Every stored rate is positive.
    pub open spec fn wf(&self) -> bool {
        forall|k: Seq<char>| #[trigger] self@.contains_key(k) ==> self@[k] > 0
    }

    /// An empty mapping.
    pub fn new() -> (r: ExchangeRateApiResponse)
        ensures
            r@ == Map::<Seq<char>, u64>::empty(),
            r.wf(),
    {
        let r = ExchangeRateApiResponse { entries: Vec::new() };
        assert(r@ =~= Map::<Seq<char>, u64>::empty());
        r
    }

    /// Sets the rate of `code`. A rate of zero is no rate and is refused:
    /// the mapping is then left as it was and `false` is returned.
    pub fn insert(&mut self, code: String, rate: u64) -> (r: bool)
        requires
            old(self).wf(),
        ensures
            final(self).wf(),
            r == (rate > 0),
            r ==> final(self)@ == old(self)@.insert(code@, rate),
            !r ==> final(self)@ == old(self)@,
    {
        if rate == 0 {
            return false;
        }
        let ghost k = code@;
        self.entries.push((code, rate));
        proof {
            let s = self.entry_seq();
            assert(s.drop_last() =~= old(self).entry_seq());
            assert(s.last() == (k, rate));
            assert(self@ =~= old(self)@.insert(k, rate));
        }
        true
    }

    /// The rate of `code`, if the mapping holds one.
    pub fn get(&self, code: &String) -> (r: Option<u64>)
        ensures
            r == (if self@.contains_key(code@) { Some(self@[code@]) } else { None::<u64> }),
    {
        let ghost s = self.entry_seq();
        let mut i: usize = self.entries.len();
        assert(s.take(i as int) =~= s);
        while i > 0
            invariant
                i <= self.entries.len(),
                s == self.entry_seq(),
                s.len() == self.entries.len(),
                rate_lookup(s.take(i as int), code@) == rate_lookup(s, code@),
            decreases i,
        {
            let e = &self.entries[i - 1];
            assert(s[i - 1] == (e.0@, e.1));
            assert(s.take(i as int).drop_last() =~= s.take(i - 1));
            if e.0 == *code {
                return Some(e.1);
            }
            i = i - 1;
        }
        None
    }
}

} // verus!
