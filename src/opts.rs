use vstd::prelude::*;

verus! {

/// The pieces of `s` between commas, in order; a string without a comma is
/// one piece, and the empty string is one empty piece.
pub open spec fn split_commas(s: Seq<char>) -> Seq<Seq<char>>
    decreases s.len(),
{
    if s.len() == 0 {
        seq![Seq::<char>::empty()]
    } else {
        let prev = split_commas(s.drop_last());
        if s.last() == ',' {
            prev.push(Seq::<char>::empty())
        } else {
            prev.update(prev.len() - 1, prev.last().push(s.last()))
        }
    }
}

/// The configuration, read once at startup.
pub struct Opts {
    /// Provider API token.
    pub token: String,
    /// Name of the zone that holds the records.
    pub zone: String,
    /// Record names separated with commas, e.g. `a.x.com,b.x.com`.
    pub records: String,
    /// Debug logging.
    pub debug: bool,
    /// Run forever on the schedule instead of once.
    pub daemon: bool,
    /// Schedule expression, used in daemon mode.
    pub cron: String,
    /// How long resolved identifiers stay cached; zero disables the cache.
    pub cache_seconds: u64,
}

impl Opts {
    /// The configured record names, in order.
    pub open spec fn record_names(&self) -> Seq<Seq<char>> {
        split_commas(self.records@)
    }

    /// The record names: the pieces of `records` between commas.
    pub fn record_name_list(&self) -> (r: Vec<String>)
        ensures
            r@.len() == self.record_names().len(),
            forall|i: int| 0 <= i < r@.len() ==> #[trigger] r@[i]@ == self.record_names()[i],
    {
        let s: &str = self.records.as_str();
        let n: usize = s.unicode_len();
        let mut pieces: Vec<String> = Vec::new();
        let mut start: usize = 0;
        let mut i: usize = 0;
        proof {
            assert(s@.take(0) =~= Seq::<char>::empty());
            assert(s@.subrange(0, 0) =~= Seq::<char>::empty());
            assert(pieces@.map_values(|p: String| p@) =~= Seq::<Seq<char>>::empty());
            assert(split_commas(Seq::<char>::empty()) =~= seq![Seq::<char>::empty()]);
        }
        while i < n
            invariant
                n == s@.len(),
                s@ == self.records@,
                start <= i <= n,
                split_commas(s@.take(i as int)) == pieces@.map_values(|p: String| p@).push(
                    s@.subrange(start as int, i as int),
                ),
            decreases n - i,
        {
            let c = s.get_char(i);
            proof {
                assert(s@.take(i + 1).drop_last() =~= s@.take(i as int));
                assert(s@.take(i + 1).last() == c);
            }
            if c == ',' {
                let ghost before = pieces@;
                let ghost seg = s@.subrange(start as int, i as int);
                let piece = s.substring_char(start, i).to_owned();
                pieces.push(piece);
                start = i + 1;
                proof {
                    assert(s@.subrange(start as int, (i + 1) as int) =~= Seq::<char>::empty());
                    assert(pieces@.map_values(|p: String| p@) =~= before.map_values(
                        |p: String| p@,
                    ).push(seg));
                }
            } else {
                proof {
                    assert(s@.subrange(start as int, i as int).push(c) =~= s@.subrange(start as int, (i + 1) as int));
                }
            }
            i = i + 1;
        }
        let last = s.substring_char(start, n).to_owned();
        pieces.push(last);
        proof {
            assert(s@.take(n as int) =~= s@);
        }
        pieces
    }
}

} // verus!
