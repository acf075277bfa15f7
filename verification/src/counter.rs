use vstd::prelude::*;
use vstd::string::StringExecFns;

verus! {

/// One recorded observation: the price, as the bit pattern of a double, and
/// the message it was read from.
struct Sample {
    price: u64,
    raw: String,
}

impl View for Sample {
    type V = (u64, Seq<char>);

    closed spec fn view(&self) -> (u64, Seq<char>) {
        (self.price, self.raw@)
    }
}

/// The lines of `lines` with a line feed between neighbours.
pub open spec fn join_lines(lines: Seq<Seq<char>>) -> Seq<char>
    decreases lines.len(),
{
    if lines.len() == 0 {
        Seq::empty()
    } else if lines.len() == 1 {
        lines[0]
    } else {
        join_lines(lines.drop_last()) + seq!['\n'] + lines.last()
    }
}

/// Append-only store of the samples of one collection window.
pub struct Counter {
    samples: Vec<Sample>,
}

impl View for Counter {
    type V = Seq<(u64, Seq<char>)>;

    closed spec fn view(&self) -> Seq<(u64, Seq<char>)> {
        self.samples@.map_values(|s: Sample| s@)
    }
}

impl Counter {
    /// The prices recorded so far, oldest first.
    pub open spec fn spec_prices(&self) -> Seq<u64> {
        self@.map_values(|s: (u64, Seq<char>)| s.0)
    }

    /// The messages recorded so far, oldest first.
    pub open spec fn spec_data(&self) -> Seq<Seq<char>> {
        self@.map_values(|s: (u64, Seq<char>)| s.1)
    }

    pub fn new() -> (counter: Self)
        ensures
            counter@ == Seq::<(u64, Seq<char>)>::empty(),
    {
        let counter = Counter { samples: Vec::new() };
        assert(counter@ =~= Seq::<(u64, Seq<char>)>::empty());
        counter
    }

    /// Records one sample behind all earlier ones.
    pub fn add_price(&mut self, price: u64, data: String)
        ensures
            final(self)@ == old(self)@.push((price, data@)),
    {
        self.samples.push(Sample { price, raw: data });
        assert(self@ =~= old(self)@.push((price, data@)));
    }

    /// Number of samples recorded.
    pub fn len(&self) -> (n: usize)
        ensures
            n == self@.len(),
    {
        self.samples.len()
    }

    pub fn is_empty(&self) -> (empty: bool)
        ensures
            empty == (self@.len() == 0),
    {
        self.samples.len() == 0
    }

    /// The recorded prices in the order in which they came.
    pub fn prices(&self) -> (prices: Vec<u64>)
        ensures
            prices@ == self.spec_prices(),
    {
        let mut prices: Vec<u64> = Vec::new();
        let mut i: usize = 0;
        while i < self.samples.len()
            invariant
                i <= self.samples.len(),
                prices@ == self.spec_prices().take(i as int),
            decreases self.samples.len() - i,
        {
            prices.push(self.samples[i].price);
            i += 1;
            assert(prices@ =~= self.spec_prices().take(i as int));
        }
        assert(self.spec_prices().take(i as int) =~= self.spec_prices());
        prices
    }

    /// The recorded messages, one per line.
    pub fn joined_data(&self) -> (text: String)
        ensures
            text@ == join_lines(self.spec_data()),
    {
        let mut text = String::new();
        let mut i: usize = 0;
        while i < self.samples.len()
            invariant
                i <= self.samples.len(),
                text@ == join_lines(self.spec_data().take(i as int)),
            decreases self.samples.len() - i,
        {
            let ghost before = self.spec_data().take(i as int);
            let ghost after = self.spec_data().take(i + 1);
            proof {
                assert(after.drop_last() =~= before);
                assert(after.last() == self.samples[i as int].raw@);
            }
            if i > 0 {
                proof {
                    reveal_strlit("\n");
                }
                text.append("\n");
                assert("\n"@ =~= seq!['\n']);
            }
            text.append(self.samples[i].raw.as_str());
            i += 1;
        }
        assert(self.spec_data().take(i as int) =~= self.spec_data());
        text
    }
}

} // verus!
