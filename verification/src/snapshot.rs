//! A copy of the ledger at one moment: the cash balance and one line for each
//! symbol of which something is held.

use crate::model::LedgerState;
use vstd::prelude::*;

verus! {

/// One line of a portfolio: a symbol and the shares held of it.
#[derive(Clone, Debug)]
pub struct Holding {
    pub symbol: String,
    pub quantity: u64,
}

/// The holdings that a list of lines stands for. Where a symbol comes twice,
/// the later line counts.
pub open spec fn listed(lines: Seq<Holding>) -> Map<Seq<char>, int>
    decreases lines.len(),
{
    if lines.len() == 0 {
        Map::empty()
    } else {
        listed(lines.drop_last()).insert(lines.last().symbol@, lines.last().quantity as int)
    }
}

/// No line is empty and no symbol comes twice.
pub open spec fn tidy(lines: Seq<Holding>) -> bool {
    &&& forall|i: int| 0 <= i < lines.len() ==> (#[trigger] lines[i]).quantity > 0
    &&& forall|i: int, j: int|
        0 <= i < j < lines.len() ==> (#[trigger] lines[i]).symbol@ != (#[trigger] lines[j]).symbol@
}

/// Adding a line sets the position of its symbol and leaves the rest.
pub proof fn lemma_listed_push(lines: Seq<Holding>, line: Holding)
    ensures
        listed(lines.push(line)) == listed(lines).insert(line.symbol@, line.quantity as int),
{
    assert(lines.push(line).drop_last() =~= lines);
}

/// Every line's symbol has a position.
pub proof fn lemma_listed_has_each_line(lines: Seq<Holding>)
    ensures
        forall|i: int|
            0 <= i < lines.len() ==> listed(lines).contains_key((#[trigger] lines[i]).symbol@),
    decreases lines.len(),
{
    if lines.len() > 0 {
        lemma_listed_has_each_line(lines.drop_last());
        assert forall|i: int| 0 <= i < lines.len() implies listed(lines).contains_key(
            (#[trigger] lines[i]).symbol@,
        ) by {
            if i < lines.len() - 1 {
                assert(lines.drop_last()[i] == lines[i]);
            }
        }
    }
}

/// Cash and holdings as they stood when the snapshot was taken.
#[derive(Clone, Debug)]
pub struct Snapshot {
    pub cash: u64,
    pub holdings: Vec<Holding>,
}

impl View for Snapshot {
    type V = LedgerState;

    open spec fn view(&self) -> LedgerState {
        LedgerState { cash: self.cash as int, holdings: listed(self.holdings@) }
    }
}

impl Snapshot {
    /// The shares held of `symbol` in this snapshot: zero where no line names
    /// it.
    pub fn quantity_of(&self, symbol: &str) -> (quantity: u64)
        ensures
            quantity == self@.position(symbol@),
    {
        let wanted = symbol.to_owned();
        let mut i: usize = self.holdings.len();
        proof {
            assert(self.holdings@.take(i as int) =~= self.holdings@);
        }
        while i > 0
            invariant
                i <= self.holdings.len(),
                wanted@ == symbol@,
                listed(self.holdings@).contains_key(symbol@) == listed(
                    self.holdings@.take(i as int),
                ).contains_key(symbol@),
                listed(self.holdings@).contains_key(symbol@) ==> listed(self.holdings@)[symbol@]
                    == listed(self.holdings@.take(i as int))[symbol@],
            decreases i,
        {
            proof {
                assert(self.holdings@.take(i as int).drop_last() =~= self.holdings@.take(i - 1));
            }
            i = i - 1;
            if self.holdings[i].symbol == wanted {
                return self.holdings[i].quantity;
            }
        }
        0
    }
}

} // verus!
