use vstd::prelude::*;

verus! {

/// A signed decimal amount: the sign and the magnitude as decimal text
/// (integer part, a dot, and as many fraction digits as the token has decimals).
#[derive(Debug)]
pub struct Amount {
    pub negative: bool,
    pub magnitude: String,
}

/// One row of the reconciled ledger.
#[derive(Debug)]
pub struct Transaction {
    pub hash: String,
    /// Seconds since the Unix epoch; a calendar date exists for it.
    pub date: i64,
    pub amount: Amount,
    pub name: String,
    pub description: String,
}

/// The mathematical value of a ledger row.
pub struct EntryView {
    pub hash: Seq<char>,
    pub date: int,
    pub negative: bool,
    pub magnitude: Seq<char>,
    pub name: Seq<char>,
    pub description: Seq<char>,
}

impl View for Transaction {
    type V = EntryView;

    open spec fn view(&self) -> EntryView {
        EntryView {
            hash: self.hash@,
            date: self.date as int,
            negative: self.amount.negative,
            magnitude: self.amount.magnitude@,
            name: self.name@,
            description: self.description@,
        }
    }
}

impl Clone for Amount {
    fn clone(&self) -> (r: Self)
        ensures
            r == *self,
    {
        Amount { negative: self.negative, magnitude: self.magnitude.clone() }
    }
}

impl Clone for Transaction {
    fn clone(&self) -> (r: Self)
        ensures
            r == *self,
    {
        Transaction {
            hash: self.hash.clone(),
            date: self.date,
            amount: self.amount.clone(),
            name: self.name.clone(),
            description: self.description.clone(),
        }
    }
}

/// The values of a sequence of rows, in the same order.
pub open spec fn views(rows: Seq<Transaction>) -> Seq<EntryView> {
    Seq::new(rows.len(), |i: int| rows[i]@)
}

} // verus!
