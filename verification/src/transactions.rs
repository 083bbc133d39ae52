use vstd::prelude::*;
use vstd::string::StringExecFns;
use crate::address::{address_of_text, zero_address, AccountAddress};
use crate::classify::{classify, Classification};
use crate::dates::{dated, parse_date};
use crate::entry::{views, Amount, EntryView};
pub use crate::entry::Transaction;
use crate::gnosispay::GnosisTransaction;
use crate::gnosisscan::{Response, TokenTxResponse};
use crate::model::{
    distinct_hashes, enrich, has_hash, lemma_enrich_creates_nothing, lemma_upsert_distinct,
    place_of, upsert, upsert_all,
};
use crate::order::{
    insert_by_date, lemma_slot_is, lemma_sort_by_date, ordered_by_date, sort_by_date,
};
use crate::text::{trim_text, trimmed};
use crate::units::{convert, converted};

verus! {

/// Why a ledger could not be made or filled.
#[derive(Clone, Copy, Debug, PartialEq, Eq, Structural)]
pub enum LedgerError {
    /// The explorer's answer carried no result at all.
    EmptyResponse,
    /// A timestamp is no integer, or no date exists for it.
    MalformedDate,
    /// A value is no number of 256 bits, or the decimals name no unit.
    MalformedAmount,
    /// An address is not twenty bytes in hexadecimal.
    MalformedAddress,
}

/// The ledger: one row per transaction hash, in the order in which the hashes
/// first came in.
#[derive(Debug)]
pub struct Transactions {
    pub wallet_address: AccountAddress,
    pub bank_address: AccountAddress,
    pub transactions: Vec<Transaction>,
}

impl View for Transactions {
    type V = Seq<EntryView>;

    open spec fn view(&self) -> Seq<EntryView> {
        views(self.transactions@)
    }
}

/// The row that a transfer of the given kind makes.
pub open spec fn row(hash: Seq<char>, secs: i64, kind: Classification, magnitude: Seq<char>)
    -> EntryView {
    EntryView {
        hash: hash,
        date: secs as int,
        negative: kind.negates(),
        magnitude: magnitude,
        name: kind.label(),
        description: Seq::empty(),
    }
}

/// The row that one transfer of the explorer makes, or why it makes none. The
/// date is read first, then the amount, then the sender; the receiver is read
/// only where the sender is not the zero address.
pub open spec fn derived(record: TokenTxResponse, wallet: Seq<u8>, bank: Seq<u8>) -> Result<
    EntryView,
    LedgerError,
> {
    match dated(record.timestamp@) {
        None => Err(LedgerError::MalformedDate),
        Some(secs) => match converted(record.value@, record.token_decimal@) {
            None => Err(LedgerError::MalformedAmount),
            Some(magnitude) => match address_of_text(record.from@) {
                None => Err(LedgerError::MalformedAddress),
                Some(from) => if from == zero_address() {
                    Ok(row(record.hash@, secs, Classification::Minted, magnitude))
                } else {
                    match address_of_text(record.to@) {
                        None => Err(LedgerError::MalformedAddress),
                        Some(to) => Ok(
                            row(record.hash@, secs, classify(from, to, wallet, bank), magnitude),
                        ),
                    }
                },
            },
        },
    }
}

/// The rows that the transfers make, in their order, or the error of the first
/// transfer that makes none.
pub open spec fn derived_all(records: Seq<TokenTxResponse>, wallet: Seq<u8>, bank: Seq<u8>)
    -> Result<Seq<EntryView>, LedgerError>
    decreases records.len(),
{
    if records.len() == 0 {
        Ok(Seq::empty())
    } else {
        match derived_all(records.drop_last(), wallet, bank) {
            Err(e) => Err(e),
            Ok(rows) => match derived(records.last(), wallet, bank) {
                Err(e) => Err(e),
                Ok(r) => Ok(rows.push(r)),
            },
        }
    }
}

/// The rows that an answer of the explorer makes: an answer without a result
/// makes none and is an error, one with an empty result makes none and is none.
pub open spec fn imported(response: Response, wallet: Seq<u8>, bank: Seq<u8>) -> Result<
    Seq<EntryView>,
    LedgerError,
> {
    match response.result {
        None => Err(LedgerError::EmptyResponse),
        Some(records) => derived_all(records@, wallet, bank),
    }
}

/// The ledger after one card payment was merged in: the row that its first
/// transfer names gets the merchant's name and place, both without the white
/// space around them. A payment that names no transfer changes nothing.
pub open spec fn merged(s: Seq<EntryView>, payment: GnosisTransaction) -> Seq<EntryView> {
    if payment.transactions@.len() > 0 {
        enrich(
            s,
            payment.transactions@[0].hash@,
            trimmed(payment.merchant.name@),
            trimmed(payment.merchant.city@) + " - "@ + trimmed(payment.merchant.country.name@),
        )
    } else {
        s
    }
}

/// The ledger after the card payments were merged in, one after the other.
pub open spec fn merged_all(s: Seq<EntryView>, payments: Seq<GnosisTransaction>) -> Seq<
    EntryView,
>
    decreases payments.len(),
{
    if payments.len() == 0 {
        s
    } else {
        merged(merged_all(s, payments.drop_last()), payments.last())
    }
}

/// An error among the first `k` transfers is the error of them all.
proof fn lemma_first_error_stays(
    records: Seq<TokenTxResponse>,
    wallet: Seq<u8>,
    bank: Seq<u8>,
    k: int,
    n: int,
)
    requires
        0 <= k <= n <= records.len(),
        derived_all(records.take(k), wallet, bank) is Err,
    ensures
        derived_all(records.take(n), wallet, bank) == derived_all(records.take(k), wallet, bank),
    decreases n - k,
{
    if k < n {
        lemma_first_error_stays(records, wallet, bank, k, n - 1);
        assert(records.take(n).drop_last() =~= records.take(n - 1));
    }
}

/// A transfer from the zero address that makes a row makes one named
/// "Minted on chain", with the converted amount and no change of sign.
pub proof fn lemma_minted_is_positive(record: TokenTxResponse, wallet: Seq<u8>, bank: Seq<u8>)
    requires
        address_of_text(record.from@) == Some(zero_address()),
        derived(record, wallet, bank) is Ok,
    ensures
        !derived(record, wallet, bank)->Ok_0.negative,
        derived(record, wallet, bank)->Ok_0.name == "Minted on chain"@,
        Some(derived(record, wallet, bank)->Ok_0.magnitude) == converted(
            record.value@,
            record.token_decimal@,
        ),
{
}

/// A transfer to the zero address, from any other address, that makes a row
/// makes one named "Burned on chain" whose amount is the converted amount, negated.
pub proof fn lemma_burned_is_negated(record: TokenTxResponse, wallet: Seq<u8>, bank: Seq<u8>)
    requires
        address_of_text(record.to@) == Some(zero_address()),
        address_of_text(record.from@) != Some(zero_address()),
        derived(record, wallet, bank) is Ok,
    ensures
        derived(record, wallet, bank)->Ok_0.negative,
        derived(record, wallet, bank)->Ok_0.name == "Burned on chain"@,
        Some(derived(record, wallet, bank)->Ok_0.magnitude) == converted(
            record.value@,
            record.token_decimal@,
        ),
{
}

/// Merging card payments makes no row and removes none: the ledger keeps its
/// length and its distinct hashes, and every row keeps its hash, date and amount.
pub proof fn lemma_merge_creates_nothing(s: Seq<EntryView>, payments: Seq<GnosisTransaction>)
    ensures
        merged_all(s, payments).len() == s.len(),
        forall|i: int|
            0 <= i < s.len() ==> {
                let r = #[trigger] merged_all(s, payments)[i];
                &&& r.hash == s[i].hash
                &&& r.date == s[i].date
                &&& r.negative == s[i].negative
                &&& r.magnitude == s[i].magnitude
            },
        distinct_hashes(s) ==> distinct_hashes(merged_all(s, payments)),
    decreases payments.len(),
{
    if payments.len() > 0 {
        let before = merged_all(s, payments.drop_last());
        let payment = payments.last();
        lemma_merge_creates_nothing(s, payments.drop_last());
        if payment.transactions@.len() > 0 {
            lemma_enrich_creates_nothing(
                before,
                payment.transactions@[0].hash@,
                trimmed(payment.merchant.name@),
                trimmed(payment.merchant.city@) + " - "@ + trimmed(
                    payment.merchant.country.name@,
                ),
            );
        }
    }
}

/// A card payment whose first transfer the ledger does not hold changes nothing.
pub proof fn lemma_merge_of_absent_hash(s: Seq<EntryView>, payment: GnosisTransaction)
    requires
        payment.transactions@.len() > 0 ==> !has_hash(s, payment.transactions@[0].hash@),
    ensures
        merged(s, payment) == s,
{
}

/// An answer without a result is an error and makes no row, whatever else it says.
pub proof fn lemma_absent_result_is_error(response: Response, wallet: Seq<u8>, bank: Seq<u8>)
    requires
        response.result is None,
    ensures
        imported(response, wallet, bank) == Err::<Seq<EntryView>, LedgerError>(
            LedgerError::EmptyResponse,
        ),
{
}


/// Makes the row of one transfer.
pub fn derive_entry(record: &TokenTxResponse, wallet: &AccountAddress, bank: &AccountAddress) -> (r:
    Result<Transaction, LedgerError>)
    ensures
        match r {
            Ok(t) => derived(*record, wallet@, bank@) == Ok::<EntryView, LedgerError>(t@),
            Err(e) => derived(*record, wallet@, bank@) == Err::<EntryView, LedgerError>(e),
        },
{
    let date = match parse_date(record.timestamp.as_str()) {
        Some(secs) => secs,
        None => { return Err(LedgerError::MalformedDate); },
    };
    let magnitude = match convert(record.value.as_str(), record.token_decimal.as_str()) {
        Some(text) => text,
        None => { return Err(LedgerError::MalformedAmount); },
    };
    let from = match AccountAddress::parse(record.from.as_str()) {
        Some(address) => address,
        None => { return Err(LedgerError::MalformedAddress); },
    };
    let kind = if from.is_zero() {
        Classification::Minted
    } else {
        match AccountAddress::parse(record.to.as_str()) {
            Some(to) => Classification::of(&from, &to, wallet, bank),
            None => { return Err(LedgerError::MalformedAddress); },
        }
    };
    Ok(
        Transaction {
            hash: record.hash.clone(),
            date,
            amount: Amount { negative: kind.is_negating(), magnitude },
            name: kind.name(),
            description: String::new(),
        },
    )
}

impl Transactions {
    /// No two rows share a hash.
    pub open spec fn wf(&self) -> bool {
        distinct_hashes(self@)
    }

    /// An empty ledger for one wallet and the bank that funds its card.
    pub fn new(wallet_address: String, bank_address: String) -> (r: Result<Self, LedgerError>)
        ensures
            match r {
                Ok(ledger) => {
                    &&& address_of_text(wallet_address@) == Some(ledger.wallet_address@)
                    &&& address_of_text(bank_address@) == Some(ledger.bank_address@)
                    &&& ledger@ == Seq::<EntryView>::empty()
                    &&& ledger.wf()
                },
                Err(e) => {
                    &&& e == LedgerError::MalformedAddress
                    &&& (address_of_text(wallet_address@).is_none() || address_of_text(
                        bank_address@,
                    ).is_none())
                },
            },
    {
        let wallet = match AccountAddress::parse(wallet_address.as_str()) {
            Some(address) => address,
            None => { return Err(LedgerError::MalformedAddress); },
        };
        let bank = match AccountAddress::parse(bank_address.as_str()) {
            Some(address) => address,
            None => { return Err(LedgerError::MalformedAddress); },
        };
        let ledger = Transactions {
            wallet_address: wallet,
            bank_address: bank,
            transactions: Vec::new(),
        };
        assert(ledger@ =~= Seq::<EntryView>::empty());
        Ok(ledger)
    }

    /// The place of the row with this hash, or the number of rows where no row has it.
    pub fn find(&self, hash: &String) -> (r: usize)
        requires
            self.wf(),
        ensures
            r <= self@.len(),
            r < self@.len() ==> has_hash(self@, hash@) && place_of(self@, hash@) == r,
            r == self@.len() ==> !has_hash(self@, hash@),
    {
        let mut k: usize = 0;
        while k < self.transactions.len()
            invariant
                self.wf(),
                k <= self.transactions@.len(),
                forall|m: int| 0 <= m < k ==> (#[trigger] self@[m]).hash != hash@,
            decreases self.transactions@.len() - k,
        {
            if self.transactions[k].hash == *hash {
                assert(self@[k as int].hash == hash@);
                let ghost p = place_of(self@, hash@);
                assert(self@[p].hash == self@[k as int].hash);
                return k;
            }
            k += 1;
        }
        k
    }

    /// Takes one row in: it replaces the row with its hash, or is added.
    pub fn put(&mut self, entry: Transaction)
        requires
            old(self).wf(),
        ensures
            final(self).wf(),
            final(self)@ == upsert(old(self)@, entry@),
            final(self).wallet_address == old(self).wallet_address,
            final(self).bank_address == old(self).bank_address,
    {
        let k = self.find(&entry.hash);
        proof {
            lemma_upsert_distinct(self@, entry@);
        }
        if k < self.transactions.len() {
            self.transactions.set(k, entry);
            assert(self@ =~= upsert(old(self)@, entry@));
        } else {
            self.transactions.push(entry);
            assert(self@ =~= upsert(old(self)@, entry@));
        }
    }

    /// Gives the row with this hash, if there is one, a new name and description.
    pub fn describe(&mut self, hash: &String, name: String, description: String)
        requires
            old(self).wf(),
        ensures
            final(self).wf(),
            final(self)@ == enrich(old(self)@, hash@, name@, description@),
            final(self).wallet_address == old(self).wallet_address,
            final(self).bank_address == old(self).bank_address,
    {
        let k = self.find(hash);
        proof {
            lemma_enrich_creates_nothing(self@, hash@, name@, description@);
        }
        if k < self.transactions.len() {
            let entry = Transaction {
                hash: self.transactions[k].hash.clone(),
                date: self.transactions[k].date,
                amount: self.transactions[k].amount.clone(),
                name,
                description,
            };
            self.transactions.set(k, entry);
            assert(self@ =~= enrich(old(self)@, hash@, name@, description@));
        }
    }

    /// Takes in the transfers of one answer of the explorer. Each makes a row,
    /// classified for the ledger's wallet and bank; a row replaces the row with
    /// its hash. Where the answer has no result, or one transfer is malformed,
    /// the ledger stays as it was.
    pub fn import_from_gnosisscan(&mut self, response: Response) -> (r: Result<(), LedgerError>)
        requires
            old(self).wf(),
        ensures
            final(self).wf(),
            final(self).wallet_address == old(self).wallet_address,
            final(self).bank_address == old(self).bank_address,
            match imported(response, old(self).wallet_address@, old(self).bank_address@) {
                Ok(rows) => r == Ok::<(), LedgerError>(()) && final(self)@ == upsert_all(
                    old(self)@,
                    rows,
                ),
                Err(e) => r == Err::<(), LedgerError>(e) && final(self)@ == old(self)@,
            },
    {
        let records = match response.result {
            Some(records) => records,
            None => { return Err(LedgerError::EmptyResponse); },
        };
        let ghost wallet = self.wallet_address@;
        let ghost bank = self.bank_address@;
        let mut rows: Vec<Transaction> = Vec::new();
        let mut i: usize = 0;
        assert(records@.take(0) =~= Seq::<TokenTxResponse>::empty());
        assert(views(rows@) =~= Seq::<EntryView>::empty());
        while i < records.len()
            invariant
                i <= records@.len(),
                *self == *old(self),
                self.wf(),
                wallet == self.wallet_address@,
                bank == self.bank_address@,
                imported(response, wallet, bank) == derived_all(records@, wallet, bank),
                derived_all(records@.take(i as int), wallet, bank) == Ok::<
                    Seq<EntryView>,
                    LedgerError,
                >(views(rows@)),
            decreases records@.len() - i,
        {
            assert(records@.take(i + 1).drop_last() =~= records@.take(i as int));
            assert(records@.take(i + 1).last() == records@[i as int]);
            match derive_entry(&records[i], &self.wallet_address, &self.bank_address) {
                Ok(entry) => {
                    let ghost before = views(rows@);
                    rows.push(entry);
                    assert(views(rows@) =~= before.push(entry@));
                },
                Err(e) => {
                    proof {
                        lemma_first_error_stays(
                            records@,
                            wallet,
                            bank,
                            i + 1,
                            records@.len() as int,
                        );
                        assert(records@.take(records@.len() as int) =~= records@);
                    }
                    return Err(e);
                },
            }
            i += 1;
        }
        assert(records@.take(i as int) =~= records@);
        let mut j: usize = 0;
        assert(views(rows@).take(0) =~= Seq::<EntryView>::empty());
        while j < rows.len()
            invariant
                j <= rows@.len(),
                imported(response, wallet, bank) == Ok::<Seq<EntryView>, LedgerError>(
                    views(rows@),
                ),
                wallet == old(self).wallet_address@,
                bank == old(self).bank_address@,
                self.wf(),
                self.wallet_address == old(self).wallet_address,
                self.bank_address == old(self).bank_address,
                self@ == upsert_all(old(self)@, views(rows@).take(j as int)),
            decreases rows@.len() - j,
        {
            assert(views(rows@).take(j + 1).drop_last() =~= views(rows@).take(j as int));
            assert(views(rows@).take(j + 1).last() == rows@[j as int]@);
            self.put(rows[j].clone());
            j += 1;
        }
        assert(views(rows@).take(j as int) =~= views(rows@));
        Ok(())
    }

    /// Merges the card payments in: each names, by the hash of its first
    /// transfer, the row that gets the merchant's name and place. A payment
    /// that names no transfer, or one that the ledger does not hold, changes
    /// nothing. No row is made and none removed.
    pub fn merge_description_from_gnosispay(
        &mut self,
        gnosis_transactions: Vec<GnosisTransaction>,
    ) -> (r: Result<(), LedgerError>)
        requires
            old(self).wf(),
        ensures
            r == Ok::<(), LedgerError>(()),
            final(self).wf(),
            final(self).wallet_address == old(self).wallet_address,
            final(self).bank_address == old(self).bank_address,
            final(self)@ == merged_all(old(self)@, gnosis_transactions@),
    {
        let mut i: usize = 0;
        assert(gnosis_transactions@.take(0) =~= Seq::<GnosisTransaction>::empty());
        while i < gnosis_transactions.len()
            invariant
                i <= gnosis_transactions@.len(),
                self.wf(),
                self.wallet_address == old(self).wallet_address,
                self.bank_address == old(self).bank_address,
                self@ == merged_all(old(self)@, gnosis_transactions@.take(i as int)),
            decreases gnosis_transactions@.len() - i,
        {
            assert(gnosis_transactions@.take(i + 1).drop_last() =~= gnosis_transactions@.take(
                i as int,
            ));
            assert(gnosis_transactions@.take(i + 1).last() == gnosis_transactions@[i as int]);
            let payment = &gnosis_transactions[i];
            if payment.transactions.len() > 0 {
                let name = trim_text(payment.merchant.name.as_str()).to_owned();
                let mut description = trim_text(payment.merchant.city.as_str()).to_owned();
                description.append(" - ");
                description.append(trim_text(payment.merchant.country.name.as_str()));
                self.describe(&payment.transactions[0].hash, name, description);
            }
            i += 1;
        }
        assert(gnosis_transactions@.take(i as int) =~= gnosis_transactions@);
        Ok(())
    }

    /// The rows by ascending date; rows of one date come in the ledger's order.
    pub fn export_sorted(&self) -> (r: Vec<Transaction>)
        ensures
            views(r@) == sort_by_date(self@),
            ordered_by_date(views(r@)),
            r@.len() == self@.len(),
            views(r@).to_multiset() == self@.to_multiset(),
    {
        let mut sorted: Vec<Transaction> = Vec::new();
        let mut i: usize = 0;
        assert(self@.take(0) =~= Seq::<EntryView>::empty());
        assert(views(sorted@) =~= Seq::<EntryView>::empty());
        while i < self.transactions.len()
            invariant
                i <= self.transactions@.len(),
                views(sorted@) == sort_by_date(self@.take(i as int)),
            decreases self.transactions@.len() - i,
        {
            let entry = self.transactions[i].clone();
            let mut j: usize = sorted.len();
            while j > 0 && sorted[j - 1].date > entry.date
                invariant
                    j <= sorted@.len(),
                    forall|k: int| j <= k < sorted@.len() ==> sorted@[k].date > entry.date,
                decreases j,
            {
                j -= 1;
            }
            proof {
                lemma_slot_is(views(sorted@), entry@.date, j as int);
                assert(self@.take(i + 1).drop_last() =~= self@.take(i as int));
                assert(self@.take(i + 1).last() == entry@);
            }
            let ghost before = views(sorted@);
            sorted.insert(j, entry);
            assert(views(sorted@) =~= insert_by_date(before, entry@));
            i += 1;
        }
        proof {
            assert(self@.take(i as int) =~= self@);
            lemma_sort_by_date(self@);
        }
        sorted
    }
}

} // verus!
