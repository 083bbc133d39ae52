use vstd::prelude::*;
use crate::address::{zero_address, AccountAddress};

verus! {

/// What an on-chain transfer means to the wallet.
#[derive(Clone, Copy, Debug, PartialEq, Eq, Structural)]
pub enum Classification {
    Minted,
    Burned,
    AddedFunds,
    SentFunds,
    FromCardProvider,
    Unclassified,
}

/// The rules, in order; the first that matches decides.
pub open spec fn classify(from: Seq<u8>, to: Seq<u8>, wallet: Seq<u8>, bank: Seq<u8>)
    -> Classification {
    if from == zero_address() {
        Classification::Minted
    } else if to == zero_address() {
        Classification::Burned
    } else if to == wallet {
        Classification::AddedFunds
    } else if from == wallet && to != bank {
        Classification::SentFunds
    } else if from == wallet && to == bank {
        Classification::FromCardProvider
    } else {
        Classification::Unclassified
    }
}

impl Classification {
    /// Whether money left: the amount then counts as negative.
    pub open spec fn negates(self) -> bool {
        self == Classification::Burned || self == Classification::SentFunds || self
            == Classification::FromCardProvider
    }

    /// The name that a row of this kind starts with.
    pub open spec fn label(self) -> Seq<char> {
        match self {
            Classification::Minted => "Minted on chain"@,
            Classification::Burned => "Burned on chain"@,
            Classification::AddedFunds => "Added funds on chain"@,
            Classification::SentFunds => "Sent funds on chain"@,
            Classification::FromCardProvider => "From card provider"@,
            Classification::Unclassified => ""@,
        }
    }

    /// Classifies a transfer between two accounts for one wallet and one bank.
    pub fn of(
        from: &AccountAddress,
        to: &AccountAddress,
        wallet: &AccountAddress,
        bank: &AccountAddress,
    ) -> (r: Classification)
        ensures
            r == classify(from@, to@, wallet@, bank@),
    {
        if from.is_zero() {
            Classification::Minted
        } else if to.is_zero() {
            Classification::Burned
        } else if to.same(wallet) {
            Classification::AddedFunds
        } else if from.same(wallet) && !to.same(bank) {
            Classification::SentFunds
        } else if from.same(wallet) && to.same(bank) {
            Classification::FromCardProvider
        } else {
            Classification::Unclassified
        }
    }

    pub fn is_negating(&self) -> (r: bool)
        ensures
            r == self.negates(),
    {
        match self {
            Classification::Burned => true,
            Classification::SentFunds => true,
            Classification::FromCardProvider => true,
            _ => false,
        }
    }

    pub fn name(&self) -> (r: String)
        ensures
            r@ == self.label(),
    {
        match self {
            Classification::Minted => "Minted on chain".to_owned(),
            Classification::Burned => "Burned on chain".to_owned(),
            Classification::AddedFunds => "Added funds on chain".to_owned(),
            Classification::SentFunds => "Sent funds on chain".to_owned(),
            Classification::FromCardProvider => "From card provider".to_owned(),
            Classification::Unclassified => "".to_owned(),
        }
    }
}

} // verus!
