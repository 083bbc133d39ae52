use vstd::prelude::*;
use std::str::FromStr;

verus! {

/// The twenty bytes that an address in text form stands for, where it is one.
pub uninterp spec fn address_of_text(text: Seq<char>) -> Option<Seq<u8>>;

/// A twenty-byte account address. Two spellings of one address, in whatever
/// letter case, are the same bytes.
#[derive(Clone, Copy, Debug)]
pub struct AccountAddress {
    pub bytes: [u8; 20],
}

impl View for AccountAddress {
    type V = Seq<u8>;

    open spec fn view(&self) -> Seq<u8> {
        self.bytes@
    }
}

/// The address that stands for no account: mints come from it, burns go to it.
pub open spec fn zero_address() -> Seq<u8> {
    Seq::new(20, |i: int| 0u8)
}

/// Calls `alloy::primitives::Address::from_str`. Not proved: that the bytes
/// handed back are those the text stands for, and that `None` comes back
/// exactly where the text is no address.
#[verifier::external_body]
fn address_from_text(text: &str) -> (r: Option<[u8; 20]>)
    ensures
        match r {
            Some(bytes) => address_of_text(text@) == Some(bytes@),
            None => address_of_text(text@).is_none(),
        },
{
    match alloy::primitives::Address::from_str(text) {
        Ok(address) => Some(address.into_array()),
        Err(_) => None,
    }
}

/// Whether two byte arrays of one length hold the same bytes.
pub fn same_bytes<const N: usize>(a: &[u8; N], b: &[u8; N]) -> (r: bool)
    ensures
        r == (a@ == b@),
{
    let mut i: usize = 0;
    while i < N
        invariant
            i <= N,
            forall|k: int| 0 <= k < i ==> a@[k] == b@[k],
        decreases N - i,
    {
        if a[i] != b[i] {
            return false;
        }
        i += 1;
    }
    assert(a@ =~= b@);
    true
}

impl AccountAddress {
    /// Reads an address from its text form.
    pub fn parse(text: &str) -> (r: Option<AccountAddress>)
        ensures
            match r {
                Some(address) => address_of_text(text@) == Some(address@),
                None => address_of_text(text@).is_none(),
            },
    {
        match address_from_text(text) {
            Some(bytes) => Some(AccountAddress { bytes }),
            None => None,
        }
    }

    /// Whether this is the zero address.
    pub fn is_zero(&self) -> (r: bool)
        ensures
            r == (self@ == zero_address()),
    {
        let zero: [u8; 20] = [0u8; 20];
        assert(zero@ =~= zero_address());
        same_bytes(&self.bytes, &zero)
    }

    /// Whether two addresses are the same account.
    pub fn same(&self, other: &AccountAddress) -> (r: bool)
        ensures
            r == (self@ == other@),
    {
        same_bytes(&self.bytes, &other.bytes)
    }
}

} // verus!
