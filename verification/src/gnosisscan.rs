use vstd::prelude::*;
use vstd::string::StringExecFns;

verus! {

/// What the block explorer answers to a request for token transfers.
#[derive(Debug, Clone)]
pub struct Response {
    pub status: String,
    pub message: String,
    /// The transfers; absent where the explorer had no result to give.
    pub result: Option<Vec<TokenTxResponse>>,
}

/// One token transfer as the block explorer gives it: every field is text.
#[derive(Debug, Clone)]
pub struct TokenTxResponse {
    pub block_number: String,
    pub timestamp: String,
    pub hash: String,
    pub nonce: String,
    pub block_hash: String,
    pub from: String,
    pub to: String,
    pub value: String,
    pub token_name: String,
    pub token_symbol: String,
    pub token_decimal: String,
    pub transaction_index: String,
    pub gas: String,
    pub gas_price: String,
    pub input: String,
    pub confirmations: String,
}

/// The block explorer's API, with the key that opens it.
pub struct Gnosisscan {
    base_url: String,
    api_key: String,
}

impl Gnosisscan {
    /// Where the API lives.
    pub closed spec fn base_url(&self) -> Seq<char> {
        self.base_url@
    }

    /// The key sent with each request.
    pub closed spec fn api_key(&self) -> Seq<char> {
        self.api_key@
    }

    pub fn new(api_key: String) -> (r: Self)
        ensures
            r.base_url() == "https://api.gnosisscan.io"@,
            r.api_key() == api_key@,
    {
        Self { base_url: "https://api.gnosisscan.io".to_owned(), api_key }
    }

    /// The address to ask for every transfer of one token to or from one
    /// wallet, oldest first.
    pub fn transfers_url(&self, wallet_address: &str, token_address: &str) -> (r: String)
        ensures
            r@ == self.base_url() + "/api?module=account&action=tokentx&address="@
                + wallet_address@ + "&contractaddress="@ + token_address@
                + "&sort=asc&apikey="@ + self.api_key(),
    {
        let mut url = self.base_url.clone();
        url.append("/api?module=account&action=tokentx&address=");
        url.append(wallet_address);
        url.append("&contractaddress=");
        url.append(token_address);
        url.append("&sort=asc&apikey=");
        url.append(self.api_key.as_str());
        url
    }
}

} // verus!
