use vstd::prelude::*;
use vstd::string::StringExecFns;

verus! {

/// One card payment as the card provider gives it.
#[derive(Debug, Clone)]
pub struct GnosisTransaction {
    pub created_at: String,
    pub cleared_at: Option<String>,
    pub is_pending: bool,
    pub transaction_amount: String,
    pub transaction_currency: Currency,
    pub billing_amount: String,
    pub billing_currency: Currency,
    pub mcc: String,
    pub merchant: Merchant,
    pub country: Country,
    /// The on-chain transfers that settled the payment; there may be none.
    pub transactions: Vec<Transaction>,
    pub kind: String,
    pub status: Option<String>,
}

#[derive(Debug, Clone)]
pub struct Currency {
    pub symbol: String,
    pub code: String,
    pub decimals: u32,
    pub name: String,
}

#[derive(Debug, Clone)]
pub struct Merchant {
    pub name: String,
    pub city: String,
    pub country: Country,
}

#[derive(Debug, Clone)]
pub struct Country {
    pub name: String,
    pub numeric: String,
    pub alpha2: String,
    pub alpha3: String,
}

/// An on-chain transfer that a card payment names.
#[derive(Debug, Clone)]
pub struct Transaction {
    pub status: String,
    pub to: String,
    pub value: String,
    pub data: String,
    pub hash: String,
}

/// The card provider's API, with the session that opens it.
pub struct GnosisPay {
    base_url: String,
    session_token: String,
}

impl GnosisPay {
    /// Where the API lives.
    pub closed spec fn base_url(&self) -> Seq<char> {
        self.base_url@
    }

    /// The token of the session.
    pub closed spec fn session_token(&self) -> Seq<char> {
        self.session_token@
    }

    pub fn new(session_token: String) -> (r: Self)
        ensures
            r.base_url() == "https://app.gnosispay.com"@,
            r.session_token() == session_token@,
    {
        Self { base_url: "https://app.gnosispay.com".to_owned(), session_token }
    }

    /// The address to ask for the card payments.
    pub fn transactions_url(&self) -> (r: String)
        ensures
            r@ == self.base_url() + "/api/v1/transactions"@,
    {
        let mut url = self.base_url.clone();
        url.append("/api/v1/transactions");
        url
    }

    /// The cookie that carries the session: the token between double quotes.
    pub fn session_cookie(&self) -> (r: String)
        ensures
            r@ == "__Secure-authjs.session-token=\""@ + self.session_token() + "\""@,
    {
        let mut cookie = "__Secure-authjs.session-token=\"".to_owned();
        cookie.append(self.session_token.as_str());
        cookie.append("\"");
        cookie
    }
}

} // verus!
