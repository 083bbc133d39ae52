use gnosispay::address::AccountAddress;
use gnosispay::classify::Classification;
use gnosispay::entry::Transaction;
use gnosispay::gnosispay::{Country, Currency, GnosisTransaction, Merchant};
use gnosispay::gnosisscan::{Response, TokenTxResponse};
use gnosispay::transactions::{derive_entry, LedgerError, Transactions};

const WALLET: &str = "0x1111111111111111111111111111111111111111";
const BANK: &str = "0x4822521E6135CD2599199c83Ea35179229A172EE";
const OTHER: &str = "0x2222222222222222222222222222222222222222";
const ZERO: &str = "0x0000000000000000000000000000000000000000";

fn transfer(hash: &str, timestamp: &str, from: &str, to: &str, value: &str) -> TokenTxResponse {
    TokenTxResponse {
        block_number: String::from("1"),
        timestamp: String::from(timestamp),
        hash: String::from(hash),
        nonce: String::from("0"),
        block_hash: String::from("0xb"),
        from: String::from(from),
        to: String::from(to),
        value: String::from(value),
        token_name: String::from("Monerium EUR emoney"),
        token_symbol: String::from("EURe"),
        token_decimal: String::from("18"),
        transaction_index: String::from("0"),
        gas: String::from("0"),
        gas_price: String::from("0"),
        input: String::from("deprecated"),
        confirmations: String::from("1"),
    }
}

fn answer(records: Vec<TokenTxResponse>) -> Response {
    Response { status: String::from("1"), message: String::from("OK"), result: Some(records) }
}

fn country(name: &str) -> Country {
    Country {
        name: String::from(name),
        numeric: String::from("250"),
        alpha2: String::from("FR"),
        alpha3: String::from("FRA"),
    }
}

fn euro() -> Currency {
    Currency {
        symbol: String::from("€"),
        code: String::from("978"),
        decimals: 2,
        name: String::from("Euro"),
    }
}

fn payment(hashes: &[&str], name: &str, city: &str, country_name: &str) -> GnosisTransaction {
    let mut transactions = Vec::new();
    for hash in hashes {
        transactions.push(gnosispay::gnosispay::Transaction {
            status: String::from("ExecSuccess"),
            to: String::from(BANK),
            value: String::from("0"),
            data: String::from("0x"),
            hash: String::from(*hash),
        });
    }
    GnosisTransaction {
        created_at: String::from("2024-01-01T00:00:00Z"),
        cleared_at: None,
        is_pending: false,
        transaction_amount: String::from("100"),
        transaction_currency: euro(),
        billing_amount: String::from("100"),
        billing_currency: euro(),
        mcc: String::from("5812"),
        merchant: Merchant {
            name: String::from(name),
            city: String::from(city),
            country: country(country_name),
        },
        country: country("Elsewhere"),
        transactions,
        kind: String::from("Payment"),
        status: Some(String::from("Approved")),
    }
}

fn ledger() -> Transactions {
    Transactions::new(String::from(WALLET), String::from(BANK)).unwrap()
}

fn signed(entry: &Transaction) -> f64 {
    let magnitude = entry.amount.magnitude.parse::<f64>().unwrap();
    if entry.amount.negative {
        -magnitude
    } else {
        magnitude
    }
}

fn hashes(rows: &[Transaction]) -> Vec<String> {
    rows.iter().map(|row| row.hash.clone()).collect()
}

#[test]
fn new_ledger_is_empty() {
    let l = ledger();
    assert!(l.transactions.is_empty());
    assert_eq!(l.wallet_address.bytes, [0x11u8; 20]);
    assert_eq!(l.bank_address.bytes[0], 0x48);
    assert_eq!(l.bank_address.bytes[19], 0xee);
}

#[test]
fn new_refuses_a_malformed_wallet() {
    let r = Transactions::new(String::from("not an address"), String::from(BANK));
    assert_eq!(r.err(), Some(LedgerError::MalformedAddress));
}

#[test]
fn new_refuses_a_malformed_bank() {
    let r = Transactions::new(String::from(WALLET), String::from("0x1234"));
    assert_eq!(r.err(), Some(LedgerError::MalformedAddress));
}

#[test]
fn address_parsing_ignores_letter_case_and_prefix() {
    let a = AccountAddress::parse("0x4822521E6135CD2599199c83Ea35179229A172EE").unwrap();
    let b = AccountAddress::parse("4822521e6135cd2599199c83ea35179229a172ee").unwrap();
    assert!(a.same(&b));
    assert_eq!(a.bytes[1], 0x22);
    assert!(!a.is_zero());
    assert!(AccountAddress::parse(ZERO).unwrap().is_zero());
    assert!(AccountAddress::parse("0xzz22521E6135CD2599199c83Ea35179229A172EE").is_none());
}

#[test]
fn minted_amount_is_positive() {
    let mut l = ledger();
    let r = l.import_from_gnosisscan(answer(vec![transfer(
        "0x01",
        "1700000000",
        ZERO,
        OTHER,
        "2500000000000000000",
    )]));
    assert_eq!(r, Ok(()));
    assert_eq!(l.transactions.len(), 1);
    let row = &l.transactions[0];
    assert_eq!(row.name, "Minted on chain");
    assert!(!row.amount.negative);
    assert_eq!(row.amount.magnitude, "2.500000000000000000");
    assert_eq!(signed(row), 2.5);
    assert_eq!(row.description, "");
    assert_eq!(row.date, 1700000000);
    assert_eq!(row.hash, "0x01");
}

#[test]
fn minted_to_the_wallet_is_still_minted() {
    let mut l = ledger();
    l.import_from_gnosisscan(answer(vec![transfer("0x01", "1", ZERO, WALLET, "1")])).unwrap();
    assert_eq!(l.transactions[0].name, "Minted on chain");
    assert!(!l.transactions[0].amount.negative);
    assert_eq!(l.transactions[0].amount.magnitude, "0.000000000000000001");
}

#[test]
fn minted_does_not_read_the_receiver() {
    let mut l = ledger();
    let r = l.import_from_gnosisscan(answer(vec![transfer("0x01", "1", ZERO, "garbage", "1")]));
    assert_eq!(r, Ok(()));
    assert_eq!(l.transactions[0].name, "Minted on chain");
}

#[test]
fn burned_amount_is_negated() {
    let mut l = ledger();
    l.import_from_gnosisscan(answer(vec![transfer(
        "0x02",
        "1700000000",
        WALLET,
        ZERO,
        "3000000000000000000",
    )]))
    .unwrap();
    let row = &l.transactions[0];
    assert_eq!(row.name, "Burned on chain");
    assert!(row.amount.negative);
    assert_eq!(row.amount.magnitude, "3.000000000000000000");
    assert_eq!(signed(row), -3.0);
}

#[test]
fn added_funds_are_positive() {
    let mut l = ledger();
    l.import_from_gnosisscan(answer(vec![transfer("0x03", "10", OTHER, WALLET, "1500000000000000000")]))
        .unwrap();
    let row = &l.transactions[0];
    assert_eq!(row.name, "Added funds on chain");
    assert_eq!(signed(row), 1.5);
}

#[test]
fn sent_funds_are_negated() {
    let mut l = ledger();
    l.import_from_gnosisscan(answer(vec![transfer("0x04", "10", WALLET, OTHER, "1500000000000000000")]))
        .unwrap();
    let row = &l.transactions[0];
    assert_eq!(row.name, "Sent funds on chain");
    assert_eq!(signed(row), -1.5);
}

#[test]
fn transfer_between_strangers_is_unclassified() {
    let mut l = ledger();
    l.import_from_gnosisscan(answer(vec![transfer("0x05", "10", OTHER, BANK, "1500000000000000000")]))
        .unwrap();
    let row = &l.transactions[0];
    assert_eq!(row.name, "");
    assert_eq!(signed(row), 1.5);
}

#[test]
fn classification_follows_the_order_of_the_rules() {
    let wallet = AccountAddress::parse(WALLET).unwrap();
    let bank = AccountAddress::parse(BANK).unwrap();
    let other = AccountAddress::parse(OTHER).unwrap();
    let zero = AccountAddress::parse(ZERO).unwrap();
    assert_eq!(Classification::of(&zero, &zero, &wallet, &bank), Classification::Minted);
    assert_eq!(Classification::of(&other, &zero, &wallet, &bank), Classification::Burned);
    assert_eq!(Classification::of(&wallet, &wallet, &wallet, &bank), Classification::AddedFunds);
    assert_eq!(Classification::of(&wallet, &other, &wallet, &bank), Classification::SentFunds);
    assert_eq!(Classification::of(&wallet, &bank, &wallet, &bank), Classification::FromCardProvider);
    assert_eq!(Classification::of(&other, &bank, &wallet, &bank), Classification::Unclassified);
    assert!(!Classification::Minted.is_negating());
    assert!(Classification::Burned.is_negating());
    assert!(!Classification::AddedFunds.is_negating());
    assert!(Classification::SentFunds.is_negating());
    assert!(Classification::FromCardProvider.is_negating());
    assert!(!Classification::Unclassified.is_negating());
    assert_eq!(Classification::FromCardProvider.name(), "From card provider");
}

#[test]
fn wallet_is_matched_whatever_the_letter_case() {
    let mut l = Transactions::new(
        String::from("0xABCDEFabcdefABCDEFabcdefABCDEFabcdefABCD"),
        String::from(BANK),
    )
    .unwrap();
    l.import_from_gnosisscan(answer(vec![transfer(
        "0x06",
        "10",
        OTHER,
        "0xabcdefabcdefabcdefabcdefabcdefabcdefabcd",
        "1",
    )]))
    .unwrap();
    assert_eq!(l.transactions[0].name, "Added funds on chain");
}

#[test]
fn same_hash_twice_keeps_the_second() {
    let mut l = ledger();
    l.import_from_gnosisscan(answer(vec![
        transfer("0xaa", "100", OTHER, WALLET, "1000000000000000000"),
        transfer("0xbb", "200", OTHER, WALLET, "2000000000000000000"),
        transfer("0xaa", "300", WALLET, OTHER, "5000000000000000000"),
    ]))
    .unwrap();
    assert_eq!(l.transactions.len(), 2);
    let same: Vec<&Transaction> = l.transactions.iter().filter(|t| t.hash == "0xaa").collect();
    assert_eq!(same.len(), 1);
    assert_eq!(same[0].date, 300);
    assert_eq!(same[0].name, "Sent funds on chain");
    assert_eq!(signed(same[0]), -5.0);
}

#[test]
fn same_hash_in_two_answers_keeps_the_second() {
    let mut l = ledger();
    l.import_from_gnosisscan(answer(vec![transfer("0xaa", "100", OTHER, WALLET, "1")])).unwrap();
    l.import_from_gnosisscan(answer(vec![transfer("0xaa", "300", WALLET, ZERO, "2")])).unwrap();
    assert_eq!(l.transactions.len(), 1);
    assert_eq!(l.transactions[0].name, "Burned on chain");
    assert_eq!(l.transactions[0].date, 300);
}

#[test]
fn put_replaces_or_adds() {
    let wallet = AccountAddress::parse(WALLET).unwrap();
    let bank = AccountAddress::parse(BANK).unwrap();
    let first = derive_entry(&transfer("0xaa", "100", OTHER, WALLET, "1"), &wallet, &bank).unwrap();
    let second = derive_entry(&transfer("0xaa", "200", WALLET, OTHER, "2"), &wallet, &bank).unwrap();
    let third = derive_entry(&transfer("0xcc", "50", WALLET, OTHER, "2"), &wallet, &bank).unwrap();
    let mut l = ledger();
    l.put(first);
    l.put(third);
    l.put(second);
    assert_eq!(hashes(&l.transactions), vec!["0xaa", "0xcc"]);
    assert_eq!(l.transactions[0].date, 200);
    assert_eq!(l.find(&String::from("0xcc")), 1);
    assert_eq!(l.find(&String::from("0xdd")), 2);
}

#[test]
fn empty_result_is_no_error() {
    let mut l = ledger();
    assert_eq!(l.import_from_gnosisscan(answer(vec![])), Ok(()));
    assert!(l.transactions.is_empty());
}

#[test]
fn absent_result_is_an_empty_response() {
    let mut l = ledger();
    let r = l.import_from_gnosisscan(Response {
        status: String::from("0"),
        message: String::from("NOTOK"),
        result: None,
    });
    assert_eq!(r, Err(LedgerError::EmptyResponse));
    assert!(l.transactions.is_empty());
}

#[test]
fn timestamp_that_is_no_integer_is_a_malformed_date() {
    let mut l = ledger();
    let r = l.import_from_gnosisscan(answer(vec![transfer("0x01", "yesterday", OTHER, WALLET, "1")]));
    assert_eq!(r, Err(LedgerError::MalformedDate));
}

#[test]
fn timestamp_without_a_date_is_a_malformed_date() {
    let mut l = ledger();
    let r = l.import_from_gnosisscan(answer(vec![transfer(
        "0x01",
        "9223372036854775807",
        OTHER,
        WALLET,
        "1",
    )]));
    assert_eq!(r, Err(LedgerError::MalformedDate));
}

#[test]
fn negative_timestamp_has_a_date() {
    let mut l = ledger();
    let r = l.import_from_gnosisscan(answer(vec![transfer("0x01", "-86400", OTHER, WALLET, "1")]));
    assert_eq!(r, Ok(()));
    assert_eq!(l.transactions[0].date, -86400);
}

#[test]
fn value_that_is_no_number_is_a_malformed_amount() {
    let mut l = ledger();
    let r = l.import_from_gnosisscan(answer(vec![transfer("0x01", "1", OTHER, WALLET, "12x")]));
    assert_eq!(r, Err(LedgerError::MalformedAmount));
}

#[test]
fn value_over_256_bits_is_a_malformed_amount() {
    let mut l = ledger();
    let too_big = "115792089237316195423570985008687907853269984665640564039457584007913129639936";
    let r = l.import_from_gnosisscan(answer(vec![transfer("0x01", "1", OTHER, WALLET, too_big)]));
    assert_eq!(r, Err(LedgerError::MalformedAmount));
}

#[test]
fn largest_value_is_converted() {
    let mut l = ledger();
    let largest = "115792089237316195423570985008687907853269984665640564039457584007913129639935";
    l.import_from_gnosisscan(answer(vec![transfer("0x01", "1", OTHER, WALLET, largest)])).unwrap();
    assert_eq!(
        l.transactions[0].amount.magnitude,
        "115792089237316195423570985008687907853269984665640564039457.584007913129639935"
    );
}

#[test]
fn decimals_that_name_no_unit_are_a_malformed_amount() {
    let mut l = ledger();
    let mut record = transfer("0x01", "1", OTHER, WALLET, "1");
    record.token_decimal = String::from("many");
    let r = l.import_from_gnosisscan(answer(vec![record]));
    assert_eq!(r, Err(LedgerError::MalformedAmount));
}

#[test]
fn decimals_shift_the_value() {
    let mut l = ledger();
    let mut record = transfer("0x01", "1", OTHER, WALLET, "1234567");
    record.token_decimal = String::from("6");
    l.import_from_gnosisscan(answer(vec![record])).unwrap();
    assert_eq!(l.transactions[0].amount.magnitude, "1.234567");
}

#[test]
fn malformed_sender_is_a_malformed_address() {
    let mut l = ledger();
    let r = l.import_from_gnosisscan(answer(vec![transfer("0x01", "1", "0x12", WALLET, "1")]));
    assert_eq!(r, Err(LedgerError::MalformedAddress));
}

#[test]
fn malformed_receiver_is_a_malformed_address() {
    let mut l = ledger();
    let r = l.import_from_gnosisscan(answer(vec![transfer("0x01", "1", OTHER, "nobody", "1")]));
    assert_eq!(r, Err(LedgerError::MalformedAddress));
}

#[test]
fn date_is_read_before_amount_and_amount_before_address() {
    let wallet = AccountAddress::parse(WALLET).unwrap();
    let bank = AccountAddress::parse(BANK).unwrap();
    let all_bad = transfer("0x01", "x", "y", "z", "w");
    assert_eq!(derive_entry(&all_bad, &wallet, &bank).err(), Some(LedgerError::MalformedDate));
    let bad_amount = transfer("0x01", "1", "y", "z", "w");
    assert_eq!(derive_entry(&bad_amount, &wallet, &bank).err(), Some(LedgerError::MalformedAmount));
}

#[test]
fn malformed_record_leaves_the_ledger_as_it_was() {
    let mut l = ledger();
    l.import_from_gnosisscan(answer(vec![transfer("0x01", "5", OTHER, WALLET, "1")])).unwrap();
    let r = l.import_from_gnosisscan(answer(vec![
        transfer("0x02", "6", OTHER, WALLET, "1"),
        transfer("0x01", "7", WALLET, OTHER, "2"),
        transfer("0x03", "soon", OTHER, WALLET, "1"),
        transfer("0x04", "8", OTHER, WALLET, "abc"),
    ]));
    assert_eq!(r, Err(LedgerError::MalformedDate));
    assert_eq!(hashes(&l.transactions), vec!["0x01"]);
    assert_eq!(l.transactions[0].date, 5);
    assert_eq!(l.transactions[0].name, "Added funds on chain");
}

#[test]
fn card_payment_names_the_row() {
    let mut l = ledger();
    l.import_from_gnosisscan(answer(vec![transfer(
        "0xabc",
        "1700000000",
        WALLET,
        BANK,
        "1000000000000000000",
    )]))
    .unwrap();
    assert_eq!(l.transactions[0].name, "From card provider");
    assert_eq!(signed(&l.transactions[0]), -1.0);
    assert_eq!(l.transactions[0].description, "");
    let r = l.merge_description_from_gnosispay(vec![payment(
        &["0xabc"],
        " Coffee Shop ",
        " Paris ",
        "France",
    )]);
    assert_eq!(r, Ok(()));
    assert_eq!(l.transactions.len(), 1);
    assert_eq!(l.transactions[0].name, "Coffee Shop");
    assert_eq!(l.transactions[0].description, "Paris - France");
    assert_eq!(signed(&l.transactions[0]), -1.0);
    assert_eq!(l.transactions[0].date, 1700000000);
    assert_eq!(l.transactions[0].hash, "0xabc");
}

#[test]
fn card_payment_for_an_unknown_hash_changes_nothing() {
    let mut l = ledger();
    l.import_from_gnosisscan(answer(vec![transfer("0xabc", "1", WALLET, BANK, "1")])).unwrap();
    l.merge_description_from_gnosispay(vec![payment(&["0xdef"], "Bakery", "Lyon", "France")])
        .unwrap();
    assert_eq!(l.transactions.len(), 1);
    assert_eq!(l.transactions[0].name, "From card provider");
    assert_eq!(l.transactions[0].description, "");
}

#[test]
fn card_payment_without_a_hash_changes_nothing() {
    let mut l = ledger();
    l.import_from_gnosisscan(answer(vec![transfer("0xabc", "1", WALLET, BANK, "1")])).unwrap();
    l.merge_description_from_gnosispay(vec![payment(&[], "Bakery", "Lyon", "France")]).unwrap();
    assert_eq!(l.transactions.len(), 1);
    assert_eq!(l.transactions[0].name, "From card provider");
}

#[test]
fn card_payment_on_an_empty_ledger_makes_no_row() {
    let mut l = ledger();
    l.merge_description_from_gnosispay(vec![payment(&["0xabc"], "Bakery", "Lyon", "France")])
        .unwrap();
    assert!(l.transactions.is_empty());
}

#[test]
fn only_the_first_hash_of_a_card_payment_counts() {
    let mut l = ledger();
    l.import_from_gnosisscan(answer(vec![
        transfer("0x01", "1", WALLET, BANK, "1"),
        transfer("0x02", "2", WALLET, BANK, "1"),
    ]))
    .unwrap();
    l.merge_description_from_gnosispay(vec![payment(&["0x02", "0x01"], "Bakery\n", "\tLyon", " France ")])
        .unwrap();
    assert_eq!(l.transactions[0].name, "From card provider");
    assert_eq!(l.transactions[1].name, "Bakery");
    assert_eq!(l.transactions[1].description, "Lyon - France");
}

#[test]
fn later_card_payment_overwrites_an_earlier_one() {
    let mut l = ledger();
    l.import_from_gnosisscan(answer(vec![transfer("0x01", "1", WALLET, BANK, "1")])).unwrap();
    l.merge_description_from_gnosispay(vec![
        payment(&["0x01"], "First", "A", "B"),
        payment(&["0x01"], "Second", "C", "D"),
    ])
    .unwrap();
    assert_eq!(l.transactions[0].name, "Second");
    assert_eq!(l.transactions[0].description, "C - D");
}

#[test]
fn describe_keeps_hash_date_and_amount() {
    let mut l = ledger();
    l.import_from_gnosisscan(answer(vec![transfer("0x01", "77", WALLET, BANK, "3")])).unwrap();
    l.describe(&String::from("0x01"), String::from("n"), String::from("d"));
    l.describe(&String::from("0x09"), String::from("x"), String::from("y"));
    assert_eq!(l.transactions.len(), 1);
    assert_eq!(l.transactions[0].name, "n");
    assert_eq!(l.transactions[0].description, "d");
    assert_eq!(l.transactions[0].date, 77);
    assert!(l.transactions[0].amount.negative);
    assert_eq!(l.transactions[0].amount.magnitude, "0.000000000000000003");
}

#[test]
fn export_is_ordered_by_date() {
    let mut l = ledger();
    l.import_from_gnosisscan(answer(vec![
        transfer("0x03", "300", OTHER, WALLET, "1"),
        transfer("0x01", "100", OTHER, WALLET, "1"),
        transfer("0x04", "-5", OTHER, WALLET, "1"),
        transfer("0x02", "200", OTHER, WALLET, "1"),
    ]))
    .unwrap();
    let sorted = l.export_sorted();
    assert_eq!(hashes(&sorted), vec!["0x04", "0x01", "0x02", "0x03"]);
    assert_eq!(sorted.len(), l.transactions.len());
    assert_eq!(hashes(&l.transactions), vec!["0x03", "0x01", "0x04", "0x02"]);
}

#[test]
fn export_keeps_rows_of_one_date_in_ledger_order() {
    let mut l = ledger();
    l.import_from_gnosisscan(answer(vec![
        transfer("0x0b", "100", OTHER, WALLET, "1"),
        transfer("0x0c", "50", OTHER, WALLET, "1"),
        transfer("0x0a", "100", OTHER, WALLET, "1"),
    ]))
    .unwrap();
    assert_eq!(hashes(&l.export_sorted()), vec!["0x0c", "0x0b", "0x0a"]);
}

#[test]
fn export_twice_gives_the_same_rows() {
    let mut l = ledger();
    l.import_from_gnosisscan(answer(vec![
        transfer("0x03", "300", OTHER, WALLET, "1"),
        transfer("0x01", "100", WALLET, OTHER, "2"),
        transfer("0x02", "100", OTHER, WALLET, "3"),
    ]))
    .unwrap();
    let once = l.export_sorted();
    let mut again = ledger();
    for row in &once {
        again.put(row.clone());
    }
    let twice = again.export_sorted();
    assert_eq!(hashes(&once), hashes(&twice));
    assert_eq!(hashes(&once), hashes(&l.export_sorted()));
    for k in 0..once.len() {
        assert_eq!(once[k].date, twice[k].date);
        assert_eq!(once[k].name, twice[k].name);
        assert_eq!(signed(&once[k]), signed(&twice[k]));
    }
}

#[test]
fn export_of_an_empty_ledger_is_empty() {
    assert!(ledger().export_sorted().is_empty());
}

#[test]
fn amounts_add_up_in_any_order() {
    let records = vec![
        transfer("0x01", "1", ZERO, WALLET, "10000000000000000000"),
        transfer("0x02", "2", WALLET, BANK, "2500000000000000000"),
        transfer("0x03", "3", WALLET, OTHER, "1250000000000000000"),
        transfer("0x04", "4", OTHER, WALLET, "750000000000000000"),
    ];
    let mut forward = ledger();
    forward.import_from_gnosisscan(answer(records.clone())).unwrap();
    let mut backward = ledger();
    let mut reversed = records;
    reversed.reverse();
    backward.import_from_gnosisscan(answer(reversed)).unwrap();
    let a: f64 = forward.transactions.iter().map(signed).sum();
    let b: f64 = backward.transactions.iter().map(signed).sum();
    let c: f64 = forward.export_sorted().iter().map(signed).sum();
    assert_eq!(a, 7.0);
    assert_eq!(b, 7.0);
    assert_eq!(c, 7.0);
}
