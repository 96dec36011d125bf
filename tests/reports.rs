use hledger_lib::amount::parse_amounts;
use hledger_lib::json::JsonValue;
use hledger_lib::print::{parse_amount_style, parse_source_position};
use hledger_lib::quantity::parse_decimal_from_json;
use hledger_lib::{
    parse_accounts_output, parse_balance, parse_balancesheet, parse_cashflow, parse_incomestatement, parse_print,
    BalanceReport, HLedgerError, Quantity,
};

const AMOUNT_100: &str = r#"{"acommodity":"$","aquantity":{"decimalMantissa":10000,"decimalPlaces":2}}"#;

fn periodic(rows: &str) -> String {
    format!(
        r#"{{"prDates":[[{{"tag":"Exact","contents":"2024-01-01"}},{{"tag":"Exact","contents":"2024-02-01"}}]],"prRows":{},"prTotals":{{"prrName":[],"prrAmounts":[[{}]],"prrTotal":[{}],"prrAverage":[{}]}}}}"#,
        rows, AMOUNT_100, AMOUNT_100, AMOUNT_100
    )
}

#[test]
fn test_parse_accounts_output() {
    let output = "assets:bank:checking\nassets:investments:fidelity:cash\nexpenses:groceries\n";
    let accounts = parse_accounts_output(output);

    assert_eq!(
        accounts,
        vec![
            "assets:bank:checking",
            "assets:investments:fidelity:cash",
            "expenses:groceries"
        ]
    );
}

#[test]
fn accounts_output_lines_are_trimmed_and_blank_lines_dropped() {
    let output = "  assets:bank:checking \r\n\n\t\nexpenses:groceries";
    assert_eq!(parse_accounts_output(output), vec!["assets:bank:checking", "expenses:groceries"]);
    assert!(parse_accounts_output("").is_empty());
}

#[test]
fn balance_test_parse_decimal() {
    let json = JsonValue::parse(r#"{"decimalMantissa": 2000, "decimalPlaces": 2}"#).unwrap();
    let decimal = parse_decimal_from_json(&json).unwrap();
    assert_eq!(decimal, Quantity::new(2000, 2));

    let json = JsonValue::parse("20.5").unwrap();
    let decimal = parse_decimal_from_json(&json).unwrap();
    assert_eq!(decimal.to_string(), "20.5");

    let json = JsonValue::parse(r#""30.25""#).unwrap();
    let decimal = parse_decimal_from_json(&json).unwrap();
    assert_eq!(decimal.to_string(), "30.25");
}

#[test]
fn print_test_parse_decimal() {
    let json = JsonValue::parse(r#"{"decimalMantissa": 2000, "decimalPlaces": 2}"#).unwrap();
    let decimal = parse_decimal_from_json(&json).unwrap();
    assert_eq!(decimal, Quantity::new(2000, 2));

    let json = JsonValue::parse("20.5").unwrap();
    let decimal = parse_decimal_from_json(&json).unwrap();
    assert_eq!(decimal.to_string(), "20.5");
}

#[test]
fn decimal_encodings_agree_on_value() {
    let object = parse_decimal_from_json(&JsonValue::parse(r#"{"decimalMantissa":2050,"decimalPlaces":2}"#).unwrap()).unwrap();
    let string = parse_decimal_from_json(&JsonValue::parse(r#""20.50""#).unwrap()).unwrap();
    let number = parse_decimal_from_json(&JsonValue::parse("20.5").unwrap()).unwrap();
    assert_eq!(object, string);
    assert_eq!(object, number);
    assert_eq!(string, number);
    assert_ne!(number, Quantity::new(2051, 2));
    assert_eq!(object.to_string(), "20.50");
    assert_eq!(number.to_string(), "20.5");
    assert_eq!(number.mantissa * 10, string.mantissa);
    assert_eq!(number.scale + 1, string.scale);
}

#[test]
fn decimal_edge_cases() {
    let missing_places = parse_decimal_from_json(&JsonValue::parse(r#"{"decimalMantissa":-7}"#).unwrap()).unwrap();
    assert_eq!(missing_places, Quantity::new(-7, 0));
    let float = parse_decimal_from_json(&JsonValue::parse("0.1").unwrap()).unwrap();
    assert_eq!(float.to_string(), "0.1000000000000000055511151231");
    for bad in [r#"{"decimalMantissa":1,"decimalPlaces":29}"#, r#"{"other":1}"#, r#""abc""#, "true", "null", "[]"] {
        let r = parse_decimal_from_json(&JsonValue::parse(bad).unwrap());
        assert!(matches!(r, Err(HLedgerError::ParseError(_))), "{}", bad);
    }
}

#[test]
fn test_parse_amount() {
    let json = JsonValue::parse(
        r#"[{
            "acommodity": "$",
            "aquantity": {"decimalMantissa": 10000, "decimalPlaces": 2},
            "astyle": {
                "ascommodityside": "L",
                "ascommodityspaced": false,
                "asdecimalmark": ".",
                "asdigitgroups": null,
                "asprecision": 2
            }
        }]"#,
    )
    .unwrap();

    let amounts = parse_amounts(&json).unwrap();
    assert_eq!(amounts.len(), 1);
    assert_eq!(amounts[0].commodity, "$");
    assert_eq!(amounts[0].quantity, Quantity::new(10000, 2));
}

#[test]
fn amount_prices_in_both_encodings() {
    let json = JsonValue::parse(
        r#"[{"acommodity":"AAPL","aquantity":"3","aprice":{"tag":"UnitPrice","contents":{"acommodity":"$","aquantity":"150.25"}}},
            {"acommodity":"EUR","aquantity":"2","aprice":{"priceAmount":{"acommodity":"$","aquantity":"1.10"}}},
            {"acommodity":"X","aprice":null},
            7]"#,
    )
    .unwrap();
    let amounts = parse_amounts(&json).unwrap();
    assert_eq!(amounts.len(), 3);
    let p0 = amounts[0].price.as_ref().unwrap();
    assert_eq!((p0.commodity.as_str(), p0.quantity), ("$", Quantity::new(15025, 2)));
    let p1 = amounts[1].price.as_ref().unwrap();
    assert_eq!((p1.commodity.as_str(), p1.quantity), ("$", Quantity::new(110, 2)));
    assert!(amounts[2].price.is_none());
    assert_eq!(amounts[2].quantity, Quantity::zero());
}

#[test]
fn simple_balance_scenario() {
    let doc = r#"[[["assets:bank:checking","assets:bank:checking",0,[{"acommodity":"$","aquantity":{"decimalMantissa":10000,"decimalPlaces":2}}]]], [{"acommodity":"$","aquantity":{"decimalMantissa":10000,"decimalPlaces":2}}]]"#;
    match parse_balance(doc).unwrap() {
        BalanceReport::Simple(s) => {
            assert_eq!(s.accounts.len(), 1);
            let a = &s.accounts[0];
            assert_eq!(a.name, "assets:bank:checking");
            assert_eq!(a.display_name, "assets:bank:checking");
            assert_eq!(a.indent, 0);
            assert_eq!(a.amounts.len(), 1);
            assert_eq!(a.amounts[0].commodity, "$");
            assert_eq!(a.amounts[0].quantity.to_string(), "100.00");
            assert_eq!(s.totals.len(), 1);
            assert_eq!(s.totals[0].commodity, a.amounts[0].commodity);
            assert_eq!(s.totals[0].quantity, a.amounts[0].quantity);
        }
        other => panic!("expected the single-period shape, got {:?}", other),
    }
}

#[test]
fn balance_classifier() {
    assert!(matches!(parse_balance("[[], []]").unwrap(), BalanceReport::Simple(_)));
    let p = parse_balance(&periodic("[]")).unwrap();
    match p {
        BalanceReport::Periodic(p) => {
            assert_eq!(p.dates.len(), 1);
            assert_eq!(p.dates[0].start, "2024-01-01");
            assert_eq!(p.dates[0].end, "2024-02-01");
            assert!(p.rows.is_empty());
            let t = p.totals.unwrap();
            assert_eq!(t.account, "");
            assert_eq!(t.amounts.len(), 1);
            assert_eq!(t.total.unwrap().len(), 1);
        }
        other => panic!("expected the periodic shape, got {:?}", other),
    }
    for doc in ["[[]]", "[[], [], []]", r#"{"prRows": []}"#, "42", r#""text""#, "null"] {
        assert!(matches!(parse_balance(doc), Err(HLedgerError::ParseError(_))), "{}", doc);
    }
    assert!(matches!(parse_balance("{not json"), Err(HLedgerError::Json(_))));
}

#[test]
fn balance_parse_is_idempotent() {
    let doc = periodic(r#"[{"prrName":"expenses:food","prrAmounts":[[{"acommodity":"$","aquantity":"12.5"}]]}]"#);
    let first = format!("{:?}", parse_balance(&doc).unwrap());
    let second = format!("{:?}", parse_balance(&doc).unwrap());
    assert_eq!(first, second);
}

#[test]
fn periodic_boundaries() {
    let missing_rows = r#"{"prDates": [], "prTotals": null}"#;
    assert!(matches!(parse_balance(missing_rows), Err(HLedgerError::ParseError(_))));
    let bad_date_pair = r#"{"prDates": [[{"contents":"2024-01-01"}], 5, [{"contents":"a"},{"contents":"b"}]], "prRows": []}"#;
    match parse_balance(bad_date_pair).unwrap() {
        BalanceReport::Periodic(p) => {
            assert_eq!(p.dates.len(), 1);
            assert_eq!((p.dates[0].start.as_str(), p.dates[0].end.as_str()), ("a", "b"));
            assert!(p.totals.is_none());
        }
        other => panic!("{:?}", other),
    }
    let bad_row = r#"{"prDates": [], "prRows": [3]}"#;
    assert!(matches!(parse_balance(bad_row), Err(HLedgerError::ParseError(_))));
    let short_account = r#"[[["a","a",0]], []]"#;
    assert!(matches!(parse_balance(short_account), Err(HLedgerError::ParseError(_))));
}

fn statement_doc(title: Option<&str>) -> String {
    let title = match title {
        Some(t) => format!(r#""cbrTitle":"{}","#, t),
        None => String::new(),
    };
    format!(
        r#"{{{}"cbrDates":[],"cbrSubreports":[["Revenues",{},true],["Expenses",{},false],["Other",{}],["Liabilities",{},"yes"]],"cbrTotals":{{"prrName":[],"prrAmounts":[]}}}}"#,
        title,
        periodic("[]"),
        periodic(r#"[{"prrName":"expenses:food","prrAmounts":[]}]"#),
        periodic("[]"),
        periodic("[]")
    )
}

#[test]
fn subreport_increases_total_scenario() {
    let report = parse_incomestatement(&statement_doc(Some("Income Statement 2024"))).unwrap();
    assert_eq!(report.title, "Income Statement 2024");
    assert_eq!(report.subreports.len(), 3);
    assert_eq!(report.subreports[0].name, "Revenues");
    assert!(report.subreports[0].increases_total);
    assert_eq!(report.subreports[1].name, "Expenses");
    assert!(!report.subreports[1].increases_total);
    assert_eq!(report.subreports[1].rows[0].account, "expenses:food");
    assert_eq!(report.subreports[2].name, "Liabilities");
    assert!(report.subreports[2].increases_total);
    assert!(report.totals.is_some());
}

#[test]
fn statement_titles_default_per_kind() {
    assert_eq!(parse_incomestatement(&statement_doc(None)).unwrap().title, "Income Statement");
    assert_eq!(parse_balancesheet(&statement_doc(None)).unwrap().title, "Balance Sheet");
    let cf = parse_cashflow(&statement_doc(None)).unwrap();
    assert_eq!(cf.title, "Cashflow Statement");
    assert!(!cf.subreports[1].increases_total);
    assert_eq!(cf.subreports[1].data.rows[0].account, "expenses:food");
    assert!(matches!(parse_cashflow(r#"{"cbrDates":[]}"#), Err(HLedgerError::ParseError(_))));
    assert!(matches!(parse_incomestatement("[]"), Err(HLedgerError::ParseError(_))));
}

#[test]
fn test_parse_source_position() {
    let json = JsonValue::parse(r#"{"sourceLine": 10, "sourceColumn": 5, "sourceName": "test.journal"}"#).unwrap();
    let pos = parse_source_position(&json).unwrap();
    assert_eq!(pos.line, 10);
    assert_eq!(pos.column, 5);
    assert_eq!(pos.file, "test.journal");
}

#[test]
fn test_parse_amount_style() {
    let json = JsonValue::parse(
        r#"{
            "ascommodityside": "R",
            "ascommodityspaced": true,
            "asdecimalmark": ",",
            "asdigitgroups": "3",
            "asprecision": 2,
            "asrounding": "HardRounding"
        }"#,
    )
    .unwrap();
    let style = parse_amount_style(&json).unwrap();
    assert_eq!(style.commodity_side, "R");
    assert!(style.commodity_spaced);
    assert_eq!(style.decimal_mark, Some(",".to_string()));
    assert_eq!(style.digit_groups, Some("3".to_string()));
    assert_eq!(style.precision, 2);
    assert_eq!(style.rounding, "HardRounding");
}

#[test]
fn print_transactions_with_defaults_and_original_posting() {
    let doc = r#"[{"tindex":1,"tdate":"2024-01-05","tdescription":"Grocery","ttags":[["trip","paris"],["trip","rome"],["bad"]],
        "tsourcepos":[{"sourceLine":3,"sourceColumn":1,"sourceName":"a.journal"},7],
        "tpostings":[{"paccount":"expenses:food","pamount":[{"acommodity":"$","aquantity":"5"}],
            "pbalanceassertion":{"baamount":{"acommodity":"$","aquantity":"5"},"batotal":true},
            "poriginal":{"paccount":"expenses","poriginal":null}},
          {"paccount":"assets:cash","ptype":"VirtualPosting","pstatus":"Cleared","poriginal":null,"pbalanceassertion":null}]}]"#;
    let report = parse_print(doc).unwrap();
    assert_eq!(report.len(), 1);
    let t = &report[0];
    assert_eq!((t.index, t.date.as_str(), t.status.as_str()), (1, "2024-01-05", "Unmarked"));
    assert_eq!(t.tags, vec![("trip".to_string(), "paris".to_string()), ("trip".to_string(), "rome".to_string())]);
    assert_eq!(t.source_positions.len(), 1);
    assert_eq!(t.source_positions[0].line, 3);
    let p = &t.postings[0];
    assert_eq!(p.posting_type, "RegularPosting");
    assert_eq!(p.amounts[0].style.commodity_side, "L");
    assert_eq!(p.amounts[0].style.decimal_mark, Some(".".to_string()));
    let ba = p.balance_assertion.as_ref().unwrap();
    assert!(ba.total && !ba.inclusive);
    assert_eq!(ba.position.line, 0);
    let orig = p.original.as_ref().unwrap();
    assert_eq!(orig.account, "expenses");
    assert!(orig.original.is_none());
    let q = &t.postings[1];
    assert_eq!((q.posting_type.as_str(), q.status.as_str()), ("VirtualPosting", "Cleared"));
    assert!(q.original.is_none() && q.balance_assertion.is_none());
    assert!(matches!(parse_print("{}"), Err(HLedgerError::ParseError(_))));
    assert!(matches!(parse_print("[1]"), Err(HLedgerError::ParseError(_))));
    assert!(matches!(parse_print(r#"[{"tdate":"d","tpostings":[{"paccount":"a","pamount":[{"astyle":5}]}]}]"#), Err(HLedgerError::ParseError(_))));
}

#[test]
fn print_requires_date_and_account() {
    assert!(matches!(parse_print("[{}]"), Err(HLedgerError::ParseError(_))));
    assert!(matches!(parse_print(r#"[{"tdate":"2024-01-01","tpostings":[{"pamount":[]}]}]"#), Err(HLedgerError::ParseError(_))));
    let t = parse_print(r#"[{"tdate":5,"tpostings":[{"paccount":null}]}]"#).unwrap();
    assert_eq!(t[0].date, "");
    assert_eq!(t[0].postings[0].account, "");
}

#[test]
fn quantity_rendering() {
    assert_eq!(Quantity::new(0, 2).to_string(), "0.00");
    assert_eq!(Quantity::new(-5, 2).to_string(), "-0.05");
    assert_eq!(Quantity::new(-12345, 2).to_string(), "-123.45");
    assert_eq!(Quantity::new(0, 0).to_string(), "0");
    assert_eq!(Quantity::new(7, 0).to_string(), "7");
}
