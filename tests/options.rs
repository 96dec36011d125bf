use hledger_lib::statement::BalanceSheetOptions;
use hledger_lib::{AccountsOptions, BalanceOptions, CashflowOptions, IncomeStatementOptions, PrintOptions};

#[test]
fn test_accounts_options_builder() {
    let options = AccountsOptions::new()
        .used()
        .depth(2)
        .begin("2024-01-01")
        .query("assets");

    assert!(options.used);
    assert_eq!(options.depth, Some(2));
    assert_eq!(options.begin, Some("2024-01-01".to_string()));
    assert_eq!(options.queries, vec!["assets"]);
}

#[test]
fn test_balance_options_builder() {
    let options = BalanceOptions::new()
        .monthly()
        .tree()
        .depth(2)
        .row_total()
        .average()
        .query("expenses");

    assert!(options.monthly);
    assert!(options.tree);
    assert!(!options.flat);
    assert_eq!(options.depth, Some(2));
    assert!(options.row_total);
    assert!(options.average);
    assert_eq!(options.queries, vec!["expenses"]);
}

#[test]
fn test_cashflow_options_builder() {
    let opts = CashflowOptions::new()
        .monthly()
        .tree()
        .depth(3)
        .empty()
        .begin("2024-01-01")
        .end("2024-12-31");

    assert!(opts.monthly);
    assert!(opts.tree);
    assert!(!opts.flat);
    assert_eq!(opts.depth, Some(3));
    assert!(opts.empty);
    assert_eq!(opts.begin, Some("2024-01-01".to_string()));
    assert_eq!(opts.end, Some("2024-12-31".to_string()));
}

#[test]
fn test_calculation_modes_mutual_exclusion() {
    let opts = CashflowOptions::new().valuechange();
    assert!(opts.valuechange);
    assert!(!opts.sum);
    assert!(!opts.gain);
    assert!(!opts.budget);

    let opts = CashflowOptions::new().gain();
    assert!(opts.gain);
    assert!(!opts.sum);
    assert!(!opts.valuechange);
    assert!(!opts.budget);
}

#[test]
fn test_accumulation_modes_mutual_exclusion() {
    let opts = CashflowOptions::new().cumulative();
    assert!(opts.cumulative);
    assert!(!opts.change);
    assert!(!opts.historical);

    let opts = CashflowOptions::new().historical();
    assert!(opts.historical);
    assert!(!opts.change);
    assert!(!opts.cumulative);
}

#[test]
fn test_period_flags_mutual_exclusion() {
    let opts = CashflowOptions::new().monthly();
    assert!(opts.monthly);
    assert!(!opts.daily);
    assert!(!opts.weekly);
    assert!(!opts.quarterly);
    assert!(!opts.yearly);

    let opts = CashflowOptions::new().yearly();
    assert!(opts.yearly);
    assert!(!opts.daily);
    assert!(!opts.weekly);
    assert!(!opts.monthly);
    assert!(!opts.quarterly);
}

#[test]
fn test_incomestatement_options_builder() {
    let options = IncomeStatementOptions::new()
        .monthly()
        .tree()
        .depth(2)
        .row_total()
        .average()
        .query("expenses");

    assert!(options.monthly);
    assert!(options.tree);
    assert!(!options.flat);
    assert_eq!(options.depth, Some(2));
    assert!(options.row_total);
    assert!(options.average);
    assert_eq!(options.queries, vec!["expenses"]);
}

#[test]
fn test_incomestatement_options_accumulation_modes() {
    let options = IncomeStatementOptions::new().historical();
    assert!(options.historical);

    let options = IncomeStatementOptions::new().cumulative();
    assert!(options.cumulative);

    let options = IncomeStatementOptions::new().change();
    assert!(options.change);
}

#[test]
fn test_incomestatement_options_calculation_modes() {
    let options = IncomeStatementOptions::new().valuechange();
    assert!(options.valuechange);

    let options = IncomeStatementOptions::new().gain();
    assert!(options.gain);
}

#[test]
fn test_print_options_builder() {
    let options = PrintOptions::new()
        .explicit()
        .show_costs()
        .round("soft")
        .begin("2024-01-01")
        .end("2024-12-31")
        .cleared()
        .query("expenses");

    assert!(options.explicit);
    assert!(options.show_costs);
    assert_eq!(options.round, Some("soft".to_string()));
    assert_eq!(options.begin, Some("2024-01-01".to_string()));
    assert_eq!(options.end, Some("2024-12-31".to_string()));
    assert!(options.cleared);
    assert_eq!(options.queries, vec!["expenses"]);
}

#[test]
fn test_get_balancesheet_options_builder() {
    let options = BalanceSheetOptions::new()
        .monthly()
        .tree()
        .depth(3)
        .row_total()
        .average()
        .query("assets")
        .begin("2024-01-01")
        .end("2024-12-31")
        .historical();

    assert!(options.monthly);
    assert!(options.tree);
    assert!(!options.flat);
    assert_eq!(options.depth, Some(3));
    assert!(options.row_total);
    assert!(options.average);
    assert_eq!(options.queries, vec!["assets"]);
    assert_eq!(options.begin, Some("2024-01-01".to_string()));
    assert_eq!(options.end, Some("2024-12-31".to_string()));
    assert!(options.historical);
}

#[test]
fn test_get_incomestatement_options_builder() {
    let options = IncomeStatementOptions::new()
        .monthly()
        .tree()
        .depth(3)
        .row_total()
        .average()
        .query("expenses")
        .begin("2024-01-01")
        .end("2024-12-31")
        .change();

    assert!(options.monthly);
    assert!(options.tree);
    assert!(!options.flat);
    assert_eq!(options.depth, Some(3));
    assert!(options.row_total);
    assert!(options.average);
    assert_eq!(options.queries, vec!["expenses"]);
    assert_eq!(options.begin, Some("2024-01-01".to_string()));
    assert_eq!(options.end, Some("2024-12-31".to_string()));
    assert!(options.change);
}

#[test]
fn test_get_cashflow_options_builder() {
    let options = CashflowOptions::new()
        .monthly()
        .tree()
        .depth(3)
        .row_total()
        .average()
        .query("cash")
        .begin("2024-01-01")
        .end("2024-12-31")
        .historical();

    assert!(options.monthly);
    assert!(options.tree);
    assert!(!options.flat);
    assert_eq!(options.depth, Some(3));
    assert!(options.row_total);
    assert!(options.average);
    assert_eq!(options.query, vec!["cash"]);
    assert_eq!(options.begin, Some("2024-01-01".to_string()));
    assert_eq!(options.end, Some("2024-12-31".to_string()));
    assert!(options.historical);
}

#[test]
fn defaults_match_new() {
    let a = AccountsOptions::default();
    assert!(!a.used && a.depth.is_none() && a.queries.is_empty());
    let c = CashflowOptions::default();
    assert!(c.sum && c.change && c.flat && !c.tree);
    let p = PrintOptions::default().new_only().real_only().match_desc("rent");
    assert!(p.new && p.real);
    assert_eq!(p.match_desc, Some("rent".to_string()));
    let b = BalanceOptions::default().queries(vec!["a".to_string(), "b".to_string()]).query("c");
    assert_eq!(b.queries, vec!["a", "b", "c"]);
}
