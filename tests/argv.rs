use hledger_lib::{
    accounts_args, balance_args, balancesheet_args, cashflow_args, incomestatement_args, print_args,
    AccountsOptions, BalanceOptions, CashflowOptions, IncomeStatementOptions, PrintOptions,
};

fn texts(v: &[&str]) -> Vec<String> {
    v.iter().map(|s| s.to_string()).collect()
}

#[test]
fn accounts_depth_one_is_flat_and_limited() {
    let args = accounts_args(Some("books.journal"), &AccountsOptions::new().depth(1));
    assert_eq!(args, texts(&["-f", "books.journal", "accounts", "--flat", "--depth=1"]));
    assert!(args.contains(&"--depth=1".to_string()));
    assert!(args.contains(&"--flat".to_string()));
}

#[test]
fn balance_args_match_hand_written_list() {
    let mut o = BalanceOptions::new().monthly().tree().depth(12).row_total().begin("2024-01-01");
    o.budget = Some("monthly".to_string());
    o = o.query("expenses").query("not:food");
    let args = balance_args(None, &o);
    assert_eq!(
        args,
        texts(&[
            "balance",
            "--output-format",
            "json",
            "--monthly",
            "--budget=monthly",
            "--tree",
            "--row-total",
            "--depth=12",
            "--begin",
            "2024-01-01",
            "expenses",
            "not:food",
        ])
    );
}

#[test]
fn balance_conflicting_modes_give_one_flag_each() {
    let mut o = BalanceOptions::new().daily().weekly().yearly().cumulative().historical();
    o.valuechange = true;
    o.gain = true;
    o.count = true;
    let args = balance_args(None, &o);
    let periods: Vec<&String> =
        args.iter().filter(|a| ["--daily", "--weekly", "--yearly"].contains(&a.as_str())).collect();
    assert_eq!(periods, vec!["--yearly"]);
    assert!(args.contains(&"--count".to_string()));
    assert!(!args.contains(&"--gain".to_string()) && !args.contains(&"--valuechange".to_string()));
    assert!(args.contains(&"--historical".to_string()) && !args.contains(&"--cumulative".to_string()));
    assert!(args.contains(&"--flat".to_string()));
}

#[test]
fn statement_args_for_both_commands() {
    let o = IncomeStatementOptions::new().quarterly().gain().valuechange().change().query("income");
    let is = incomestatement_args(Some("j"), &o);
    assert_eq!(
        is,
        texts(&["-f", "j", "incomestatement", "--output-format", "json", "--quarterly", "--gain", "--change", "--flat", "income"])
    );
    let bs = balancesheet_args(None, &IncomeStatementOptions::new().historical().market());
    assert_eq!(bs, texts(&["balancesheet", "--output-format", "json", "--historical", "--flat", "--market"]));
}

#[test]
fn cashflow_args_keep_patterns_last() {
    let mut o = CashflowOptions::new().budget().tree().period("2024").query("assets:cash");
    o.daily = true;
    o.monthly = true;
    let args = cashflow_args(None, &o);
    assert_eq!(
        args,
        texts(&["cashflow", "--output-format", "json", "--budget", "--tree", "--period", "2024", "--daily", "assets:cash"])
    );
}

#[test]
fn print_args_in_order() {
    let o = PrintOptions::new().explicit().round("hard").match_desc("grocery").cleared().query("food");
    let args = print_args(Some("x.journal"), &o);
    assert_eq!(
        args,
        texts(&["-f", "x.journal", "print", "--output-format", "json", "--explicit", "--round=hard", "--match", "grocery", "--cleared", "food"])
    );
}
