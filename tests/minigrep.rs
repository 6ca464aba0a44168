use book_exercises::grep::{search_case_insensitive, search_case_sensitive, select_lines, Config};

#[test]
fn test_config_new_0_args() {
    let args: Vec<&str> = vec![];
    match Config::new(args.iter().map(|arg| arg.to_string()).collect(), true) {
        Ok(_) => panic!(),
        Err(_) => (),
    }
}

#[test]
fn test_config_new_1_args() {
    let args: Vec<&str> = vec!["path/to/bin"];
    match Config::new(args.iter().map(|arg| arg.to_string()).collect(), true) {
        Ok(_) => panic!(),
        Err(_) => (),
    }
}

#[test]
fn test_config_new_2_args() {
    let args = vec!["path/to/bin", "needle"];
    match Config::new(args.iter().map(|arg| arg.to_string()).collect(), true) {
        Ok(_) => panic!(),
        Err(_) => (),
    }
}

#[test]
fn test_config_new_3_args() {
    let args = vec!["path/to/bin", "needle", "haystack"];
    let config = Config::new(args.iter().map(|arg| arg.to_string()).collect(), true).unwrap();
    assert_eq!(config.query, args[1].to_string());
    assert_eq!(config.filename, args[2].to_string());
}

#[test]
fn test_config_new_4_args() {
    let args = vec!["path/to/bin", "needle", "haystack", "extra"];
    let config = Config::new(args.iter().map(|arg| arg.to_string()).collect(), true).unwrap();
    assert_eq!(config.query, args[1].to_string());
    assert_eq!(config.filename, args[2].to_string());
}

#[test]
fn test_search_0_results() {
    let query = "rust";
    let contents = "
Rust:
safe, fast, productive.
Pick three.";
    let actual = search_case_sensitive(query, contents);
    let target: Vec<&str> = vec![];
    assert_eq!(actual, target);
}

#[test]
fn test_search_1_result() {
    let query = "Rust";
    let contents = "
Rust:
safe, fast, productive.
Pick three.";
    let actual = search_case_sensitive(query, contents);
    let target = vec!["Rust:"];
    assert_eq!(actual, target);
}

#[test]
fn test_search_2_results() {
    let query = "s";
    let contents = "
Rust:
safe, fast, productive.
Pick three.";
    let actual = search_case_sensitive(query, contents);
    let target = vec!["Rust:", "safe, fast, productive."];
    assert_eq!(actual, target);
}

#[test]
fn test_search_case_insensitive() {
    let query = "ruST";
    let contents = "
Rust:
safe, fast, productive.
Pick three.";
    let actual = search_case_insensitive(query, contents);
    let target = vec!["Rust:"];
    assert_eq!(actual, target);
}

#[test]
fn config_errors_name_the_missing_argument() {
    let none: Vec<String> = vec![];
    assert_eq!(Config::new(none, true).err(), Some("Didn't get a query string."));
    let one = vec!["bin".to_string(), "q".to_string()];
    assert_eq!(Config::new(one, false).err(), Some("Didn't get a file name."));
}

#[test]
fn config_keeps_the_case_flag() {
    let args = vec!["bin".to_string(), "q".to_string(), "f".to_string()];
    assert!(!Config::new(args.clone(), false).unwrap().case_sensitive);
    assert!(Config::new(args, true).unwrap().case_sensitive);
}

#[test]
fn search_splits_crlf_lines_and_ignores_final_newline() {
    let contents = "one fish\r\ntwo fish\nred\n";
    assert_eq!(search_case_sensitive("fish", contents), vec!["one fish", "two fish"]);
    assert_eq!(search_case_sensitive("", ""), Vec::<&str>::new());
    assert_eq!(search_case_sensitive("", "a\n\nb"), vec!["a", "", "b"]);
}

#[test]
fn select_lines_uses_the_folded_keys() {
    let lines = vec!["Alpha", "beta", "GAMMA"];
    let folded = vec!["alpha".to_string(), "beta".to_string(), "gamma".to_string()];
    assert_eq!(select_lines(&lines, &folded, "a"), vec!["Alpha", "beta", "GAMMA"]);
    assert_eq!(select_lines(&lines, &folded, "mm"), vec!["GAMMA"]);
    assert_eq!(select_lines(&lines, &folded, "MM"), Vec::<&str>::new());
}

#[test]
fn case_insensitive_search_folds_both_sides() {
    let contents = "Trust me.\nDUST\nnothing";
    assert_eq!(search_case_insensitive("uSt", contents), vec!["Trust me.", "DUST"]);
    assert_eq!(search_case_sensitive("uSt", contents), Vec::<&str>::new());
}

#[test]
fn search_follows_the_case_flag() {
    let args = vec!["bin".to_string(), "rUst".to_string(), "file".to_string()];
    let contents = "Rust:\ntrust\nnothing";
    let sensitive = Config::new(args.clone(), true).unwrap();
    assert_eq!(book_exercises::grep::search(&sensitive, contents), Vec::<&str>::new());
    let insensitive = Config::new(args, false).unwrap();
    assert_eq!(book_exercises::grep::search(&insensitive, contents), vec!["Rust:", "trust"]);
}
