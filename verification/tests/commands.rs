use livegrep::options::{editor_command, preview_args, search_args, u32_string, Options};

fn as_strs(args: &[String]) -> Vec<&str> {
    args.iter().map(|s| s.as_str()).collect()
}

#[test]
fn search_args_plain_query() {
    // Query "foo", hidden off, glob empty: no glob arguments, no hidden flag.
    let options = Options {
        show_hidden: false,
        prompt: String::from("foo"),
        glob: String::new(),
    };
    let args = search_args(&options);
    assert_eq!(as_strs(&args), ["--column", "--color=always", "--no-hidden", "foo"]);
}

#[test]
fn search_args_hidden_and_globs() {
    let options = Options {
        show_hidden: true,
        prompt: String::from("needle"),
        glob: String::from(" *.rs ; src/** ;"),
    };
    let args = search_args(&options);
    assert_eq!(
        as_strs(&args),
        ["--column", "--color=always", "--hidden", "--glob", "*.rs", "--glob", "src/**", "needle"],
    );
}

#[test]
fn search_args_all_blank_globs() {
    let options = Options {
        show_hidden: false,
        prompt: String::from("q"),
        glob: String::from(" ;  ; "),
    };
    let args = search_args(&options);
    assert_eq!(as_strs(&args), ["--column", "--color=always", "--no-hidden", "q"]);
}

#[test]
fn search_args_trim_mixed_whitespace() {
    let options = Options {
        show_hidden: false,
        prompt: String::from("q"),
        glob: String::from("\t*.toml \r\n;*.lock"),
    };
    let args = search_args(&options);
    assert_eq!(
        as_strs(&args),
        ["--column", "--color=always", "--no-hidden", "--glob", "*.toml", "--glob", "*.lock", "q"],
    );
}

#[test]
fn preview_args_with_line() {
    let args = preview_args(&String::from("a.txt"), Some(3));
    assert_eq!(as_strs(&args), ["--color=always", "-n", "-H", "3", "a.txt"]);
}

#[test]
fn preview_args_without_line() {
    let args = preview_args(&String::from("dir/b.rs"), None);
    assert_eq!(as_strs(&args), ["--color=always", "-n", "dir/b.rs"]);
}

#[test]
fn editor_command_with_line() {
    let cmd = editor_command(&String::from("a.txt"), Some(3));
    assert_eq!(cmd, "$EDITOR +3 \"a.txt\"");
}

#[test]
fn editor_command_without_line() {
    let cmd = editor_command(&String::from("a b.txt"), None);
    assert_eq!(cmd, "$EDITOR \"a b.txt\"");
}

#[test]
fn u32_string_exact_values() {
    assert_eq!(u32_string(0), "0");
    assert_eq!(u32_string(7), "7");
    assert_eq!(u32_string(307), "307");
    assert_eq!(u32_string(u32::MAX), "4294967295");
}
