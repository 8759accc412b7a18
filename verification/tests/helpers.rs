use libkoompi::helpers::file_helper::has_path;
use libkoompi::helpers::format_helper::TITLE_MAX;
use libkoompi::helpers::decimal::{decimal_chars, digit_of, parse_decimal};
use libkoompi::helpers::pattern::replace_first;
use libkoompi::helpers::sorting::{dedup_texts, sort_texts, text_le};
use libkoompi::helpers::text::{
    from_chars, from_chars_range, is_whitespace_char, same_list, same_text, str_concat,
    str_contains, str_join, str_lines, str_replace, str_split, str_starts_with, str_trim,
    to_chars,
};
use libkoompi::helpers::{
    dbus_call_init_system, exec_cmd, exec_pipe_cmd, exec_spawn_cmd, get_bool_yesno,
    get_list_by_sep, get_val_from_keyval, to_account_name, to_formatted_name, Arg, Bus, Command,
    CommandError, MethodCall, Output,
};

fn chars(s: &str) -> Vec<char> {
    s.chars().collect()
}

fn texts(list: &[&str]) -> Vec<Vec<char>> {
    list.iter().map(|s| chars(s)).collect()
}

fn strings(list: &[&str]) -> Vec<String> {
    list.iter().map(|s| s.to_string()).collect()
}

#[test]
fn list_by_sep_cuts_at_every_separator() {
    assert_eq!(get_list_by_sep("a:b:c", ":"), vec!["a", "b", "c"]);
    assert_eq!(get_list_by_sep("", ":"), vec![""]);
    assert_eq!(get_list_by_sep("a::b:", ":"), vec!["a", "", "b", ""]);
    assert_eq!(get_list_by_sep("a--b-", "--"), vec!["a", "b-"]);
    assert_eq!(get_list_by_sep("aaa", "aa"), vec!["", "a"]);
    assert_eq!(get_list_by_sep("abc", "abcd"), vec!["abc"]);
    assert_eq!(get_list_by_sep("ខ្មែរ - កម្ពុជា", " - "), vec!["ខ្មែរ", "កម្ពុជា"]);
}

#[test]
fn list_by_an_empty_separator_cuts_between_all_characters() {
    assert_eq!(get_list_by_sep("abc", ""), vec!["", "a", "b", "c", ""]);
    assert_eq!(get_list_by_sep("", ""), vec!["", ""]);
    assert_eq!(get_list_by_sep("abc", ""), "abc".split("").collect::<Vec<&str>>());
}

#[test]
fn split_agrees_with_the_standard_library() {
    let samples = ["", "a", "a,b", ",,", "ab,,cd,", "xaxbxxc", "aaaa", "a\n,b"];
    let seps = [",", "x", "aa", ",,", "\n"];
    for s in samples.iter() {
        for sep in seps.iter() {
            assert_eq!(str_split(s, sep), s.split(sep).collect::<Vec<&str>>(), "{:?} by {:?}", s, sep);
        }
    }
}

#[test]
fn yes_is_the_only_yes() {
    assert!(get_bool_yesno("yes"));
    assert!(get_bool_yesno("  yes\n"));
    assert!(!get_bool_yesno("no"));
    assert!(!get_bool_yesno("Yes"));
    assert!(!get_bool_yesno("yes yes"));
    assert!(!get_bool_yesno(""));
}

#[test]
fn value_of_a_key_value_line() {
    assert_eq!(get_val_from_keyval("LANG=\"en_US.UTF-8\"", None), "en_US.UTF-8");
    assert_eq!(get_val_from_keyval("a =  b  = c", None), "b");
    assert_eq!(get_val_from_keyval("key", None), "");
    assert_eq!(get_val_from_keyval("key=", None), "");
    assert_eq!(get_val_from_keyval("VC Keymap: us", Some(":")), "us");
    assert_eq!(get_val_from_keyval("a=\"x\"y\"", None), "xy");
    assert_eq!(get_val_from_keyval("a => b", Some("=>")), "b");
}

#[test]
fn account_names() {
    assert_eq!(to_account_name("John Doe"), "john_doe");
    assert_eq!(to_account_name("ÉCOLE  X"), "école__x");
    assert_eq!(to_account_name("plain"), "plain");
    assert_eq!(to_formatted_name("hello_world"), "Hello World");
    assert_eq!(to_formatted_name("john_doe"), "John Doe");
    assert_eq!(to_formatted_name("((((the_team"), "((((The Team");
}

#[test]
fn long_names_are_not_put_in_title_case() {
    assert_eq!(TITLE_MAX, 256);
    let longest = format!("a_{}", "b".repeat(254));
    assert_eq!(to_formatted_name(&longest), format!("A {}", "B".to_string() + &"b".repeat(253)));
    let too_long = format!("a_{}", "b".repeat(255));
    assert_eq!(to_formatted_name(&too_long), format!("a {}", "b".repeat(255)));
    let brackets = "(".repeat(100_000);
    assert_eq!(to_formatted_name(&brackets), brackets);
}

#[test]
fn paths_are_compared_by_their_components() {
    let shells = vec!["/bin/sh".to_string(), "/usr/bin/zsh".to_string()];
    assert!(has_path(&shells, "/bin/sh"));
    assert!(has_path(&shells, "/usr//bin/zsh/"));
    assert!(has_path(&shells, "/usr/./bin/zsh"));
    assert!(!has_path(&shells, "bin/sh"));
    assert!(!has_path(&shells, "/bin/bash"));
    assert!(!has_path(&vec![], "/bin/sh"));
}

#[test]
fn lines_end_at_line_feeds() {
    assert_eq!(str_lines("a\r\nb\n\nc"), vec!["a", "b", "", "c"]);
    assert_eq!(str_lines("a\nb\n"), vec!["a", "b"]);
    assert_eq!(str_lines(""), Vec::<String>::new());
    assert_eq!(str_lines("\n"), vec![""]);
    assert_eq!(str_lines("a\rb\r"), vec!["a\rb\r"]);
    assert_eq!(str_lines("\r\n\r"), vec!["", "\r"]);
    for s in ["", "x", "\n\n", "a\r\n\r\nb", "a\n\r", "\r", "a\r\r\nb"].iter() {
        assert_eq!(str_lines(s), s.lines().collect::<Vec<&str>>(), "{:?}", s);
    }
}

#[test]
fn trim_drops_white_space_at_both_ends() {
    assert_eq!(str_trim("\u{3000} a b \t\n"), "a b");
    assert_eq!(str_trim("\u{85}x\u{a0}"), "x");
    assert_eq!(str_trim("   "), "");
    assert_eq!(str_trim(""), "");
    assert_eq!(str_trim("x"), "x");
    assert_eq!(str_trim("\u{200b}x"), "\u{200b}x");
}

#[test]
fn white_space_is_what_the_standard_library_takes_for_it() {
    for code in 0..=0x11_0000u32 {
        if let Some(c) = char::from_u32(code) {
            assert_eq!(is_whitespace_char(c), c.is_whitespace(), "U+{:04X}", code);
        }
    }
}

#[test]
fn replace_takes_matches_from_the_left() {
    assert_eq!(str_replace("a-b-c", "-", "_"), "a_b_c");
    assert_eq!(str_replace("aaa", "aa", "b"), "ba");
    assert_eq!(str_replace("abc", "", "-"), "-a-b-c-");
    assert_eq!(str_replace("abc", "x", "y"), "abc");
    assert_eq!(str_replace("\"q\"", "\"", ""), "q");
    assert_eq!(str_replace("", "", "x"), "x");
}

#[test]
fn prefixes_and_parts() {
    assert!(str_starts_with("abc", "ab"));
    assert!(str_starts_with("abc", ""));
    assert!(!str_starts_with("ab", "abc"));
    assert!(!str_starts_with("abc", "bc"));
    assert!(str_contains("abc", "bc"));
    assert!(str_contains("", ""));
    assert!(str_contains("abc", ""));
    assert!(!str_contains("abc", "cd"));
    assert!(!str_contains("", "a"));
    assert!(same_text("ខ្មែរ", "ខ្មែរ"));
    assert!(!same_text("a", "b"));
    assert!(!same_text("a", "ab"));
}

#[test]
fn characters_and_strings() {
    assert_eq!(to_chars("aខb"), vec!['a', 'ខ', 'b']);
    assert_eq!(from_chars(&chars("ខ្មែរ_កម្ពុជា")), "ខ្មែរ_កម្ពុជា");
    assert_eq!(from_chars(&vec![]), "");
    assert_eq!(from_chars_range(&chars("hello"), 1, 3), "el");
    assert_eq!(str_concat("ab", "cd"), "abcd");
    assert_eq!(str_join(&strings(&["a", "b", "c"]), ", "), "a, b, c");
    assert_eq!(str_join(&strings(&["a"]), ", "), "a");
    assert_eq!(str_join(&vec![], ", "), "");
    assert_eq!(str_join(&strings(&["", ""]), "-"), "-");
    assert!(same_list(&strings(&["a", "b"]), &strings(&["a", "b"])));
    assert!(!same_list(&strings(&["a", "b"]), &strings(&["b", "a"])));
    assert!(!same_list(&strings(&["a"]), &strings(&["a", "b"])));
}

#[test]
fn decimal_numerals_are_read() {
    assert_eq!(parse_decimal(&chars("65535"), 65535), Some(65535));
    assert_eq!(parse_decimal(&chars("65536"), 65535), None);
    assert_eq!(parse_decimal(&chars("+12"), 65535), Some(12));
    assert_eq!(parse_decimal(&chars("0012"), 65535), Some(12));
    assert_eq!(parse_decimal(&chars("0"), 0), Some(0));
    assert_eq!(parse_decimal(&chars("1"), 0), None);
    assert_eq!(parse_decimal(&chars(""), 65535), None);
    assert_eq!(parse_decimal(&chars("+"), 65535), None);
    assert_eq!(parse_decimal(&chars("-1"), 65535), None);
    assert_eq!(parse_decimal(&chars("++1"), 65535), None);
    assert_eq!(parse_decimal(&chars("1a"), 65535), None);
    assert_eq!(parse_decimal(&chars(" 1"), 65535), None);
    assert_eq!(parse_decimal(&chars("١"), 65535), None);
    assert_eq!(parse_decimal(&chars("99999999999999999999999"), u32::MAX), None);
    assert_eq!(parse_decimal(&chars("4294967295"), u32::MAX), Some(u32::MAX));
    assert_eq!(parse_decimal(&chars("4294967296"), u32::MAX), None);
    for s in ["7", "+7", "007", "65535", "65536", "", "x", "+", "-0", "1 "].iter() {
        assert_eq!(
            parse_decimal(&chars(s), 65535),
            s.parse::<u16>().ok().map(|n| n as u32),
            "{:?}",
            s
        );
    }
}

#[test]
fn decimal_numerals_are_written() {
    assert_eq!(decimal_chars(0), chars("0"));
    assert_eq!(decimal_chars(7), chars("7"));
    assert_eq!(decimal_chars(1005), chars("1005"));
    assert_eq!(decimal_chars(u32::MAX), chars("4294967295"));
    assert_eq!(digit_of(9), '9');
    for n in [0u32, 9, 10, 99, 100, 65535, 1_000_000].iter() {
        assert_eq!(parse_decimal(&decimal_chars(*n), u32::MAX), Some(*n));
        assert_eq!(from_chars(&decimal_chars(*n)), n.to_string());
    }
}

#[test]
fn texts_are_sorted_by_their_characters() {
    assert_eq!(sort_texts(&texts(&["b", "a", "ab", "", "B"])), texts(&["", "B", "a", "ab", "b"]));
    assert_eq!(sort_texts(&texts(&[])), texts(&[]));
    assert_eq!(sort_texts(&texts(&["x", "x", "a"])), texts(&["a", "x", "x"]));
    let mut words = vec!["zebra", "Ångström", "apple", "ខ្មែរ", "apples", "", "Zebra", "a\u{10000}", "a\u{ffff}"];
    let sorted = sort_texts(&words.iter().map(|s| chars(s)).collect());
    words.sort();
    assert_eq!(sorted, words.iter().map(|s| chars(s)).collect::<Vec<_>>());
    assert!(text_le(&chars(""), &chars("a")));
    assert!(text_le(&chars("a"), &chars("a")));
    assert!(text_le(&chars("a"), &chars("ab")));
    assert!(!text_le(&chars("b"), &chars("ab")));
    assert!(!text_le(&chars("ab"), &chars("a")));
}

#[test]
fn repeats_of_the_text_before_are_dropped() {
    assert_eq!(dedup_texts(&texts(&["a", "a", "b", "a", "a"])), texts(&["a", "b", "a"]));
    assert_eq!(dedup_texts(&texts(&[])), texts(&[]));
    assert_eq!(dedup_texts(&texts(&["", ""])), texts(&[""]));
}

#[test]
fn first_match_of_a_pattern_is_replaced() {
    assert_eq!(replace_first("[0-9]+;[0-9]+", "grouping=3;3", "0"), "grouping=0");
    assert_eq!(replace_first("[0-9]+;[0-9]+", "a=1;2;3;4", "0"), "a=0;3;4");
    assert_eq!(replace_first("[0-9]+;[0-9]+", "nothing", "0"), "nothing");
    // a pattern that is none leaves the text as it is
    assert_eq!(replace_first("[0-9", "a=1;2", "0"), "a=1;2");
}

fn output(success: bool, stdout: &str, stderr: Option<&str>) -> Output {
    Output { success, stdout: stdout.to_string(), stderr: stderr.map(|s| s.to_string()) }
}

#[test]
fn results_of_commands() {
    assert_eq!(exec_cmd(output(true, "  out \n", Some("warn"))), Ok("out".to_string()));
    assert_eq!(exec_spawn_cmd(output(true, "  out \n", None)), Ok("  out \n".to_string()));
    assert_eq!(
        exec_cmd(output(false, "out", Some("bad"))),
        Err(CommandError::InvalidData("bad".to_string()))
    );
    assert_eq!(exec_cmd(output(false, "out", None)), Err(CommandError::Other));
    assert_eq!(exec_spawn_cmd(output(false, "", None)), Err(CommandError::Other));
    assert_eq!(exec_pipe_cmd(None), Err(CommandError::Other));
    assert_eq!(exec_pipe_cmd(Some(output(true, " x ", None))), Ok(" x ".to_string()));
    assert_eq!(
        exec_pipe_cmd(Some(output(false, "x", Some("e")))),
        Err(CommandError::InvalidData("e".to_string()))
    );
}

#[test]
fn commands_and_calls_are_plain_values() {
    let cmd = Command::new("ls", strings(&["-l"]));
    assert_eq!(cmd, Command { program: "ls".into(), args: strings(&["-l"]), stdin: None });
    let fed = Command::with_input("passwd", vec![], "a\nb".to_string());
    assert_eq!(fed.stdin.as_deref(), Some("a\nb"));
    let call = MethodCall::new(Bus::Session, "s", "/p", "i", "m", 10).with_arg(Arg::U32(3)).with_arg(Arg::Bool(true));
    assert_eq!(
        call,
        MethodCall {
            bus: Bus::Session,
            service: "s".into(),
            path: "/p".into(),
            interface: "i".into(),
            method: "m".into(),
            args: vec![Arg::U32(3), Arg::Bool(true)],
            timeout_ms: 10,
        }
    );
    assert!(dbus_call_init_system("yes"));
    assert!(dbus_call_init_system("challenge"));
    assert!(!dbus_call_init_system("no"));
    assert!(!dbus_call_init_system("na"));
    assert!(!dbus_call_init_system(""));
}
