use region_to_share::procfs::{parse_u64, process_cpu_time, rss_value, split_words};

fn chars(s: &str) -> Vec<char> {
    s.chars().collect()
}

#[test]
fn words_split_on_unicode_whitespace() {
    let w = split_words(&chars("  a\tbc\u{a0}d\u{3000}\n e  "));
    let expected: Vec<Vec<char>> = vec![chars("a"), chars("bc"), chars("d"), chars("e")];
    assert_eq!(w, expected);
    assert!(split_words(&chars(" \n\t")).is_empty());
}

#[test]
fn parse_like_from_str() {
    for s in ["0", "42", "+7", "007", "18446744073709551615", "", "+", "-1", "1_0", " 1", "18446744073709551616", "9a"] {
        assert_eq!(parse_u64(&chars(s)), s.parse::<u64>().ok(), "word {:?}", s);
    }
}

#[test]
fn cpu_time_from_stat_line() {
    let stat = "1234 (cat) R 1 1234 1234 34816 1234 4194304 110 0 0 0 250 31 0 0 20 0 1 0 9 9000 200";
    assert_eq!(process_cpu_time(stat), Some(281));
    // a command name with a space shifts the fields, as reading by position does
    let shifted = "1234 (my cat) R 1 1234 1234 34816 1234 4194304 110 0 0 0 250 31 0 0";
    assert_eq!(process_cpu_time(shifted), Some(250));
    assert_eq!(process_cpu_time("1 2 3"), Some(0));
    let bad = "1 (x) R 1 1 1 1 1 1 1 1 1 1 abc 5";
    assert_eq!(process_cpu_time(bad), Some(5));
    let huge = "1 (x) R 1 1 1 1 1 1 1 1 1 1 18446744073709551615 1";
    assert_eq!(process_cpu_time(huge), None);
}

#[test]
fn resident_memory_value() {
    let status = "Name:\tcat\nVmPeak:\t  1000 kB\nVmRSS:\n VmRSS: 1 kB\nVmRSS:\t    2048 kB\r\nVmRSS: 9 kB\n";
    assert_eq!(rss_value(status), Some(chars("2048")));
    assert_eq!(rss_value("Name: x\n"), None);
    assert_eq!(rss_value("VmRSS: 12"), Some(chars("12")));
}
