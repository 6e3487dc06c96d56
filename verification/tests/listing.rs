use emulator::listing::split_line;

fn tokens(line: &str) -> Vec<String> {
    split_line(line.as_bytes())
        .into_iter()
        .map(|token| String::from_utf8(token).unwrap())
        .collect()
}

/// What the standard library makes of the same line.
fn by_std(line: &str) -> Vec<String> {
    line.split(|c| c == ' ' || c == ',').filter(|s| !s.is_empty()).map(String::from).collect()
}

#[test]
fn a_line_splits_at_spaces_and_commas() {
    assert_eq!(tokens("addi x1, x0, 1"), vec!["addi", "x1", "x0", "1"]);
    assert_eq!(tokens("00100093 00208463"), vec!["00100093", "00208463"]);
    assert_eq!(tokens("a,b c"), vec!["a", "b", "c"]);
}

#[test]
fn separators_in_a_row_make_no_empty_token() {
    assert_eq!(tokens("a,,b"), vec!["a", "b"]);
    assert_eq!(tokens("  a   b  "), vec!["a", "b"]);
    assert_eq!(tokens(", ,a, ,"), vec!["a"]);
}

#[test]
fn a_line_without_tokens_is_empty() {
    assert_eq!(tokens(""), Vec::<String>::new());
    assert_eq!(tokens(" "), Vec::<String>::new());
    assert_eq!(tokens(",, ,"), Vec::<String>::new());
}

#[test]
fn a_line_without_separators_is_one_token() {
    assert_eq!(tokens("ecall"), vec!["ecall"]);
    assert_eq!(tokens("x"), vec!["x"]);
}

#[test]
fn other_whitespace_does_not_separate() {
    assert_eq!(tokens("a\tb;c"), vec!["a\tb;c"]);
    assert_eq!(tokens("lw x2,0(x0)"), vec!["lw", "x2", "0(x0)"]);
}

#[test]
fn bytes_outside_ascii_stay_in_their_token() {
    assert_eq!(tokens("añb, ü"), vec!["añb", "ü"]);
    assert_eq!(split_line(&[0xff, 0x20, 0x80, 0x2c, 0x00]), vec![vec![0xff], vec![0x80], vec![0x00]]);
}

#[test]
fn splitting_agrees_with_the_standard_library() {
    let alphabet = [' ', ',', 'a', 'b', '1'];
    // every line of up to six characters over the alphabet
    for length in 0..=6u32 {
        for code in 0..5usize.pow(length) {
            let mut line = String::new();
            let mut rest = code;
            for _ in 0..length {
                line.push(alphabet[rest % 5]);
                rest /= 5;
            }
            assert_eq!(tokens(&line), by_std(&line), "line {:?}", line);
        }
    }
}
