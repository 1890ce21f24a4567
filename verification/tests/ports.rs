use tunnel_client::ports::{char_is_space, parse_port_list};

fn list(text: &str) -> Vec<u16> {
    parse_port_list(Some(text.to_string()))
}

#[test]
fn no_list_is_the_empty_list() {
    assert_eq!(parse_port_list(None), Vec::<u16>::new());
}

#[test]
fn empty_text_is_the_empty_list() {
    assert_eq!(list(""), Vec::<u16>::new());
}

#[test]
fn single_port() {
    assert_eq!(list("22"), vec![22]);
}

#[test]
fn ports_keep_their_order() {
    assert_eq!(list("80,443"), vec![80, 443]);
    assert_eq!(list("443,80,22"), vec![443, 80, 22]);
}

#[test]
fn repeated_ports_stay() {
    assert_eq!(list("80,80"), vec![80, 80]);
}

#[test]
fn white_space_around_a_port_is_dropped() {
    assert_eq!(list(" 80 , 443 "), vec![80, 443]);
    assert_eq!(list("\t80\n,\r443"), vec![80, 443]);
    assert_eq!(list("\u{a0}80\u{3000},\u{2003}443\u{85}"), vec![80, 443]);
}

#[test]
fn white_space_inside_a_number_spoils_it() {
    assert_eq!(list("8 0,443"), vec![443]);
}

#[test]
fn what_is_no_port_is_passed_over() {
    assert_eq!(list("80,http,443"), vec![80, 443]);
    assert_eq!(list("abc"), Vec::<u16>::new());
    assert_eq!(list("80;443"), Vec::<u16>::new());
    assert_eq!(list("8o"), Vec::<u16>::new());
}

#[test]
fn empty_pieces_are_passed_over() {
    assert_eq!(list(","), Vec::<u16>::new());
    assert_eq!(list("80,,443"), vec![80, 443]);
    assert_eq!(list(",80,"), vec![80]);
    assert_eq!(list(" , ,"), Vec::<u16>::new());
}

#[test]
fn the_range_of_a_port_is_kept() {
    assert_eq!(list("0"), vec![0]);
    assert_eq!(list("65535"), vec![65535]);
    assert_eq!(list("65536"), Vec::<u16>::new());
    assert_eq!(list("70000,1"), vec![1]);
    assert_eq!(list("99999999999999999999999999,2"), vec![2]);
}

#[test]
fn a_plus_sign_may_lead() {
    assert_eq!(list("+80"), vec![80]);
    assert_eq!(list("+"), Vec::<u16>::new());
    assert_eq!(list("++80"), Vec::<u16>::new());
    assert_eq!(list("+ 80"), Vec::<u16>::new());
}

#[test]
fn a_minus_sign_spoils_the_number() {
    assert_eq!(list("-80"), Vec::<u16>::new());
    assert_eq!(list("-0"), Vec::<u16>::new());
}

#[test]
fn leading_zeros_are_allowed() {
    assert_eq!(list("0080"), vec![80]);
    assert_eq!(list("000000000000000000065535"), vec![65535]);
    assert_eq!(list("00"), vec![0]);
}

#[test]
fn digits_of_other_scripts_are_no_digits() {
    assert_eq!(list("\u{663}\u{664}"), Vec::<u16>::new());
    assert_eq!(list("８０"), Vec::<u16>::new());
}

#[test]
fn port_list_agrees_with_split_trim_parse() {
    let texts = [
        "", "1", "1,2", " 1 ,x, 3", ",,", "65535,65536", "+7,-7", "a,b", "  42  ", "1,\u{2028}2\u{205f}",
        "0x10,10", "1.5,2", "١,2",
    ];
    for text in texts {
        let expected: Vec<u16> =
            text.split(",").filter_map(|piece| piece.trim().parse::<u16>().ok()).collect();
        assert_eq!(list(text), expected, "{:?}", text);
    }
}

#[test]
fn white_space_is_what_unicode_says() {
    let mut code: u32 = 0;
    while code <= 0x10FFFF {
        if let Some(c) = char::from_u32(code) {
            assert_eq!(char_is_space(c), c.is_whitespace(), "U+{:04X}", code);
        }
        code += 1;
    }
}
