use rs_dotnet::c_string::{c_string_args, encode_c_string};

#[test]
fn encode_c_string_appends_nul() {
    assert_eq!(encode_c_string("abc"), Some(vec![97u8, 98, 99, 0]));
}

#[test]
fn encode_c_string_of_empty() {
    assert_eq!(encode_c_string(""), Some(vec![0u8]));
}

#[test]
fn encode_c_string_utf8_bytes() {
    assert_eq!(encode_c_string("é"), Some(vec![0xC3u8, 0xA9, 0]));
}

#[test]
fn encode_c_string_refuses_inner_nul() {
    assert_eq!(encode_c_string("a\0b"), None);
    assert_eq!(encode_c_string("\0"), None);
}

#[test]
fn encode_c_string_is_bytes_then_nul() {
    for s in ["AppWithPlugin.Entry, AppWithPlugin", "grüße", "x y"] {
        let mut expected = s.as_bytes().to_vec();
        expected.push(0);
        assert_eq!(encode_c_string(s), Some(expected));
    }
}

#[test]
fn encode_c_string_round_trip() {
    let b = encode_c_string("plugin ü").unwrap();
    assert_eq!(b.last(), Some(&0u8));
    assert_eq!(std::str::from_utf8(&b[..b.len() - 1]).unwrap(), "plugin ü");
}

#[test]
fn c_string_args_in_order() {
    let args = vec!["x".to_string(), "yz".to_string()];
    assert_eq!(c_string_args(&args), Some(vec![vec![120u8, 0], vec![121u8, 122, 0]]));
}

#[test]
fn c_string_args_empty() {
    assert_eq!(c_string_args(&Vec::new()), Some(Vec::<Vec<u8>>::new()));
}

#[test]
fn c_string_args_refuses_inner_nul() {
    let args = vec!["ok".to_string(), "b\0d".to_string(), "c".to_string()];
    assert_eq!(c_string_args(&args), None);
}
