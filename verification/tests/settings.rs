use proj::error::ProjError;
use proj::settings::{
    bytes_to_c_string, is_nul_free, network_answer, network_is_enabled, search_paths,
    split_at_separator, to_c_string,
};

#[test]
fn text_becomes_a_c_string() {
    assert_eq!(to_c_string("https://cdn.proj.org"), Ok(b"https://cdn.proj.org\0".to_vec()));
    assert_eq!(to_c_string(""), Ok(vec![0u8]));
    assert_eq!(to_c_string("\u{e9}"), Ok(vec![0xc3, 0xa9, 0]));
}

#[test]
fn text_with_a_nul_has_no_c_string() {
    assert_eq!(to_c_string("a\0b"), Err(ProjError::Creation));
    assert_eq!(to_c_string("\0"), Err(ProjError::Creation));
    assert_eq!(to_c_string("trailing\0"), Err(ProjError::Creation));
}

#[test]
fn bytes_become_a_c_string() {
    assert_eq!(bytes_to_c_string(b"+proj=longlat"), Ok(b"+proj=longlat\0".to_vec()));
    assert_eq!(bytes_to_c_string(&[0xff, 0x01]), Ok(vec![0xff, 0x01, 0]));
    assert_eq!(bytes_to_c_string(&[1, 0, 2]), Err(ProjError::Creation));
}

#[test]
fn c_string_ends_in_the_only_nul() {
    for text in ["", "EPSG:4326", "+proj=longlat +datum=WGS84 +no_defs", "\u{1f980}"] {
        let made = to_c_string(text).unwrap();
        assert_eq!(made.len(), text.len() + 1);
        assert_eq!(&made[..text.len()], text.as_bytes());
        assert_eq!(made.iter().position(|b| *b == 0), Some(text.len()));
    }
}

#[test]
fn nul_is_found_wherever_it_stands() {
    assert!(is_nul_free(b""));
    assert!(is_nul_free(b"abc"));
    assert!(!is_nul_free(b"\0abc"));
    assert!(!is_nul_free(b"ab\0c"));
    assert!(!is_nul_free(b"abc\0"));
}

#[test]
fn paths_are_split_at_the_separator() {
    assert_eq!(
        split_at_separator(b"/usr/share/proj:/home/me/proj", b':'),
        vec![b"/usr/share/proj".to_vec(), b"/home/me/proj".to_vec()]
    );
    assert_eq!(split_at_separator(b"C:\\proj;D:\\grids", b';').len(), 2);
}

#[test]
fn split_keeps_empty_pieces() {
    assert_eq!(split_at_separator(b"", b':'), vec![Vec::<u8>::new()]);
    assert_eq!(split_at_separator(b":", b':'), vec![Vec::<u8>::new(), Vec::new()]);
    assert_eq!(
        split_at_separator(b"a::b:", b':'),
        vec![b"a".to_vec(), Vec::new(), b"b".to_vec(), Vec::new()]
    );
    assert_eq!(split_at_separator(b"no separator", b':'), vec![b"no separator".to_vec()]);
}

#[test]
fn split_agrees_with_std() {
    for text in ["", ":", "a", "a:b", ":a:", "a::b", "/usr/share/proj:/foo:/bar/baz"] {
        let expected: Vec<Vec<u8>> =
            text.split(":").map(|piece| piece.as_bytes().to_vec()).collect();
        assert_eq!(split_at_separator(text.as_bytes(), b':'), expected);
    }
}

#[test]
fn new_search_path_comes_last() {
    assert_eq!(
        search_paths("/usr/share/proj:/home/me/proj", "/foo", b':'),
        Ok(vec![b"/usr/share/proj\0".to_vec(), b"/home/me/proj\0".to_vec(), b"/foo\0".to_vec()])
    );
}

#[test]
fn search_path_is_added_to_an_empty_list() {
    assert_eq!(search_paths("", "/foo", b':'), Ok(vec![vec![0u8], b"/foo\0".to_vec()]));
}

#[test]
fn search_paths_use_the_separator_given() {
    assert_eq!(
        search_paths("C:\\proj;D:\\grids", "E:\\more", b';'),
        Ok(vec![b"C:\\proj\0".to_vec(), b"D:\\grids\0".to_vec(), b"E:\\more\0".to_vec()])
    );
}

#[test]
fn search_path_with_a_nul_is_refused() {
    assert_eq!(search_paths("/usr/share/proj", "/fo\0o", b':'), Err(ProjError::Creation));
    assert_eq!(search_paths("/usr\0/share/proj", "/foo", b':'), Err(ProjError::Creation));
}

#[test]
fn one_is_the_only_answer_that_agrees() {
    assert_eq!(network_answer(1), Ok(1));
    assert_eq!(network_answer(0), Err(ProjError::Network));
    assert_eq!(network_answer(-1), Err(ProjError::Network));
    assert_eq!(network_answer(2), Err(ProjError::Network));
    assert_eq!(network_answer(i32::MIN), Err(ProjError::Network));
}

#[test]
fn one_is_the_only_answer_that_says_enabled() {
    assert!(network_is_enabled(1));
    assert!(!network_is_enabled(0));
    assert!(!network_is_enabled(-1));
    assert!(!network_is_enabled(2));
}
