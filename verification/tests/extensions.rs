use glutin_glx::extensions::check_ext;
use glutin_glx::opening::extensions_reply;
use glutin_glx::protocol::Reply;

#[test]
fn finds_whole_names_only() {
    let extensions = "GLX_EXT_swap_control_tear GLX_ARB_multisample GLX_ARB_create_context";
    assert!(check_ext(extensions, "GLX_EXT_swap_control_tear"));
    assert!(check_ext(extensions, "GLX_ARB_multisample"));
    assert!(check_ext(extensions, "GLX_ARB_create_context"));
    assert!(!check_ext(extensions, "GLX_EXT_swap_control"));
    assert!(!check_ext(extensions, "GLX_ARB_create_context_profile"));
    assert!(!check_ext(extensions, "ARB_multisample"));
    assert!(!check_ext(extensions, "glx_arb_multisample"));
}

#[test]
fn finds_no_name_with_a_space() {
    assert!(!check_ext("GLX_A GLX_B", "GLX_A GLX_B"));
    assert!(!check_ext("GLX_A GLX_B", "GLX_A "));
    assert!(!check_ext(" ", " "));
}

#[test]
fn finds_the_empty_name_where_nothing_stands_between_spaces() {
    assert!(check_ext("", ""));
    assert!(check_ext("GLX_A ", ""));
    assert!(check_ext(" GLX_A", ""));
    assert!(check_ext("GLX_A  GLX_B", ""));
    assert!(!check_ext("GLX_A GLX_B", ""));
    assert!(!check_ext("", "GLX_A"));
}

#[test]
fn agrees_with_split() {
    let strings = ["", " ", "  ", "a", "a b", "ab", "b a ", " a", "ä b", "a ä  b c", "abc ab"];
    let names = ["", " ", "a", "b", "ab", "ä", "a b", "c", "abc"];
    for extensions in strings {
        for name in names {
            assert_eq!(
                check_ext(extensions, name),
                extensions.split(' ').find(|&s| s == name).is_some(),
                "{:?} in {:?}",
                name,
                extensions,
            );
        }
    }
}

#[test]
fn decodes_the_extension_string() {
    assert_eq!(extensions_reply(None), Some(Reply::Extensions(None)));
    assert_eq!(
        extensions_reply(Some(b"GLX_A GLX_B".to_vec())),
        Some(Reply::Extensions(Some("GLX_A GLX_B".to_string()))),
    );
    assert_eq!(
        extensions_reply(Some(vec![0xc3, 0xa4])),
        Some(Reply::Extensions(Some("ä".to_string()))),
    );
    assert_eq!(extensions_reply(Some(vec![b'a', 0xff])), None);
}
