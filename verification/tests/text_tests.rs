use simba_installer::text::{chars_of, first_line, is_white_space, join, remove_all, trim};

#[test]
fn remove_all_agrees_with_replace() {
    for s in [
        "SRL-T.zip", "WaspLib.zip", "", ".zip", "a.zipb.zip", "..zipzip", ".zi.zip", "zip", "é.zip.ü",
    ] {
        assert_eq!(remove_all(s, ".zip"), s.replace(".zip", ""));
    }
    assert_eq!(remove_all("SRL-T.zip", ".zip"), "SRL-T");
    assert_eq!(remove_all("..zipzip", ".zip"), ".zip");
    assert_eq!(remove_all("aaaaa", "aa"), "a");
    assert_eq!(remove_all("abc", ""), "abc");
}

#[test]
fn archive_name_round_trip() {
    for name in ["SRL-T", "a.zi", "x.", "", "Includes"] {
        assert_eq!(remove_all(&join(name, ".zip", ""), ".zip"), name);
    }
}

#[test]
fn first_line_agrees_with_lines() {
    for s in ["", "a", "a\nb", "a\r\nb", "\n", "\r\n", "a\r", "a\rb\nc", "ü\nx", "a\r\r\nb"] {
        assert_eq!(first_line(s), s.lines().next().unwrap_or(""));
    }
    assert_eq!(first_line("one\r\ntwo"), "one");
}

#[test]
fn white_space_agrees_with_unicode() {
    for code in 0..=0x10ffffu32 {
        if let Some(c) = char::from_u32(code) {
            assert_eq!(is_white_space(c), c.is_whitespace());
        }
    }
}

#[test]
fn trim_agrees_with_std() {
    for s in ["", " ", " a ", "\t\u{3000}x y\u{a0}\r\n", "a", "  a", "a  ", "\u{2003}é\u{2003}"] {
        assert_eq!(trim(s), s.trim());
    }
    assert_eq!(trim("  a b\n"), "a b");
}

#[test]
fn chars_in_order() {
    assert_eq!(chars_of("aé\u{1f600}"), vec!['a', 'é', '\u{1f600}']);
}
