use hyprrdrop::wlr::{
    WLR_MODIFIER_ALT, WLR_MODIFIER_CAPS, WLR_MODIFIER_CTRL, WLR_MODIFIER_LOGO, WLR_MODIFIER_MOD2,
    WLR_MODIFIER_MOD3, WLR_MODIFIER_MOD5, WLR_MODIFIER_SHIFT,
};
use hyprrdrop::{check_if_bound, parse_keybind, Error, LiveBind, Mod};

fn bind(modmask: u16, key: &str) -> LiveBind {
    LiveBind {
        modmask,
        key: key.to_string(),
    }
}

#[test]
fn test_parse_keybinds() {
    let keybinds = [
        "SUPERCTRLSHIFTALT, 3",
        "SUPERSHIFT, H",
        "ALT + CTRL, 3",
        "SUPERALT + CONTROL, L",
        "SHIFT,2",
    ];
    let results = [
        (
            vec![Mod::SHIFT, Mod::CTRL, Mod::ALT, Mod::SUPER],
            77_u16,
            "3".to_string(),
        ),
        (vec![Mod::SHIFT, Mod::SUPER], 65_u16, "H".to_string()),
        (vec![Mod::CTRL, Mod::ALT], 12_u16, "3".to_string()),
        (vec![Mod::CTRL, Mod::ALT, Mod::SUPER], 76, "L".to_string()),
        (vec![Mod::SHIFT], 1, "2".to_string()),
    ];

    for (index, keybind) in keybinds.iter().enumerate() {
        let parsed = parse_keybind(keybind).unwrap();
        let result = &results[index];

        assert_eq!(&parsed, result);
    }
}

#[test]
fn modifier_bits_are_fixed() {
    assert_eq!(WLR_MODIFIER_SHIFT, 1);
    assert_eq!(WLR_MODIFIER_CAPS, 2);
    assert_eq!(WLR_MODIFIER_CTRL, 4);
    assert_eq!(WLR_MODIFIER_ALT, 8);
    assert_eq!(WLR_MODIFIER_MOD2, 16);
    assert_eq!(WLR_MODIFIER_MOD3, 32);
    assert_eq!(WLR_MODIFIER_LOGO, 64);
    assert_eq!(WLR_MODIFIER_MOD5, 128);
}

#[test]
fn keybind_without_comma_is_malformed() {
    assert_eq!(parse_keybind("SUPER"), Err(Error::MalformedKeybind));
    assert_eq!(parse_keybind(""), Err(Error::MalformedKeybind));
    assert_eq!(parse_keybind("SUPER T"), Err(Error::MalformedKeybind));
}

#[test]
fn empty_segments_parse() {
    assert_eq!(parse_keybind(","), Ok((vec![], 0, String::new())));
}

#[test]
fn modifiers_are_matched_without_case() {
    let (mods, mask, key) = parse_keybind("shift+super,t").unwrap();
    assert_eq!(mods, vec![Mod::SHIFT, Mod::SUPER]);
    assert_eq!(mask, 65);
    assert_eq!(key, "t");
}

#[test]
fn key_is_trimmed_and_keeps_case() {
    let (_, _, key) = parse_keybind("ALT,   Tab \t").unwrap();
    assert_eq!(key, "Tab");
}

#[test]
fn key_is_what_follows_the_first_comma() {
    let (mods, mask, key) = parse_keybind("CTRL, a,b ").unwrap();
    assert_eq!(mods, vec![Mod::CTRL]);
    assert_eq!(mask, 4);
    assert_eq!(key, "a,b");
}

#[test]
fn mask_ignores_modifier_order() {
    let a = parse_keybind("SHIFT+ALT,x").unwrap();
    let b = parse_keybind("ALT+SHIFT,x").unwrap();
    let c = parse_keybind("ALTSHIFT ALT,x").unwrap();
    assert_eq!(a.1, 9);
    assert_eq!(b.1, 9);
    assert_eq!(c.1, 9);
    assert_eq!(a.0, vec![Mod::SHIFT, Mod::ALT]);
    assert_eq!(b.0, vec![Mod::SHIFT, Mod::ALT]);
}

#[test]
fn modifier_aliases() {
    assert_eq!(parse_keybind("CONTROL,x").unwrap().1, 4);
    assert_eq!(parse_keybind("MOD1,x").unwrap().1, 8);
    assert_eq!(parse_keybind("MOD4,x").unwrap().1, 64);
    assert_eq!(parse_keybind("WIN,x").unwrap().1, 64);
    assert_eq!(parse_keybind("LOGO,x").unwrap().1, 64);
    assert_eq!(parse_keybind("CAPS,x").unwrap().1, 0);
}

#[test]
fn aliases_match_inside_words() {
    // "WINDOW" holds "WIN", "SALT" holds "ALT".
    let (mods, mask, _) = parse_keybind("WINDOW SALT,x").unwrap();
    assert_eq!(mods, vec![Mod::ALT, Mod::SUPER]);
    assert_eq!(mask, 72);
}

#[test]
fn bound_when_mask_and_key_match() {
    assert_eq!(check_if_bound("SHIFT,2", &vec![bind(1, "2")]), Ok(true));
    assert_eq!(check_if_bound("SHIFT,2", &vec![bind(2, "2")]), Ok(false));
    assert_eq!(check_if_bound("SHIFT,2", &vec![bind(1, "3")]), Ok(false));
    assert_eq!(
        check_if_bound("SUPER, T", &vec![bind(1, "T"), bind(64, "t"), bind(64, "T")]),
        Ok(true)
    );
}

#[test]
fn nothing_is_bound_in_an_empty_table() {
    assert_eq!(check_if_bound("SHIFT,2", &vec![]), Ok(false));
}

#[test]
fn bound_check_rejects_malformed_keybind() {
    assert_eq!(
        check_if_bound("SHIFT2", &vec![bind(1, "2")]),
        Err(Error::MalformedKeybind)
    );
}
