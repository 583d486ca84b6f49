use unicode_brackets::{UnicodeBrackets, UNICODE_VERSION};

const PAIRS: [(char, char); 60] = [
    ('\u{0028}', '\u{0029}'),
    ('\u{005B}', '\u{005D}'),
    ('\u{007B}', '\u{007D}'),
    ('\u{0F3A}', '\u{0F3B}'),
    ('\u{0F3C}', '\u{0F3D}'),
    ('\u{169B}', '\u{169C}'),
    ('\u{2045}', '\u{2046}'),
    ('\u{207D}', '\u{207E}'),
    ('\u{208D}', '\u{208E}'),
    ('\u{2308}', '\u{2309}'),
    ('\u{230A}', '\u{230B}'),
    ('\u{2329}', '\u{232A}'),
    ('\u{2768}', '\u{2769}'),
    ('\u{276A}', '\u{276B}'),
    ('\u{276C}', '\u{276D}'),
    ('\u{276E}', '\u{276F}'),
    ('\u{2770}', '\u{2771}'),
    ('\u{2772}', '\u{2773}'),
    ('\u{2774}', '\u{2775}'),
    ('\u{27C5}', '\u{27C6}'),
    ('\u{27E6}', '\u{27E7}'),
    ('\u{27E8}', '\u{27E9}'),
    ('\u{27EA}', '\u{27EB}'),
    ('\u{27EC}', '\u{27ED}'),
    ('\u{27EE}', '\u{27EF}'),
    ('\u{2983}', '\u{2984}'),
    ('\u{2985}', '\u{2986}'),
    ('\u{2987}', '\u{2988}'),
    ('\u{2989}', '\u{298A}'),
    ('\u{298B}', '\u{298C}'),
    ('\u{298D}', '\u{2990}'),
    ('\u{298F}', '\u{298E}'),
    ('\u{2991}', '\u{2992}'),
    ('\u{2993}', '\u{2994}'),
    ('\u{2995}', '\u{2996}'),
    ('\u{2997}', '\u{2998}'),
    ('\u{29D8}', '\u{29D9}'),
    ('\u{29DA}', '\u{29DB}'),
    ('\u{29FC}', '\u{29FD}'),
    ('\u{2E22}', '\u{2E23}'),
    ('\u{2E24}', '\u{2E25}'),
    ('\u{2E26}', '\u{2E27}'),
    ('\u{2E28}', '\u{2E29}'),
    ('\u{3008}', '\u{3009}'),
    ('\u{300A}', '\u{300B}'),
    ('\u{300C}', '\u{300D}'),
    ('\u{300E}', '\u{300F}'),
    ('\u{3010}', '\u{3011}'),
    ('\u{3014}', '\u{3015}'),
    ('\u{3016}', '\u{3017}'),
    ('\u{3018}', '\u{3019}'),
    ('\u{301A}', '\u{301B}'),
    ('\u{FE59}', '\u{FE5A}'),
    ('\u{FE5B}', '\u{FE5C}'),
    ('\u{FE5D}', '\u{FE5E}'),
    ('\u{FF08}', '\u{FF09}'),
    ('\u{FF3B}', '\u{FF3D}'),
    ('\u{FF5B}', '\u{FF5D}'),
    ('\u{FF5F}', '\u{FF60}'),
    ('\u{FF62}', '\u{FF63}'),
];

const NON_BRACKETS: [char; 10] = ['a', 'Z', '0', ' ', '<', '>', '\u{0}', '\u{D7FF}', '\u{E000}', '\u{10FFFF}'];

#[test]
fn open_paren_scenario() {
    assert!('('.is_open_bracket());
    assert_eq!('('.to_close_bracket(), ')');
}

#[test]
fn open_square_scenario() {
    assert!('['.is_open_bracket());
    assert_eq!('['.to_close_bracket(), ']');
}

#[test]
fn angle_bracket_with_dot_scenario() {
    assert_eq!('\u{2991}'.to_close_bracket(), '\u{2992}');
    assert_eq!('⦑'.to_close_bracket(), '⦒');
}

#[test]
fn letter_is_no_bracket_scenario() {
    assert!(!'a'.is_open_bracket());
    assert_eq!('a'.to_close_bracket(), 'a');
}

#[test]
fn close_paren_scenario() {
    assert!(')'.is_close_bracket());
    assert_eq!(')'.to_open_bracket(), '(');
}

#[test]
fn open_bracket_to_open_is_itself() {
    assert_eq!('('.to_open_bracket(), '(');
}

#[test]
fn close_bracket_to_close_is_itself() {
    assert_eq!(')'.to_close_bracket(), ')');
    assert!(!')'.is_open_bracket());
    assert!(!'('.is_close_bracket());
}

#[test]
fn many_opening_chars() {
    let opening = ['(', '[', '⦑'];
    for c in opening.iter() {
        assert!(c.is_open_bracket());
    }
    let closing: Vec<char> = opening.iter().map(|c| c.to_close_bracket()).collect();
    assert_eq!(closing[..], [')', ']', '⦒']);
}

#[test]
fn tick_brackets_cross_over() {
    assert_eq!('\u{298D}'.to_close_bracket(), '\u{2990}');
    assert_eq!('\u{2990}'.to_open_bracket(), '\u{298D}');
    assert_eq!('\u{298F}'.to_close_bracket(), '\u{298E}');
    assert_eq!('\u{298E}'.to_open_bracket(), '\u{298F}');
}

#[test]
fn fullwidth_square_skips_one() {
    assert_eq!('\u{FF3B}'.to_close_bracket(), '\u{FF3D}');
    assert_eq!('\u{FF3D}'.to_open_bracket(), '\u{FF3B}');
    assert_eq!('\u{FF3C}'.to_close_bracket(), '\u{FF3C}');
    assert!(!'\u{FF3C}'.is_open_bracket());
    assert!(!'\u{FF3C}'.is_close_bracket());
}

#[test]
fn every_pair_converts_both_ways() {
    for &(o, c) in PAIRS.iter() {
        assert_ne!(o, c);
        assert_eq!(o.to_close_bracket(), c);
        assert_eq!(c.to_open_bracket(), o);
        assert!(o.is_open_bracket());
        assert!(c.is_close_bracket());
    }
}

#[test]
fn table_members_are_distinct() {
    let mut all: Vec<char> = Vec::new();
    for &(o, c) in PAIRS.iter() {
        all.push(o);
        all.push(c);
    }
    let n = all.len();
    all.sort();
    all.dedup();
    assert_eq!(all.len(), n);
}

#[test]
fn round_trip_of_open_and_non_brackets() {
    for &(o, _) in PAIRS.iter() {
        assert_eq!(o.to_close_bracket().to_open_bracket(), o);
    }
    for &x in NON_BRACKETS.iter() {
        assert_eq!(x.to_close_bracket().to_open_bracket(), x);
    }
}

#[test]
fn round_trip_fails_for_close_brackets() {
    assert_eq!(')'.to_close_bracket().to_open_bracket(), '(');
}

#[test]
fn non_brackets_are_fixed_points() {
    for &x in NON_BRACKETS.iter() {
        assert_eq!(x.to_open_bracket(), x);
        assert_eq!(x.to_close_bracket(), x);
        assert!(!x.is_open_bracket());
        assert!(!x.is_close_bracket());
    }
}

#[test]
fn no_char_is_open_and_close() {
    for &(o, c) in PAIRS.iter() {
        assert!(!o.is_close_bracket());
        assert!(!c.is_open_bracket());
    }
    for x in ['(', ')', '{', '}', '\u{3008}', '\u{3009}', 'q'] {
        assert!(!(x.is_open_bracket() && x.is_close_bracket()));
    }
}

#[test]
fn classification_matches_conversion() {
    let mut probe: Vec<char> = NON_BRACKETS.to_vec();
    for &(o, c) in PAIRS.iter() {
        probe.push(o);
        probe.push(c);
    }
    for &x in probe.iter() {
        assert_eq!(x.is_open_bracket(), x.to_close_bracket() != x);
        assert_eq!(x.is_close_bracket(), x.to_open_bracket() != x);
    }
}

#[test]
fn classification_over_low_planes() {
    let mut opens = 0;
    let mut closes = 0;
    for u in 0u32..0x10000 {
        if let Some(x) = char::from_u32(u) {
            let o = x.is_open_bracket();
            let c = x.is_close_bracket();
            assert!(!(o && c));
            if o {
                opens += 1;
                assert_eq!(x.to_close_bracket().to_open_bracket(), x);
            }
            if c {
                closes += 1;
                assert_eq!(x.to_open_bracket().to_close_bracket(), x);
            }
        }
    }
    assert_eq!(opens, PAIRS.len());
    assert_eq!(closes, PAIRS.len());
}

#[test]
fn unicode_version_is_nine() {
    assert_eq!(UNICODE_VERSION, (9, 0, 0));
}
