use stringprep::data::{build_case_fold, build_unassigned};
use unicode_normalization::UnicodeNormalization;
use stringprep::tables::{
    ascii_control_character, ascii_space_character, bidi_l, bidi_r_or_al, case_fold_for_nfkc,
    change_display_properties_or_deprecated, commonly_mapped_to_nothing,
    inappropriate_for_canonical_representation, inappropriate_for_plain_text,
    non_ascii_control_character, non_ascii_space_character, non_character_code_point, private_use,
    surrogate_code, tagging_character, unassigned_code_point, unicode_mark_category,
    CaseFoldForNfkc,
};

fn collect_fold(mut fold: CaseFoldForNfkc) -> Vec<char> {
    let mut out = Vec::new();
    while let Some(c) = fold.next() {
        out.push(c);
    }
    out
}

#[test]
fn small_tables_membership() {
    assert!(commonly_mapped_to_nothing('\u{00AD}'));
    assert!(commonly_mapped_to_nothing('\u{FEFF}'));
    assert!(!commonly_mapped_to_nothing('a'));

    assert!(ascii_space_character(' '));
    assert!(!ascii_space_character('\u{00A0}'));

    assert!(non_ascii_space_character('\u{00A0}'));
    assert!(non_ascii_space_character('\u{200B}'));
    assert!(!non_ascii_space_character(' '));

    assert!(ascii_control_character('\u{0000}'));
    assert!(ascii_control_character('\u{007F}'));
    assert!(!ascii_control_character(' '));

    assert!(non_ascii_control_character('\u{0080}'));
    assert!(non_ascii_control_character('\u{1D173}'));
    assert!(!non_ascii_control_character('\u{0007}'));

    assert!(private_use('\u{E000}'));
    assert!(private_use('\u{10FFFD}'));
    assert!(!private_use('a'));

    assert!(non_character_code_point('\u{FDD0}'));
    assert!(non_character_code_point('\u{FFFE}'));
    assert!(non_character_code_point('\u{10FFFE}'));
    assert!(!non_character_code_point('\u{FFFD}'));

    assert!(!surrogate_code('a'));
    assert!(!surrogate_code('\u{E000}'));

    assert!(inappropriate_for_plain_text('\u{FFFD}'));
    assert!(!inappropriate_for_plain_text('a'));

    assert!(inappropriate_for_canonical_representation('\u{2FF0}'));
    assert!(!inappropriate_for_canonical_representation('\u{2FEF}'));

    assert!(change_display_properties_or_deprecated('\u{200E}'));
    assert!(change_display_properties_or_deprecated('\u{202E}'));
    assert!(!change_display_properties_or_deprecated('a'));

    assert!(tagging_character('\u{E0001}'));
    assert!(tagging_character('\u{E007F}'));
    assert!(!tagging_character('\u{E0002}'));
}

#[test]
fn bidi_classes() {
    assert!(bidi_r_or_al('\u{05D0}'));
    assert!(bidi_r_or_al('\u{0627}'));
    assert!(!bidi_r_or_al('a'));
    assert!(!bidi_r_or_al('1'));

    assert!(bidi_l('a'));
    assert!(bidi_l('Z'));
    assert!(!bidi_l('\u{05D0}'));
    assert!(!bidi_l('1'));
}

#[test]
fn unicode_mark_category_membership() {
    assert!(unicode_mark_category('\u{0300}'));
    assert!(unicode_mark_category('\u{036F}'));
    assert!(unicode_mark_category('\u{05BF}'));
    assert!(unicode_mark_category('\u{E0100}'));
    assert!(!unicode_mark_category('a'));
    assert!(!unicode_mark_category('\u{05BE}'));
}

#[test]
fn unassigned_membership() {
    assert!(unassigned_code_point('\u{0221}'));
    assert!(unassigned_code_point('\u{0234}'));
    assert!(unassigned_code_point('\u{024F}'));
    assert!(unassigned_code_point('\u{0984}'));
    assert!(unassigned_code_point('\u{09A9}'));
    assert!(unassigned_code_point('\u{1F58}'));
    assert!(unassigned_code_point('\u{4DB6}'));
    assert!(unassigned_code_point('\u{E0080}'));
    assert!(unassigned_code_point('\u{31000}'));
    assert!(!unassigned_code_point('\u{0222}'));
    assert!(!unassigned_code_point('a'));
    assert!(!unassigned_code_point('\u{0390}'));
}

#[test]
fn binary_search_agrees_with_linear_scan() {
    let table = build_unassigned();
    for cp in 0u32..0x1000 {
        assert_eq!(table.contains(cp), table.contains_linear(cp));
    }
    assert_eq!(table.contains(0x10FFFF), table.contains_linear(0x10FFFF));
}

#[test]
fn case_fold_identity_on_unmapped() {
    assert_eq!(collect_fold(case_fold_for_nfkc('x')), vec!['x']);
    assert_eq!(collect_fold(case_fold_for_nfkc('a')), vec!['a']);
    assert_eq!(collect_fold(case_fold_for_nfkc('\u{3042}')), vec!['\u{3042}']);
}

#[test]
fn case_fold_single_mappings() {
    assert_eq!(collect_fold(case_fold_for_nfkc('A')), vec!['a']);
    assert_eq!(collect_fold(case_fold_for_nfkc('Z')), vec!['z']);
    assert_eq!(collect_fold(case_fold_for_nfkc('\u{00B5}')), vec!['\u{03BC}']);
    assert_eq!(collect_fold(case_fold_for_nfkc('\u{0410}')), vec!['\u{0430}']);
    assert_eq!(collect_fold(case_fold_for_nfkc('\u{2168}')), vec!['\u{2178}']);
    assert_eq!(collect_fold(case_fold_for_nfkc('\u{FF21}')), vec!['\u{FF41}']);
    assert_eq!(collect_fold(case_fold_for_nfkc('\u{0100}')), vec!['\u{0101}']);
    assert_eq!(collect_fold(case_fold_for_nfkc('\u{0531}')), vec!['\u{0561}']);
    assert_eq!(collect_fold(case_fold_for_nfkc('\u{1E00}')), vec!['\u{1E01}']);
    assert_eq!(collect_fold(case_fold_for_nfkc('\u{1F08}')), vec!['\u{1F00}']);
    assert_eq!(collect_fold(case_fold_for_nfkc('\u{2126}')), vec!['\u{03C9}']);
    assert_eq!(collect_fold(case_fold_for_nfkc('\u{24B6}')), vec!['\u{24D0}']);
    assert_eq!(collect_fold(case_fold_for_nfkc('\u{10400}')), vec!['\u{10428}']);
    assert_eq!(collect_fold(case_fold_for_nfkc('\u{03F4}')), vec!['\u{03B8}']);
    assert_eq!(collect_fold(case_fold_for_nfkc('\u{03F2}')), vec!['\u{03C3}']);
    assert_eq!(collect_fold(case_fold_for_nfkc('\u{2102}')), vec!['c']);
    assert_eq!(collect_fold(case_fold_for_nfkc('\u{2124}')), vec!['z']);
    assert_eq!(collect_fold(case_fold_for_nfkc('\u{1D400}')), vec!['a']);
    assert_eq!(collect_fold(case_fold_for_nfkc('\u{1D419}')), vec!['z']);
    assert_eq!(collect_fold(case_fold_for_nfkc('\u{1D49C}')), vec!['a']);
    assert_eq!(collect_fold(case_fold_for_nfkc('\u{1D6A8}')), vec!['\u{03B1}']);
    assert_eq!(collect_fold(case_fold_for_nfkc('\u{1D7A8}')), vec!['\u{03C9}']);
}

#[test]
fn case_fold_expanding_mappings() {
    assert_eq!(collect_fold(case_fold_for_nfkc('\u{00DF}')), vec!['s', 's']);
    assert_eq!(collect_fold(case_fold_for_nfkc('\u{0130}')), vec!['i', '\u{0307}']);
    assert_eq!(collect_fold(case_fold_for_nfkc('\u{FB03}')), vec!['f', 'f', 'i']);
    assert_eq!(collect_fold(case_fold_for_nfkc('\u{0587}')), vec!['\u{0565}', '\u{0582}']);
    assert_eq!(collect_fold(case_fold_for_nfkc('\u{1F88}')), vec!['\u{1F00}', '\u{03B9}']);
    assert_eq!(collect_fold(case_fold_for_nfkc('\u{0390}')), vec!['\u{03B9}', '\u{0308}', '\u{0301}']);
    assert_eq!(collect_fold(case_fold_for_nfkc('\u{20A8}')), vec!['r', 's']);
    assert_eq!(collect_fold(case_fold_for_nfkc('\u{2116}')), vec!['n', 'o']);
    assert_eq!(collect_fold(case_fold_for_nfkc('\u{2121}')), vec!['t', 'e', 'l']);
    assert_eq!(collect_fold(case_fold_for_nfkc('\u{33C0}')), vec!['k', '\u{03C9}']);
    assert_eq!(
        collect_fold(case_fold_for_nfkc('\u{33C6}')),
        vec!['c', '\u{2215}', 'k', 'g'],
    );
}

#[test]
fn case_fold_iterator_ends_with_none() {
    let mut fold = case_fold_for_nfkc('A');
    assert_eq!(fold.next(), Some('a'));
    assert_eq!(fold.next(), None);
    assert_eq!(fold.next(), None);
}

#[test]
fn fold_lookup_agrees_with_linear_scan() {
    let table = build_case_fold();
    for cp in 0u32..0x500 {
        let a = table.lookup(cp);
        let b = table.lookup_linear(cp);
        match (a, b) {
            (None, None) => (),
            (Some(x), Some(y)) => assert_eq!(x.key, y.key),
            _ => panic!("binary and linear lookup disagree at {:#X}", cp),
        }
    }
}

#[test]
fn fold_table_lookup_finds_every_key() {
    let table = build_case_fold();
    assert!(table.lookup(0x41).is_some());
    assert!(table.lookup(0x5B).is_none());
    assert!(table.lookup(0xDF).is_some());
    assert!(table.lookup(0xFF3A).is_some());
    assert!(table.lookup(0xFF3B).is_none());
    assert!(table.lookup(0x1D7C9).is_some());
    assert!(table.lookup(0x1D7CA).is_none());
}

#[test]
fn fold_agrees_with_lowercased_normalization() {
    let table = build_case_fold();
    let mut checked = 0u32;
    for cp in 0u32..0x110000 {
        if (0xD800..0xE000).contains(&cp) {
            continue;
        }
        // Capitals with iota subscript fold to a standalone iota, which
        // lowercasing does not produce; they are checked elsewhere.
        if (0x1F88..=0x1F8F).contains(&cp)
            || (0x1F98..=0x1F9F).contains(&cp)
            || (0x1FA8..=0x1FAF).contains(&cp)
            || cp == 0x1FBC
            || cp == 0x1FCC
            || cp == 0x1FFC
        {
            continue;
        }
        if table.lookup(cp).is_none() {
            continue;
        }
        let c = char::from_u32(cp).unwrap();
        let n: String = c.to_string().nfkc().collect();
        if !n.chars().any(|x| x.is_uppercase()) {
            continue;
        }
        let folded = collect_fold(case_fold_for_nfkc(c));
        let a: String = folded.into_iter().nfkc().collect();
        let b: String = n.to_lowercase().nfkc().collect();
        assert_eq!(a, b, "fold mismatch at {:#X}", cp);
        checked += 1;
    }
    assert!(checked > 500);
}
