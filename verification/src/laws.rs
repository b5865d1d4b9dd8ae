//! Proved laws of the preparation pipelines.
//!
//! Facts that belong to the normalization and bidirectional-class services
//! themselves (that normalization is idempotent, leaves ASCII text alone, or
//! introduces no new mapped characters; that ASCII characters are not of
//! class R or AL) are stated as hypotheses of the laws that need them, since
//! only the services decide them.
use vstd::prelude::*;
use crate::range_table::ranges_well_formed;
use crate::tables::{
    bidi_class_l, bidi_class_r_or_al, is_ascii_control, is_mapped_to_nothing,
};
use crate::unicode::{is_ascii_char, nfkc_of};
use crate::{
    ascii_fast_path, bidi_ok, check_prepared, first_prohibited, has_l, has_r_or_al, is_prohibited,
    map_a, map_a_char, map_b, map_b_char, nameprep_spec, saslprep_spec, staged_saslprep, Error,
    ErrorCause,
};

verus! {

/// An ASCII letter.
pub open spec fn is_ascii_letter(c: char) -> bool {
    let cp = c as u32;
    (0x41 <= cp && cp <= 0x5A) || (0x61 <= cp && cp <= 0x7A)
}

/// The subsequence of ASCII letters of a sequence, in order.
pub open spec fn letters_of(s: Seq<char>) -> Seq<char>
    decreases s.len(),
{
    if s.len() == 0 {
        Seq::empty()
    } else if is_ascii_letter(s.last()) {
        letters_of(s.drop_last()).push(s.last())
    } else {
        letters_of(s.drop_last())
    }
}

/// Whether a prepared result failed on a prohibited character.
pub open spec fn is_prohibited_character_error(r: Result<Seq<char>, Error>) -> bool {
    match r {
        Err(Error(ErrorCause::ProhibitedCharacter(_))) => true,
        _ => false,
    }
}

/// An ASCII character is neither a non-ASCII space nor mapped to nothing,
/// so the saslprep mapping stage leaves ASCII text unchanged.
pub proof fn lemma_map_ascii_identity(s: Seq<char>)
    requires
        forall|i: int| 0 <= i < s.len() ==> is_ascii_char(#[trigger] s[i]),
    ensures
        map_a(s) == s,
    decreases s.len(),
{
    if s.len() > 0 {
        assert(forall|i: int|
            0 <= i < s.drop_last().len() ==> is_ascii_char(#[trigger] s.drop_last()[i]));
        lemma_map_ascii_identity(s.drop_last());
        assert(is_ascii_char(s.last()));
        assert(map_a_char(s.last()) == seq![s.last()]);
        assert(map_a(s) =~= s);
    } else {
        assert(map_a(s) =~= s);
    }
}

/// An ASCII character that is not an ASCII control character is in no
/// prohibition set of either profile.
pub proof fn lemma_ascii_not_prohibited(c: char, ban_ascii_control: bool)
    requires
        is_ascii_char(c),
        !is_ascii_control(c),
    ensures
        !is_prohibited(c, ban_ascii_control),
{
}

/// A sequence free of prohibited characters passes the prohibition scan.
pub proof fn lemma_first_prohibited_none(s: Seq<char>, ban_ascii_control: bool)
    requires
        forall|i: int| 0 <= i < s.len() ==> !is_prohibited(#[trigger] s[i], ban_ascii_control),
    ensures
        first_prohibited(s, ban_ascii_control) is None,
    decreases s.len(),
{
    if s.len() > 0 {
        assert(!is_prohibited(s[0], ban_ascii_control));
        assert(forall|i: int|
            0 <= i < s.drop_first().len() ==> !is_prohibited(
                #[trigger] s.drop_first()[i],
                ban_ascii_control,
            ));
        lemma_first_prohibited_none(s.drop_first(), ban_ascii_control);
    }
}

/// A sequence holding a prohibited character fails the prohibition scan.
pub proof fn lemma_first_prohibited_some(s: Seq<char>, ban_ascii_control: bool, i: int)
    requires
        0 <= i < s.len(),
        is_prohibited(s[i], ban_ascii_control),
    ensures
        first_prohibited(s, ban_ascii_control) is Some,
    decreases s.len(),
{
    if !is_prohibited(s[0], ban_ascii_control) {
        assert(s.drop_first()[i - 1] == s[i]);
        lemma_first_prohibited_some(s.drop_first(), ban_ascii_control, i - 1);
    }
}

/// Fast-path equivalence: on a pure-ASCII input free of ASCII control
/// characters — one that normalization returns unchanged and in which no
/// character is of bidirectional class R or AL — the staged pipeline
/// returns the input unchanged, exactly as the fast path does.
pub proof fn lemma_fast_path_equivalence(s: Seq<char>)
    requires
        ascii_fast_path(s),
        nfkc_of(s) == s,
        forall|i: int| 0 <= i < s.len() ==> !bidi_class_r_or_al(#[trigger] s[i]),
    ensures
        staged_saslprep(s) == Ok::<Seq<char>, Error>(s),
        saslprep_spec(s) == Ok::<Seq<char>, Error>(s),
{
    lemma_map_ascii_identity(s);
    assert(nfkc_of(map_a(s)) == s);
    assert forall|i: int| 0 <= i < s.len() implies !is_prohibited(#[trigger] s[i], true) by {
        lemma_ascii_not_prohibited(s[i], true);
    }
    lemma_first_prohibited_none(s, true);
    assert(!has_r_or_al(s));
}

/// Case preservation: the password profile returns a pure-ASCII input free
/// of control characters unchanged, so ASCII case survives it.
pub proof fn lemma_saslprep_preserves_ascii(s: Seq<char>)
    requires
        ascii_fast_path(s),
    ensures
        saslprep_spec(s) == Ok::<Seq<char>, Error>(s),
{
}

/// Idempotence of the password profile: an accepted output, fed back in,
/// is accepted and returned unchanged. The hypothesis holds of every output
/// that is either pure ASCII or a fixed point of mapping and normalization;
/// the normalization fixed point is the service's documented idempotence.
pub proof fn lemma_saslprep_idempotent(s: Seq<char>, t: Seq<char>)
    requires
        saslprep_spec(s) == Ok::<Seq<char>, Error>(t),
        ascii_fast_path(t) || (map_a(t) == t && nfkc_of(t) == t),
    ensures
        saslprep_spec(t) == Ok::<Seq<char>, Error>(t),
{
    if !ascii_fast_path(t) {
        assert(!ascii_fast_path(s)) by {
            if ascii_fast_path(s) {
                assert(t == s);
            }
        }
        assert(staged_saslprep(s) == Ok::<Seq<char>, Error>(t));
        assert(t == nfkc_of(map_a(s)));
        assert(first_prohibited(t, true) is None);
        assert(bidi_ok(t));
        assert(nfkc_of(map_a(t)) == t);
    }
}

/// Idempotence of the case-folding profile: an accepted output that is a
/// fixed point of the mapping stage and of normalization, fed back in, is
/// accepted and returned unchanged. The normalization fixed point is the
/// service's documented idempotence.
pub proof fn lemma_nameprep_idempotent(s: Seq<char>, t: Seq<char>)
    requires
        nameprep_spec(s) == Ok::<Seq<char>, Error>(t),
        map_b(t) == t,
        nfkc_of(t) == t,
    ensures
        nameprep_spec(t) == Ok::<Seq<char>, Error>(t),
{
    assert(t == nfkc_of(map_b(s)));
    assert(nfkc_of(map_b(t)) == t);
}

/// Deletion: a sequence of ASCII letters interspersed with characters
/// mapped to nothing maps, under the saslprep mapping stage, to just the
/// letters, since the deletion is tested before the space substitution.
pub proof fn lemma_deletion_mapping(s: Seq<char>)
    requires
        forall|i: int|
            0 <= i < s.len() ==> is_ascii_letter(#[trigger] s[i]) || is_mapped_to_nothing(s[i]),
    ensures
        map_a(s) == letters_of(s),
    decreases s.len(),
{
    if s.len() > 0 {
        assert(forall|i: int|
            0 <= i < s.drop_last().len() ==> is_ascii_letter(#[trigger] s.drop_last()[i])
                || is_mapped_to_nothing(s.drop_last()[i]));
        lemma_deletion_mapping(s.drop_last());
        let c = s.last();
        if is_mapped_to_nothing(c) {
            assert(map_a_char(c) =~= Seq::<char>::empty());
        } else {
            assert(is_ascii_letter(c));
            assert(map_a_char(c) == seq![c]);
        }
        assert(map_a(s) =~= letters_of(s));
    } else {
        assert(map_a(s) =~= letters_of(s));
    }
}

/// A sequence of ASCII letters is its own letter subsequence.
pub proof fn lemma_letters_identity(s: Seq<char>)
    requires
        forall|i: int| 0 <= i < s.len() ==> is_ascii_letter(#[trigger] s[i]),
    ensures
        letters_of(s) == s,
    decreases s.len(),
{
    if s.len() > 0 {
        assert(forall|i: int|
            0 <= i < s.drop_last().len() ==> is_ascii_letter(#[trigger] s.drop_last()[i]));
        lemma_letters_identity(s.drop_last());
        assert(letters_of(s) =~= s);
    } else {
        assert(letters_of(s) =~= s);
    }
}

/// Deletion, end to end: on letters interspersed with characters mapped to
/// nothing, the password profile returns exactly the letters — given that
/// normalization leaves the all-ASCII letter sequence unchanged and gives
/// no letter the class R or AL, which the services decide.
pub proof fn lemma_deletion_pipeline(s: Seq<char>)
    requires
        forall|i: int|
            0 <= i < s.len() ==> is_ascii_letter(#[trigger] s[i]) || is_mapped_to_nothing(s[i]),
        nfkc_of(letters_of(s)) == letters_of(s),
        forall|i: int|
            0 <= i < letters_of(s).len() ==> !bidi_class_r_or_al(#[trigger] letters_of(s)[i]),
    ensures
        saslprep_spec(s) == Ok::<Seq<char>, Error>(letters_of(s)),
{
    lemma_deletion_mapping(s);
    lemma_letters_of_letters(s);
    if ascii_fast_path(s) {
        lemma_letters_identity(s);
    } else {
        let t = letters_of(s);
        assert forall|i: int| 0 <= i < t.len() implies !is_prohibited(#[trigger] t[i], true) by {
            lemma_ascii_not_prohibited(t[i], true);
        }
        lemma_first_prohibited_none(t, true);
        assert(!has_r_or_al(t));
    }
}

/// Every character of the letter subsequence is an ASCII letter.
pub proof fn lemma_letters_of_letters(s: Seq<char>)
    ensures
        forall|i: int| 0 <= i < letters_of(s).len() ==> is_ascii_letter(#[trigger] letters_of(s)[i]),
    decreases s.len(),
{
    if s.len() > 0 {
        lemma_letters_of_letters(s.drop_last());
        let prev = letters_of(s.drop_last());
        if is_ascii_letter(s.last()) {
            assert forall|i: int| 0 <= i < letters_of(s).len() implies is_ascii_letter(
                #[trigger] letters_of(s)[i],
            ) by {
                if i < prev.len() {
                    assert(letters_of(s)[i] == prev[i]);
                } else {
                    assert(letters_of(s)[i] == s.last());
                }
            }
        } else {
            assert(letters_of(s) == prev);
        }
    }
}

/// Prohibition detection: when the normalized form of a mapped input holds
/// an ASCII control character, the password profile's staged pipeline fails
/// with a prohibited-character error.
pub proof fn lemma_control_character_rejected(s: Seq<char>, i: int)
    requires
        0 <= i < nfkc_of(map_a(s)).len(),
        is_ascii_control(nfkc_of(map_a(s))[i]),
    ensures
        is_prohibited_character_error(staged_saslprep(s)),
{
    let n = nfkc_of(map_a(s));
    lemma_first_prohibited_some(n, true, i);
}

/// Bidirectional rejection: a normalized sequence that passes the
/// prohibition scan but mixes an R-or-AL-class character with an L-class
/// character is rejected as prohibited bidirectional text.
pub proof fn lemma_bidi_mixed_rejected(n: Seq<char>, ban_ascii_control: bool)
    requires
        first_prohibited(n, ban_ascii_control) is None,
        has_r_or_al(n),
        has_l(n),
    ensures
        check_prepared(n, ban_ascii_control) == Err::<Seq<char>, Error>(
            Error(ErrorCause::ProhibitedBidirectionalText),
        ),
{
}

/// Symmetry: the bidirectional invariant does not depend on the direction
/// the string is read in — a sequence and its reverse pass or fail it
/// together.
pub proof fn lemma_bidi_symmetric(s: Seq<char>)
    ensures
        bidi_ok(s) == bidi_ok(s.reverse()),
{
    let r = s.reverse();
    assert(r.len() == s.len());
    assert forall|i: int| 0 <= i < s.len() implies r[s.len() - 1 - i] == s[i] by {}
    if has_r_or_al(s) {
        let i = choose|i: int| 0 <= i < s.len() && bidi_class_r_or_al(#[trigger] s[i]);
        assert(bidi_class_r_or_al(r[s.len() - 1 - i]));
        assert(has_r_or_al(r));
    }
    if has_r_or_al(r) {
        let i = choose|i: int| 0 <= i < r.len() && bidi_class_r_or_al(#[trigger] r[i]);
        assert(bidi_class_r_or_al(s[s.len() - 1 - i]));
        assert(has_r_or_al(s));
    }
    if has_l(s) {
        let i = choose|i: int| 0 <= i < s.len() && bidi_class_l(#[trigger] s[i]);
        assert(bidi_class_l(r[s.len() - 1 - i]));
        assert(has_l(r));
    }
    if has_l(r) {
        let i = choose|i: int| 0 <= i < r.len() && bidi_class_l(#[trigger] r[i]);
        assert(bidi_class_l(s[s.len() - 1 - i]));
        assert(has_l(s));
    }
    if s.len() > 0 {
        assert(r[0] == s[s.len() - 1]);
        assert(r[r.len() - 1] == s[0]);
    }
}

/// Range-table invariant: the compiled-in unassigned table is strictly
/// ascending and pairwise disjoint, so binary search over it answers the
/// same membership question as a scan of every entry.
#[verifier::rlimit(100)]
pub proof fn lemma_unassigned_table_well_formed()
    ensures
        ranges_well_formed(crate::data::unassigned_entries()),
{
    assert(ranges_well_formed(crate::data::unassigned_part0()));
    assert(ranges_well_formed(crate::data::unassigned_part1()));
    assert(ranges_well_formed(crate::data::unassigned_part2()));
    assert(ranges_well_formed(crate::data::unassigned_part3()));
    assert(ranges_well_formed(crate::data::unassigned_part4()));
    assert(ranges_well_formed(crate::data::unassigned_part5()));
    assert(ranges_well_formed(crate::data::unassigned_part6()));
    assert(ranges_well_formed(crate::data::unassigned_part7()));
    assert(ranges_well_formed(crate::data::unassigned_part8()));
    assert(ranges_well_formed(crate::data::unassigned_part9()));
    assert(ranges_well_formed(crate::data::unassigned_part10()));
    assert(ranges_well_formed(crate::data::unassigned_part11()));
    assert(ranges_well_formed(crate::data::unassigned_part12()));
    assert(ranges_well_formed(crate::data::unassigned_part13()));
    assert(ranges_well_formed(crate::data::unassigned_part14()));
    assert(ranges_well_formed(crate::data::unassigned_part15()));
    assert(ranges_well_formed(crate::data::unassigned_part16()));
    assert(ranges_well_formed(crate::data::unassigned_part17()));
    assert(ranges_well_formed(crate::data::unassigned_part18()));
    assert(ranges_well_formed(crate::data::unassigned_part19()));
    assert(ranges_well_formed(crate::data::unassigned_part20()));
    assert(ranges_well_formed(crate::data::unassigned_part21()));
    assert(ranges_well_formed(crate::data::unassigned_part22()));
    assert(ranges_well_formed(crate::data::unassigned_part23()));
    assert(ranges_well_formed(crate::data::unassigned_part24()));
    assert(ranges_well_formed(crate::data::unassigned_part25()));
    assert(ranges_well_formed(crate::data::unassigned_part26()));
    let p0 = crate::data::unassigned_part0();
    assert(p0.last() == (0x487u32, 0x487u32));
    assert(crate::data::unassigned_part1()[0] == (0x4CFu32, 0x4CFu32));
    crate::range_table::lemma_ranges_wf_concat(p0, crate::data::unassigned_part1());
    let p1 = p0 + crate::data::unassigned_part1();
    assert(p1.last() == (0x61Cu32, 0x61Eu32));
    assert(crate::data::unassigned_part2()[0] == (0x620u32, 0x620u32));
    crate::range_table::lemma_ranges_wf_concat(p1, crate::data::unassigned_part2());
    let p2 = p1 + crate::data::unassigned_part2();
    assert(p2.last() == (0x984u32, 0x984u32));
    assert(crate::data::unassigned_part3()[0] == (0x98Du32, 0x98Eu32));
    crate::range_table::lemma_ranges_wf_concat(p2, crate::data::unassigned_part3());
    let p3 = p2 + crate::data::unassigned_part3();
    assert(p3.last() == (0xA03u32, 0xA04u32));
    assert(crate::data::unassigned_part4()[0] == (0xA0Bu32, 0xA0Eu32));
    crate::range_table::lemma_ranges_wf_concat(p3, crate::data::unassigned_part4());
    let p4 = p3 + crate::data::unassigned_part4();
    assert(p4.last() == (0xA84u32, 0xA84u32));
    assert(crate::data::unassigned_part5()[0] == (0xA8Cu32, 0xA8Cu32));
    crate::range_table::lemma_ranges_wf_concat(p4, crate::data::unassigned_part5());
    let p5 = p4 + crate::data::unassigned_part5();
    assert(p5.last() == (0xB0Du32, 0xB0Eu32));
    assert(crate::data::unassigned_part6()[0] == (0xB11u32, 0xB12u32));
    crate::range_table::lemma_ranges_wf_concat(p5, crate::data::unassigned_part6());
    let p6 = p5 + crate::data::unassigned_part6();
    assert(p6.last() == (0xB91u32, 0xB91u32));
    assert(crate::data::unassigned_part7()[0] == (0xB96u32, 0xB98u32));
    crate::range_table::lemma_ranges_wf_concat(p6, crate::data::unassigned_part7());
    let p7 = p6 + crate::data::unassigned_part7();
    assert(p7.last() == (0xC0Du32, 0xC0Du32));
    assert(crate::data::unassigned_part8()[0] == (0xC11u32, 0xC11u32));
    crate::range_table::lemma_ranges_wf_concat(p7, crate::data::unassigned_part8());
    let p8 = p7 + crate::data::unassigned_part8();
    assert(p8.last() == (0xCB4u32, 0xCB4u32));
    assert(crate::data::unassigned_part9()[0] == (0xCBAu32, 0xCBDu32));
    crate::range_table::lemma_ranges_wf_concat(p8, crate::data::unassigned_part9());
    let p9 = p8 + crate::data::unassigned_part9();
    assert(p9.last() == (0xD49u32, 0xD49u32));
    assert(crate::data::unassigned_part10()[0] == (0xD4Eu32, 0xD56u32));
    crate::range_table::lemma_ranges_wf_concat(p9, crate::data::unassigned_part10());
    let p10 = p9 + crate::data::unassigned_part10();
    assert(p10.last() == (0xDF5u32, 0xE00u32));
    assert(crate::data::unassigned_part11()[0] == (0xE3Bu32, 0xE3Eu32));
    crate::range_table::lemma_ranges_wf_concat(p10, crate::data::unassigned_part11());
    let p11 = p10 + crate::data::unassigned_part11();
    assert(p11.last() == (0xEBEu32, 0xEBFu32));
    assert(crate::data::unassigned_part12()[0] == (0xEC5u32, 0xEC5u32));
    crate::range_table::lemma_ranges_wf_concat(p11, crate::data::unassigned_part12());
    let p12 = p11 + crate::data::unassigned_part12();
    assert(p12.last() == (0x102Bu32, 0x102Bu32));
    assert(crate::data::unassigned_part13()[0] == (0x1033u32, 0x1035u32));
    crate::range_table::lemma_ranges_wf_concat(p12, crate::data::unassigned_part13());
    let p13 = p12 + crate::data::unassigned_part13();
    assert(p13.last() == (0x1259u32, 0x1259u32));
    assert(crate::data::unassigned_part14()[0] == (0x125Eu32, 0x125Fu32));
    crate::range_table::lemma_ranges_wf_concat(p13, crate::data::unassigned_part14());
    let p14 = p13 + crate::data::unassigned_part14();
    assert(p14.last() == (0x1311u32, 0x1311u32));
    assert(crate::data::unassigned_part15()[0] == (0x1316u32, 0x1317u32));
    crate::range_table::lemma_ranges_wf_concat(p14, crate::data::unassigned_part15());
    let p15 = p14 + crate::data::unassigned_part15();
    assert(p15.last() == (0x1771u32, 0x1771u32));
    assert(crate::data::unassigned_part16()[0] == (0x1774u32, 0x177Fu32));
    crate::range_table::lemma_ranges_wf_concat(p15, crate::data::unassigned_part16());
    let p16 = p15 + crate::data::unassigned_part16();
    assert(p16.last() == (0x1F5Au32, 0x1F5Au32));
    assert(crate::data::unassigned_part17()[0] == (0x1F5Cu32, 0x1F5Cu32));
    crate::range_table::lemma_ranges_wf_concat(p16, crate::data::unassigned_part17());
    let p17 = p16 + crate::data::unassigned_part17();
    assert(p17.last() == (0x208Fu32, 0x209Fu32));
    assert(crate::data::unassigned_part18()[0] == (0x20B2u32, 0x20CFu32));
    crate::range_table::lemma_ranges_wf_concat(p17, crate::data::unassigned_part18());
    let p18 = p17 + crate::data::unassigned_part18();
    assert(p18.last() == (0x270Au32, 0x270Bu32));
    assert(crate::data::unassigned_part19()[0] == (0x2728u32, 0x2728u32));
    crate::range_table::lemma_ranges_wf_concat(p18, crate::data::unassigned_part19());
    let p19 = p18 + crate::data::unassigned_part19();
    assert(p19.last() == (0x2FFCu32, 0x2FFFu32));
    assert(crate::data::unassigned_part20()[0] == (0x3040u32, 0x3040u32));
    crate::range_table::lemma_ranges_wf_concat(p19, crate::data::unassigned_part20());
    let p20 = p19 + crate::data::unassigned_part20();
    assert(p20.last() == (0x4DB6u32, 0x4DFFu32));
    assert(crate::data::unassigned_part21()[0] == (0x9FA6u32, 0x9FFFu32));
    crate::range_table::lemma_ranges_wf_concat(p20, crate::data::unassigned_part21());
    let p21 = p20 + crate::data::unassigned_part21();
    assert(p21.last() == (0xFD40u32, 0xFD4Fu32));
    assert(crate::data::unassigned_part22()[0] == (0xFD90u32, 0xFD91u32));
    crate::range_table::lemma_ranges_wf_concat(p21, crate::data::unassigned_part22());
    let p22 = p21 + crate::data::unassigned_part22();
    assert(p22.last() == (0xFFD0u32, 0xFFD1u32));
    assert(crate::data::unassigned_part23()[0] == (0xFFD8u32, 0xFFD9u32));
    crate::range_table::lemma_ranges_wf_concat(p22, crate::data::unassigned_part23());
    let p23 = p22 + crate::data::unassigned_part23();
    assert(p23.last() == (0x1D49Du32, 0x1D49Du32));
    assert(crate::data::unassigned_part24()[0] == (0x1D4A0u32, 0x1D4A1u32));
    crate::range_table::lemma_ranges_wf_concat(p23, crate::data::unassigned_part24());
    let p24 = p23 + crate::data::unassigned_part24();
    assert(p24.last() == (0x1D545u32, 0x1D545u32));
    assert(crate::data::unassigned_part25()[0] == (0x1D547u32, 0x1D549u32));
    crate::range_table::lemma_ranges_wf_concat(p24, crate::data::unassigned_part25());
    let p25 = p24 + crate::data::unassigned_part25();
    assert(p25.last() == (0xA0000u32, 0xAFFFDu32));
    assert(crate::data::unassigned_part26()[0] == (0xB0000u32, 0xBFFFDu32));
    crate::range_table::lemma_ranges_wf_concat(p25, crate::data::unassigned_part26());
    let p26 = p25 + crate::data::unassigned_part26();
}

/// Range-table invariant: the compiled-in case-fold table keys are strictly
/// ascending and every replacement is at most four characters.
#[verifier::rlimit(100)]
pub proof fn lemma_case_fold_table_well_formed()
    ensures
        crate::range_table::fold_well_formed(crate::data::case_fold_entries()),
{
    reveal(crate::data::case_fold_entries);
    assert(crate::range_table::fold_well_formed(crate::data::cf_latin_basic()));
    assert(crate::range_table::fold_well_formed(crate::data::cf_latin_extended_0()));
    assert(crate::range_table::fold_well_formed(crate::data::cf_latin_extended_1()));
    assert(crate::range_table::fold_well_formed(crate::data::cf_latin_extended_2()));
    assert(crate::range_table::fold_well_formed(crate::data::cf_latin_extended_3()));
    assert(crate::range_table::fold_well_formed(crate::data::cf_latin_extended_4()));
    assert(crate::range_table::fold_well_formed(crate::data::cf_latin_extended_5()));
    assert(crate::range_table::fold_well_formed(crate::data::cf_latin_extended_6()));
    assert(crate::range_table::fold_well_formed(crate::data::cf_latin_extended_7()));
    assert(crate::range_table::fold_well_formed(crate::data::cf_latin_extended_8()));
    assert(crate::range_table::fold_well_formed(crate::data::cf_latin_extended_9()));
    assert(crate::range_table::fold_well_formed(crate::data::cf_latin_extended_10()));
    assert(crate::range_table::fold_well_formed(crate::data::cf_greek_0()));
    assert(crate::range_table::fold_well_formed(crate::data::cf_greek_1()));
    assert(crate::range_table::fold_well_formed(crate::data::cf_greek_2()));
    assert(crate::range_table::fold_well_formed(crate::data::cf_greek_3()));
    assert(crate::range_table::fold_well_formed(crate::data::cf_greek_4()));
    assert(crate::range_table::fold_well_formed(crate::data::cf_cyrillic_0()));
    assert(crate::range_table::fold_well_formed(crate::data::cf_cyrillic_1()));
    assert(crate::range_table::fold_well_formed(crate::data::cf_armenian()));
    assert(crate::range_table::fold_well_formed(crate::data::cf_latin_additional_0()));
    assert(crate::range_table::fold_well_formed(crate::data::cf_latin_additional_1()));
    assert(crate::range_table::fold_well_formed(crate::data::cf_greek_extended_0()));
    assert(crate::range_table::fold_well_formed(crate::data::cf_greek_extended_1()));
    assert(crate::range_table::fold_well_formed(crate::data::cf_greek_extended_2()));
    assert(crate::range_table::fold_well_formed(crate::data::cf_greek_extended_3()));
    assert(crate::range_table::fold_well_formed(crate::data::cf_greek_extended_4()));
    assert(crate::range_table::fold_well_formed(crate::data::cf_greek_extended_5()));
    assert(crate::range_table::fold_well_formed(crate::data::cf_greek_extended_6()));
    assert(crate::range_table::fold_well_formed(crate::data::cf_greek_extended_7()));
    assert(crate::range_table::fold_well_formed(crate::data::cf_greek_extended_8()));
    assert(crate::range_table::fold_well_formed(crate::data::cf_greek_extended_9()));
    assert(crate::range_table::fold_well_formed(crate::data::cf_greek_extended_10()));
    assert(crate::range_table::fold_well_formed(crate::data::cf_greek_extended_11()));
    assert(crate::range_table::fold_well_formed(crate::data::cf_letterlike_numeric_0()));
    assert(crate::range_table::fold_well_formed(crate::data::cf_letterlike_numeric_1()));
    assert(crate::range_table::fold_well_formed(crate::data::cf_letterlike_numeric_2()));
    assert(crate::range_table::fold_well_formed(crate::data::cf_letterlike_numeric_3()));
    assert(crate::range_table::fold_well_formed(crate::data::cf_letterlike_numeric_4()));
    assert(crate::range_table::fold_well_formed(crate::data::cf_letterlike_numeric_5()));
    assert(crate::range_table::fold_well_formed(crate::data::cf_squared_units_0()));
    assert(crate::range_table::fold_well_formed(crate::data::cf_squared_units_1()));
    assert(crate::range_table::fold_well_formed(crate::data::cf_squared_units_2()));
    assert(crate::range_table::fold_well_formed(crate::data::cf_squared_units_3()));
    assert(crate::range_table::fold_well_formed(crate::data::cf_squared_units_4()));
    assert(crate::range_table::fold_well_formed(crate::data::cf_squared_units_5()));
    assert(crate::range_table::fold_well_formed(crate::data::cf_squared_units_6()));
    assert(crate::range_table::fold_well_formed(crate::data::cf_squared_units_7()));
    assert(crate::range_table::fold_well_formed(crate::data::cf_squared_units_8()));
    assert(crate::range_table::fold_well_formed(crate::data::cf_ligatures_0()));
    assert(crate::range_table::fold_well_formed(crate::data::cf_ligatures_1()));
    assert(crate::range_table::fold_well_formed(crate::data::cf_wide_and_deseret()));
    assert(crate::range_table::fold_well_formed(crate::data::cf_math_latin_0()));
    assert(crate::range_table::fold_well_formed(crate::data::cf_math_latin_1()));
    assert(crate::range_table::fold_well_formed(crate::data::cf_math_latin_2()));
    assert(crate::range_table::fold_well_formed(crate::data::cf_math_latin_3()));
    assert(crate::range_table::fold_well_formed(crate::data::cf_math_latin_4()));
    assert(crate::range_table::fold_well_formed(crate::data::cf_math_latin_5()));
    assert(crate::range_table::fold_well_formed(crate::data::cf_math_latin_6()));
    assert(crate::range_table::fold_well_formed(crate::data::cf_math_latin_7()));
    assert(crate::range_table::fold_well_formed(crate::data::cf_math_latin_8()));
    assert(crate::range_table::fold_well_formed(crate::data::cf_math_latin_9()));
    assert(crate::range_table::fold_well_formed(crate::data::cf_math_latin_10()));
    assert(crate::range_table::fold_well_formed(crate::data::cf_math_latin_11()));
    assert(crate::range_table::fold_well_formed(crate::data::cf_math_greek_0()));
    assert(crate::range_table::fold_well_formed(crate::data::cf_math_greek_1()));
    assert(crate::range_table::fold_well_formed(crate::data::cf_math_greek_2()));
    assert(crate::range_table::fold_well_formed(crate::data::cf_math_greek_3()));
    assert(crate::range_table::fold_well_formed(crate::data::cf_math_greek_4()));
    assert(crate::range_table::fold_well_formed(crate::data::cf_math_greek_5()));
    assert(crate::range_table::fold_well_formed(crate::data::cf_math_greek_6()));
    assert(crate::range_table::fold_well_formed(crate::data::cf_math_greek_7()));
    assert(crate::range_table::fold_well_formed(crate::data::cf_math_greek_8()));
    let q0 = crate::data::cf_latin_basic();
    assert(q0.last().key == 0xDF);
    assert(crate::data::cf_latin_extended_0()[0].key == 0x100);
    crate::range_table::lemma_fold_wf_concat(q0, crate::data::cf_latin_extended_0());
    let q1 = q0 + crate::data::cf_latin_extended_0();
    assert(q1.last().key == 0x176);
    assert(crate::data::cf_latin_extended_1()[0].key == 0x178);
    crate::range_table::lemma_fold_wf_concat(q1, crate::data::cf_latin_extended_1());
    let q2 = q1 + crate::data::cf_latin_extended_1();
    assert(q2.last().key == 0x184);
    assert(crate::data::cf_latin_extended_2()[0].key == 0x186);
    crate::range_table::lemma_fold_wf_concat(q2, crate::data::cf_latin_extended_2());
    let q3 = q2 + crate::data::cf_latin_extended_2();
    assert(q3.last().key == 0x18E);
    assert(crate::data::cf_latin_extended_3()[0].key == 0x18F);
    crate::range_table::lemma_fold_wf_concat(q3, crate::data::cf_latin_extended_3());
    let q4 = q3 + crate::data::cf_latin_extended_3();
    assert(q4.last().key == 0x196);
    assert(crate::data::cf_latin_extended_4()[0].key == 0x197);
    crate::range_table::lemma_fold_wf_concat(q4, crate::data::cf_latin_extended_4());
    let q5 = q4 + crate::data::cf_latin_extended_4();
    assert(q5.last().key == 0x1A0);
    assert(crate::data::cf_latin_extended_5()[0].key == 0x1A2);
    crate::range_table::lemma_fold_wf_concat(q5, crate::data::cf_latin_extended_5());
    let q6 = q5 + crate::data::cf_latin_extended_5();
    assert(q6.last().key == 0x1AC);
    assert(crate::data::cf_latin_extended_6()[0].key == 0x1AE);
    crate::range_table::lemma_fold_wf_concat(q6, crate::data::cf_latin_extended_6());
    let q7 = q6 + crate::data::cf_latin_extended_6();
    assert(q7.last().key == 0x1B5);
    assert(crate::data::cf_latin_extended_7()[0].key == 0x1B7);
    crate::range_table::lemma_fold_wf_concat(q7, crate::data::cf_latin_extended_7());
    let q8 = q7 + crate::data::cf_latin_extended_7();
    assert(q8.last().key == 0x1C7);
    assert(crate::data::cf_latin_extended_8()[0].key == 0x1C8);
    crate::range_table::lemma_fold_wf_concat(q8, crate::data::cf_latin_extended_8());
    let q9 = q8 + crate::data::cf_latin_extended_8();
    assert(q9.last().key == 0x1F0);
    assert(crate::data::cf_latin_extended_9()[0].key == 0x1F1);
    crate::range_table::lemma_fold_wf_concat(q9, crate::data::cf_latin_extended_9());
    let q10 = q9 + crate::data::cf_latin_extended_9();
    assert(q10.last().key == 0x21E);
    assert(crate::data::cf_latin_extended_10()[0].key == 0x222);
    crate::range_table::lemma_fold_wf_concat(q10, crate::data::cf_latin_extended_10());
    let q11 = q10 + crate::data::cf_latin_extended_10();
    assert(q11.last().key == 0x232);
    assert(crate::data::cf_greek_0()[0].key == 0x345);
    crate::range_table::lemma_fold_wf_concat(q11, crate::data::cf_greek_0());
    let q12 = q11 + crate::data::cf_greek_0();
    assert(q12.last().key == 0x38C);
    assert(crate::data::cf_greek_1()[0].key == 0x38E);
    crate::range_table::lemma_fold_wf_concat(q12, crate::data::cf_greek_1());
    let q13 = q12 + crate::data::cf_greek_1();
    assert(q13.last().key == 0x3B0);
    assert(crate::data::cf_greek_2()[0].key == 0x3C2);
    crate::range_table::lemma_fold_wf_concat(q13, crate::data::cf_greek_2());
    let q14 = q13 + crate::data::cf_greek_2();
    assert(q14.last().key == 0x3D4);
    assert(crate::data::cf_greek_3()[0].key == 0x3D5);
    crate::range_table::lemma_fold_wf_concat(q14, crate::data::cf_greek_3());
    let q15 = q14 + crate::data::cf_greek_3();
    assert(q15.last().key == 0x3F2);
    assert(crate::data::cf_greek_4()[0].key == 0x3F4);
    crate::range_table::lemma_fold_wf_concat(q15, crate::data::cf_greek_4());
    let q16 = q15 + crate::data::cf_greek_4();
    assert(q16.last().key == 0x3F5);
    assert(crate::data::cf_cyrillic_0()[0].key == 0x400);
    crate::range_table::lemma_fold_wf_concat(q16, crate::data::cf_cyrillic_0());
    let q17 = q16 + crate::data::cf_cyrillic_0();
    assert(q17.last().key == 0x4C1);
    assert(crate::data::cf_cyrillic_1()[0].key == 0x4C3);
    crate::range_table::lemma_fold_wf_concat(q17, crate::data::cf_cyrillic_1());
    let q18 = q17 + crate::data::cf_cyrillic_1();
    assert(q18.last().key == 0x4F8);
    assert(crate::data::cf_armenian()[0].key == 0x531);
    crate::range_table::lemma_fold_wf_concat(q18, crate::data::cf_armenian());
    let q19 = q18 + crate::data::cf_armenian();
    assert(q19.last().key == 0x587);
    assert(crate::data::cf_latin_additional_0()[0].key == 0x1E00);
    crate::range_table::lemma_fold_wf_concat(q19, crate::data::cf_latin_additional_0());
    let q20 = q19 + crate::data::cf_latin_additional_0();
    assert(q20.last().key == 0x1E98);
    assert(crate::data::cf_latin_additional_1()[0].key == 0x1E99);
    crate::range_table::lemma_fold_wf_concat(q20, crate::data::cf_latin_additional_1());
    let q21 = q20 + crate::data::cf_latin_additional_1();
    assert(q21.last().key == 0x1EF8);
    assert(crate::data::cf_greek_extended_0()[0].key == 0x1F08);
    crate::range_table::lemma_fold_wf_concat(q21, crate::data::cf_greek_extended_0());
    let q22 = q21 + crate::data::cf_greek_extended_0();
    assert(q22.last().key == 0x1F50);
    assert(crate::data::cf_greek_extended_1()[0].key == 0x1F52);
    crate::range_table::lemma_fold_wf_concat(q22, crate::data::cf_greek_extended_1());
    let q23 = q22 + crate::data::cf_greek_extended_1();
    assert(q23.last().key == 0x1F5D);
    assert(crate::data::cf_greek_extended_2()[0].key == 0x1F5F);
    crate::range_table::lemma_fold_wf_concat(q23, crate::data::cf_greek_extended_2());
    let q24 = q23 + crate::data::cf_greek_extended_2();
    assert(q24.last().key == 0x1F9F);
    assert(crate::data::cf_greek_extended_3()[0].key == 0x1FA0);
    crate::range_table::lemma_fold_wf_concat(q24, crate::data::cf_greek_extended_3());
    let q25 = q24 + crate::data::cf_greek_extended_3();
    assert(q25.last().key == 0x1FB6);
    assert(crate::data::cf_greek_extended_4()[0].key == 0x1FB7);
    crate::range_table::lemma_fold_wf_concat(q25, crate::data::cf_greek_extended_4());
    let q26 = q25 + crate::data::cf_greek_extended_4();
    assert(q26.last().key == 0x1FBC);
    assert(crate::data::cf_greek_extended_5()[0].key == 0x1FBE);
    crate::range_table::lemma_fold_wf_concat(q26, crate::data::cf_greek_extended_5());
    let q27 = q26 + crate::data::cf_greek_extended_5();
    assert(q27.last().key == 0x1FC7);
    assert(crate::data::cf_greek_extended_6()[0].key == 0x1FC8);
    crate::range_table::lemma_fold_wf_concat(q27, crate::data::cf_greek_extended_6());
    let q28 = q27 + crate::data::cf_greek_extended_6();
    assert(q28.last().key == 0x1FD2);
    assert(crate::data::cf_greek_extended_7()[0].key == 0x1FD3);
    crate::range_table::lemma_fold_wf_concat(q28, crate::data::cf_greek_extended_7());
    let q29 = q28 + crate::data::cf_greek_extended_7();
    assert(q29.last().key == 0x1FDA);
    assert(crate::data::cf_greek_extended_8()[0].key == 0x1FDB);
    crate::range_table::lemma_fold_wf_concat(q29, crate::data::cf_greek_extended_8());
    let q30 = q29 + crate::data::cf_greek_extended_8();
    assert(q30.last().key == 0x1FE7);
    assert(crate::data::cf_greek_extended_9()[0].key == 0x1FE8);
    crate::range_table::lemma_fold_wf_concat(q30, crate::data::cf_greek_extended_9());
    let q31 = q30 + crate::data::cf_greek_extended_9();
    assert(q31.last().key == 0x1FF2);
    assert(crate::data::cf_greek_extended_10()[0].key == 0x1FF3);
    crate::range_table::lemma_fold_wf_concat(q31, crate::data::cf_greek_extended_10());
    let q32 = q31 + crate::data::cf_greek_extended_10();
    assert(q32.last().key == 0x1FF9);
    assert(crate::data::cf_greek_extended_11()[0].key == 0x1FFA);
    crate::range_table::lemma_fold_wf_concat(q32, crate::data::cf_greek_extended_11());
    let q33 = q32 + crate::data::cf_greek_extended_11();
    assert(q33.last().key == 0x1FFC);
    assert(crate::data::cf_letterlike_numeric_0()[0].key == 0x20A8);
    crate::range_table::lemma_fold_wf_concat(q33, crate::data::cf_letterlike_numeric_0());
    let q34 = q33 + crate::data::cf_letterlike_numeric_0();
    assert(q34.last().key == 0x210B);
    assert(crate::data::cf_letterlike_numeric_1()[0].key == 0x210C);
    crate::range_table::lemma_fold_wf_concat(q34, crate::data::cf_letterlike_numeric_1());
    let q35 = q34 + crate::data::cf_letterlike_numeric_1();
    assert(q35.last().key == 0x2115);
    assert(crate::data::cf_letterlike_numeric_2()[0].key == 0x2116);
    crate::range_table::lemma_fold_wf_concat(q35, crate::data::cf_letterlike_numeric_2());
    let q36 = q35 + crate::data::cf_letterlike_numeric_2();
    assert(q36.last().key == 0x211D);
    assert(crate::data::cf_letterlike_numeric_3()[0].key == 0x2120);
    crate::range_table::lemma_fold_wf_concat(q36, crate::data::cf_letterlike_numeric_3());
    let q37 = q36 + crate::data::cf_letterlike_numeric_3();
    assert(q37.last().key == 0x2128);
    assert(crate::data::cf_letterlike_numeric_4()[0].key == 0x212A);
    crate::range_table::lemma_fold_wf_concat(q37, crate::data::cf_letterlike_numeric_4());
    let q38 = q37 + crate::data::cf_letterlike_numeric_4();
    assert(q38.last().key == 0x2131);
    assert(crate::data::cf_letterlike_numeric_5()[0].key == 0x2133);
    crate::range_table::lemma_fold_wf_concat(q38, crate::data::cf_letterlike_numeric_5());
    let q39 = q38 + crate::data::cf_letterlike_numeric_5();
    assert(q39.last().key == 0x24CF);
    assert(crate::data::cf_squared_units_0()[0].key == 0x3371);
    crate::range_table::lemma_fold_wf_concat(q39, crate::data::cf_squared_units_0());
    let q40 = q39 + crate::data::cf_squared_units_0();
    assert(q40.last().key == 0x3382);
    assert(crate::data::cf_squared_units_1()[0].key == 0x3383);
    crate::range_table::lemma_fold_wf_concat(q40, crate::data::cf_squared_units_1());
    let q41 = q40 + crate::data::cf_squared_units_1();
    assert(q41.last().key == 0x338A);
    assert(crate::data::cf_squared_units_2()[0].key == 0x338B);
    crate::range_table::lemma_fold_wf_concat(q41, crate::data::cf_squared_units_2());
    let q42 = q41 + crate::data::cf_squared_units_2();
    assert(q42.last().key == 0x3393);
    assert(crate::data::cf_squared_units_3()[0].key == 0x3394);
    crate::range_table::lemma_fold_wf_concat(q42, crate::data::cf_squared_units_3());
    let q43 = q42 + crate::data::cf_squared_units_3();
    assert(q43.last().key == 0x33B4);
    assert(crate::data::cf_squared_units_4()[0].key == 0x33B5);
    crate::range_table::lemma_fold_wf_concat(q43, crate::data::cf_squared_units_4());
    let q44 = q43 + crate::data::cf_squared_units_4();
    assert(q44.last().key == 0x33BA);
    assert(crate::data::cf_squared_units_5()[0].key == 0x33BB);
    crate::range_table::lemma_fold_wf_concat(q44, crate::data::cf_squared_units_5());
    let q45 = q44 + crate::data::cf_squared_units_5();
    assert(q45.last().key == 0x33C0);
    assert(crate::data::cf_squared_units_6()[0].key == 0x33C1);
    crate::range_table::lemma_fold_wf_concat(q45, crate::data::cf_squared_units_6());
    let q46 = q45 + crate::data::cf_squared_units_6();
    assert(q46.last().key == 0x33C8);
    assert(crate::data::cf_squared_units_7()[0].key == 0x33C9);
    crate::range_table::lemma_fold_wf_concat(q46, crate::data::cf_squared_units_7());
    let q47 = q46 + crate::data::cf_squared_units_7();
    assert(q47.last().key == 0x33D9);
    assert(crate::data::cf_squared_units_8()[0].key == 0x33DA);
    crate::range_table::lemma_fold_wf_concat(q47, crate::data::cf_squared_units_8());
    let q48 = q47 + crate::data::cf_squared_units_8();
    assert(q48.last().key == 0x33DD);
    assert(crate::data::cf_ligatures_0()[0].key == 0xFB00);
    crate::range_table::lemma_fold_wf_concat(q48, crate::data::cf_ligatures_0());
    let q49 = q48 + crate::data::cf_ligatures_0();
    assert(q49.last().key == 0xFB05);
    assert(crate::data::cf_ligatures_1()[0].key == 0xFB06);
    crate::range_table::lemma_fold_wf_concat(q49, crate::data::cf_ligatures_1());
    let q50 = q49 + crate::data::cf_ligatures_1();
    assert(q50.last().key == 0xFB17);
    assert(crate::data::cf_wide_and_deseret()[0].key == 0xFF21);
    crate::range_table::lemma_fold_wf_concat(q50, crate::data::cf_wide_and_deseret());
    let q51 = q50 + crate::data::cf_wide_and_deseret();
    assert(q51.last().key == 0x10425);
    assert(crate::data::cf_math_latin_0()[0].key == 0x1D400);
    crate::range_table::lemma_fold_wf_concat(q51, crate::data::cf_math_latin_0());
    let q52 = q51 + crate::data::cf_math_latin_0();
    assert(q52.last().key == 0x1D49F);
    assert(crate::data::cf_math_latin_1()[0].key == 0x1D4A2);
    crate::range_table::lemma_fold_wf_concat(q52, crate::data::cf_math_latin_1());
    let q53 = q52 + crate::data::cf_math_latin_1();
    assert(q53.last().key == 0x1D4AB);
    assert(crate::data::cf_math_latin_2()[0].key == 0x1D4AC);
    crate::range_table::lemma_fold_wf_concat(q53, crate::data::cf_math_latin_2());
    let q54 = q53 + crate::data::cf_math_latin_2();
    assert(q54.last().key == 0x1D4B2);
    assert(crate::data::cf_math_latin_3()[0].key == 0x1D4B3);
    crate::range_table::lemma_fold_wf_concat(q54, crate::data::cf_math_latin_3());
    let q55 = q54 + crate::data::cf_math_latin_3();
    assert(q55.last().key == 0x1D505);
    assert(crate::data::cf_math_latin_4()[0].key == 0x1D507);
    crate::range_table::lemma_fold_wf_concat(q55, crate::data::cf_math_latin_4());
    let q56 = q55 + crate::data::cf_math_latin_4();
    assert(q56.last().key == 0x1D50E);
    assert(crate::data::cf_math_latin_5()[0].key == 0x1D50F);
    crate::range_table::lemma_fold_wf_concat(q56, crate::data::cf_math_latin_5());
    let q57 = q56 + crate::data::cf_math_latin_5();
    assert(q57.last().key == 0x1D514);
    assert(crate::data::cf_math_latin_6()[0].key == 0x1D516);
    crate::range_table::lemma_fold_wf_concat(q57, crate::data::cf_math_latin_6());
    let q58 = q57 + crate::data::cf_math_latin_6();
    assert(q58.last().key == 0x1D51B);
    assert(crate::data::cf_math_latin_7()[0].key == 0x1D51C);
    crate::range_table::lemma_fold_wf_concat(q58, crate::data::cf_math_latin_7());
    let q59 = q58 + crate::data::cf_math_latin_7();
    assert(q59.last().key == 0x1D53D);
    assert(crate::data::cf_math_latin_8()[0].key == 0x1D53E);
    crate::range_table::lemma_fold_wf_concat(q59, crate::data::cf_math_latin_8());
    let q60 = q59 + crate::data::cf_math_latin_8();
    assert(q60.last().key == 0x1D544);
    assert(crate::data::cf_math_latin_9()[0].key == 0x1D546);
    crate::range_table::lemma_fold_wf_concat(q60, crate::data::cf_math_latin_9());
    let q61 = q60 + crate::data::cf_math_latin_9();
    assert(q61.last().key == 0x1D54E);
    assert(crate::data::cf_math_latin_10()[0].key == 0x1D54F);
    crate::range_table::lemma_fold_wf_concat(q61, crate::data::cf_math_latin_10());
    let q62 = q61 + crate::data::cf_math_latin_10();
    assert(q62.last().key == 0x1D621);
    assert(crate::data::cf_math_latin_11()[0].key == 0x1D63C);
    crate::range_table::lemma_fold_wf_concat(q62, crate::data::cf_math_latin_11());
    let q63 = q62 + crate::data::cf_math_latin_11();
    assert(q63.last().key == 0x1D689);
    assert(crate::data::cf_math_greek_0()[0].key == 0x1D6A8);
    crate::range_table::lemma_fold_wf_concat(q63, crate::data::cf_math_greek_0());
    let q64 = q63 + crate::data::cf_math_greek_0();
    assert(q64.last().key == 0x1D6DD);
    assert(crate::data::cf_math_greek_1()[0].key == 0x1D6DE);
    crate::range_table::lemma_fold_wf_concat(q64, crate::data::cf_math_greek_1());
    let q65 = q64 + crate::data::cf_math_greek_1();
    assert(q65.last().key == 0x1D6F3);
    assert(crate::data::cf_math_greek_2()[0].key == 0x1D6F4);
    crate::range_table::lemma_fold_wf_concat(q65, crate::data::cf_math_greek_2());
    let q66 = q65 + crate::data::cf_math_greek_2();
    assert(q66.last().key == 0x1D719);
    assert(crate::data::cf_math_greek_3()[0].key == 0x1D71A);
    crate::range_table::lemma_fold_wf_concat(q66, crate::data::cf_math_greek_3());
    let q67 = q66 + crate::data::cf_math_greek_3();
    assert(q67.last().key == 0x1D734);
    assert(crate::data::cf_math_greek_4()[0].key == 0x1D750);
    crate::range_table::lemma_fold_wf_concat(q67, crate::data::cf_math_greek_4());
    let q68 = q67 + crate::data::cf_math_greek_4();
    assert(q68.last().key == 0x1D755);
    assert(crate::data::cf_math_greek_5()[0].key == 0x1D756);
    crate::range_table::lemma_fold_wf_concat(q68, crate::data::cf_math_greek_5());
    let q69 = q68 + crate::data::cf_math_greek_5();
    assert(q69.last().key == 0x1D78B);
    assert(crate::data::cf_math_greek_6()[0].key == 0x1D78C);
    crate::range_table::lemma_fold_wf_concat(q69, crate::data::cf_math_greek_6());
    let q70 = q69 + crate::data::cf_math_greek_6();
    assert(q70.last().key == 0x1D7A1);
    assert(crate::data::cf_math_greek_7()[0].key == 0x1D7A2);
    crate::range_table::lemma_fold_wf_concat(q70, crate::data::cf_math_greek_7());
    let q71 = q70 + crate::data::cf_math_greek_7();
    assert(q71.last().key == 0x1D7C7);
    assert(crate::data::cf_math_greek_8()[0].key == 0x1D7C8);
    crate::range_table::lemma_fold_wf_concat(q71, crate::data::cf_math_greek_8());
    let q72 = q71 + crate::data::cf_math_greek_8();
}

} // verus!
