//! Character classification tables.
//!
//! Each predicate answers membership of a single code point in one of the
//! named character sets used by the preparation pipelines. Every executable
//! predicate carries a specification twin that states the same ranges, so
//! callers can reason about membership exactly.
use vstd::prelude::*;

verus! {

/// B.1 Commonly mapped to nothing.
pub open spec fn is_mapped_to_nothing(c: char) -> bool {
    let cp = c as u32;
    cp == 0x00AD || cp == 0x034F || cp == 0x1806 || (0x180B <= cp && cp <= 0x180D)
        || (0x200B <= cp && cp <= 0x200D) || cp == 0x2060 || (0xFE00 <= cp && cp <= 0xFE0F)
        || cp == 0xFEFF
}

/// B.1 Commonly mapped to nothing.
pub fn commonly_mapped_to_nothing(c: char) -> (r: bool)
    ensures
        r == is_mapped_to_nothing(c),
{
    let cp = c as u32;
    cp == 0x00AD || cp == 0x034F || cp == 0x1806 || (0x180B <= cp && cp <= 0x180D)
        || (0x200B <= cp && cp <= 0x200D) || cp == 0x2060 || (0xFE00 <= cp && cp <= 0xFE0F)
        || cp == 0xFEFF
}

/// C.1.1 ASCII space characters.
pub open spec fn is_ascii_space(c: char) -> bool {
    c == ' '
}

/// C.1.1 ASCII space characters.
pub fn ascii_space_character(c: char) -> (r: bool)
    ensures
        r == is_ascii_space(c),
{
    c == ' '
}

/// C.1.2 Non-ASCII space characters.
pub open spec fn is_non_ascii_space(c: char) -> bool {
    let cp = c as u32;
    cp == 0x00A0 || cp == 0x1680 || (0x2000 <= cp && cp <= 0x200B) || cp == 0x202F
        || cp == 0x205F || cp == 0x3000
}

/// C.1.2 Non-ASCII space characters.
pub fn non_ascii_space_character(c: char) -> (r: bool)
    ensures
        r == is_non_ascii_space(c),
{
    let cp = c as u32;
    cp == 0x00A0 || cp == 0x1680 || (0x2000 <= cp && cp <= 0x200B) || cp == 0x202F
        || cp == 0x205F || cp == 0x3000
}

/// C.2.1 ASCII control characters.
pub open spec fn is_ascii_control(c: char) -> bool {
    let cp = c as u32;
    cp <= 0x001F || cp == 0x007F
}

/// C.2.1 ASCII control characters.
pub fn ascii_control_character(c: char) -> (r: bool)
    ensures
        r == is_ascii_control(c),
{
    let cp = c as u32;
    cp <= 0x001F || cp == 0x007F
}

/// C.2.2 Non-ASCII control characters.
pub open spec fn is_non_ascii_control(c: char) -> bool {
    let cp = c as u32;
    (0x0080 <= cp && cp <= 0x009F) || cp == 0x06DD || cp == 0x070F || cp == 0x180E
        || cp == 0x200C || cp == 0x200D || cp == 0x2028 || cp == 0x2029
        || (0x2060 <= cp && cp <= 0x2063) || (0x206A <= cp && cp <= 0x206F) || cp == 0xFEFF
        || (0xFFF9 <= cp && cp <= 0xFFFC) || (0x1D173 <= cp && cp <= 0x1D17A)
}

/// C.2.2 Non-ASCII control characters.
pub fn non_ascii_control_character(c: char) -> (r: bool)
    ensures
        r == is_non_ascii_control(c),
{
    let cp = c as u32;
    (0x0080 <= cp && cp <= 0x009F) || cp == 0x06DD || cp == 0x070F || cp == 0x180E
        || cp == 0x200C || cp == 0x200D || cp == 0x2028 || cp == 0x2029
        || (0x2060 <= cp && cp <= 0x2063) || (0x206A <= cp && cp <= 0x206F) || cp == 0xFEFF
        || (0xFFF9 <= cp && cp <= 0xFFFC) || (0x1D173 <= cp && cp <= 0x1D17A)
}

/// C.3 Private use.
pub open spec fn is_private_use(c: char) -> bool {
    let cp = c as u32;
    (0xE000 <= cp && cp <= 0xF8FF) || (0xF0000 <= cp && cp <= 0xFFFFD)
        || (0x100000 <= cp && cp <= 0x10FFFD)
}

/// C.3 Private use.
pub fn private_use(c: char) -> (r: bool)
    ensures
        r == is_private_use(c),
{
    let cp = c as u32;
    (0xE000 <= cp && cp <= 0xF8FF) || (0xF0000 <= cp && cp <= 0xFFFFD)
        || (0x100000 <= cp && cp <= 0x10FFFD)
}

/// C.4 Non-character code points: U+FDD0..U+FDEF and the last two code
/// points of every plane.
pub open spec fn is_non_character(c: char) -> bool {
    let cp = c as u32;
    (0xFDD0 <= cp && cp <= 0xFDEF)
        || (0xFFFE <= cp && cp <= 0xFFFF)
        || (0x1FFFE <= cp && cp <= 0x1FFFF)
        || (0x2FFFE <= cp && cp <= 0x2FFFF)
        || (0x3FFFE <= cp && cp <= 0x3FFFF)
        || (0x4FFFE <= cp && cp <= 0x4FFFF)
        || (0x5FFFE <= cp && cp <= 0x5FFFF)
        || (0x6FFFE <= cp && cp <= 0x6FFFF)
        || (0x7FFFE <= cp && cp <= 0x7FFFF)
        || (0x8FFFE <= cp && cp <= 0x8FFFF)
        || (0x9FFFE <= cp && cp <= 0x9FFFF)
        || (0xAFFFE <= cp && cp <= 0xAFFFF)
        || (0xBFFFE <= cp && cp <= 0xBFFFF)
        || (0xCFFFE <= cp && cp <= 0xCFFFF)
        || (0xDFFFE <= cp && cp <= 0xDFFFF)
        || (0xEFFFE <= cp && cp <= 0xEFFFF)
        || (0xFFFFE <= cp && cp <= 0xFFFFF)
        || (0x10FFFE <= cp && cp <= 0x10FFFF)
}

/// C.4 Non-character code points.
pub fn non_character_code_point(c: char) -> (r: bool)
    ensures
        r == is_non_character(c),
{
    let cp = c as u32;
    (0xFDD0 <= cp && cp <= 0xFDEF)
        || (0xFFFE <= cp && cp <= 0xFFFF)
        || (0x1FFFE <= cp && cp <= 0x1FFFF)
        || (0x2FFFE <= cp && cp <= 0x2FFFF)
        || (0x3FFFE <= cp && cp <= 0x3FFFF)
        || (0x4FFFE <= cp && cp <= 0x4FFFF)
        || (0x5FFFE <= cp && cp <= 0x5FFFF)
        || (0x6FFFE <= cp && cp <= 0x6FFFF)
        || (0x7FFFE <= cp && cp <= 0x7FFFF)
        || (0x8FFFE <= cp && cp <= 0x8FFFF)
        || (0x9FFFE <= cp && cp <= 0x9FFFF)
        || (0xAFFFE <= cp && cp <= 0xAFFFF)
        || (0xBFFFE <= cp && cp <= 0xBFFFF)
        || (0xCFFFE <= cp && cp <= 0xCFFFF)
        || (0xDFFFE <= cp && cp <= 0xDFFFF)
        || (0xEFFFE <= cp && cp <= 0xEFFFF)
        || (0xFFFFE <= cp && cp <= 0xFFFFF)
        || (0x10FFFE <= cp && cp <= 0x10FFFF)
}

/// C.5 Surrogate codes. A `char` is a Unicode scalar value and can never
/// hold a surrogate code point, so this is constantly false.
pub open spec fn is_surrogate(c: char) -> bool {
    false
}

/// C.5 Surrogate codes.
pub fn surrogate_code(c: char) -> (r: bool)
    ensures
        r == is_surrogate(c),
{
    false
}

/// C.6 Inappropriate for plain text.
pub open spec fn is_inappropriate_for_plain_text(c: char) -> bool {
    let cp = c as u32;
    0xFFF9 <= cp && cp <= 0xFFFD
}

/// C.6 Inappropriate for plain text.
pub fn inappropriate_for_plain_text(c: char) -> (r: bool)
    ensures
        r == is_inappropriate_for_plain_text(c),
{
    let cp = c as u32;
    0xFFF9 <= cp && cp <= 0xFFFD
}

/// C.7 Inappropriate for canonical representation.
pub open spec fn is_inappropriate_for_canonical(c: char) -> bool {
    let cp = c as u32;
    0x2FF0 <= cp && cp <= 0x2FFB
}

/// C.7 Inappropriate for canonical representation.
pub fn inappropriate_for_canonical_representation(c: char) -> (r: bool)
    ensures
        r == is_inappropriate_for_canonical(c),
{
    let cp = c as u32;
    0x2FF0 <= cp && cp <= 0x2FFB
}

/// C.8 Change display properties or are deprecated.
pub open spec fn is_change_display(c: char) -> bool {
    let cp = c as u32;
    cp == 0x0340 || cp == 0x0341 || cp == 0x200E || cp == 0x200F
        || (0x202A <= cp && cp <= 0x202E) || (0x206A <= cp && cp <= 0x206F)
}

/// C.8 Change display properties or are deprecated.
pub fn change_display_properties_or_deprecated(c: char) -> (r: bool)
    ensures
        r == is_change_display(c),
{
    let cp = c as u32;
    cp == 0x0340 || cp == 0x0341 || cp == 0x200E || cp == 0x200F
        || (0x202A <= cp && cp <= 0x202E) || (0x206A <= cp && cp <= 0x206F)
}

/// C.9 Tagging characters.
pub open spec fn is_tagging(c: char) -> bool {
    let cp = c as u32;
    cp == 0xE0001 || (0xE0020 <= cp && cp <= 0xE007F)
}

/// C.9 Tagging characters.
pub fn tagging_character(c: char) -> (r: bool)
    ensures
        r == is_tagging(c),
{
    let cp = c as u32;
    cp == 0xE0001 || (0xE0020 <= cp && cp <= 0xE007F)
}

/// D.1 Characters with bidirectional property "R" or "AL", as decided by the
/// bidirectional class service.
pub uninterp spec fn bidi_class_r_or_al(c: char) -> bool;

/// D.2 Characters with bidirectional property "L", as decided by the
/// bidirectional class service.
pub uninterp spec fn bidi_class_l(c: char) -> bool;

/// D.1 Characters with bidirectional property "R" or "AL".
///
/// Relies on `unicode_bidi::bidi_class`: the class depends on the code point
/// alone, and its table assigns no code point below U+0590 the class R or AL.
#[verifier::external_body]
pub fn bidi_r_or_al(c: char) -> (r: bool)
    ensures
        r == bidi_class_r_or_al(c),
        (c as u32) < 0x0590 ==> r == false,
{
    matches!(
        unicode_bidi::bidi_class(c),
        unicode_bidi::BidiClass::R | unicode_bidi::BidiClass::AL
    )
}

/// D.2 Characters with bidirectional property "L".
///
/// Relies on `unicode_bidi::bidi_class`: the class depends on the code point
/// alone.
#[verifier::external_body]
pub fn bidi_l(c: char) -> (r: bool)
    ensures
        r == bidi_class_l(c),
{
    matches!(unicode_bidi::bidi_class(c), unicode_bidi::BidiClass::L)
}

/// A.1 Unassigned code points: membership in the unassigned table.
pub open spec fn is_unassigned(c: char) -> bool {
    crate::range_table::ranges_contain(crate::data::unassigned_entries(), c as u32)
}

/// A.1 Unassigned code points.
pub fn unassigned_code_point(c: char) -> (r: bool)
    ensures
        r == is_unassigned(c),
{
    let t = crate::data::build_unassigned();
    t.contains(c as u32)
}

/// B.2 What a character folds to: the replacement its table entry gives,
/// or the character itself when the table has no entry for it.
pub open spec fn case_fold_of(c: char) -> Seq<char> {
    crate::range_table::fold_lookup(crate::data::case_fold_entries(), c)
}

/// The bounded sequence of characters returned by `case_fold_for_nfkc`.
/// Its view is the sequence of characters still to be yielded.
pub struct CaseFoldForNfkc {
    items: Vec<char>,
    pos: usize,
}

impl View for CaseFoldForNfkc {
    type V = Seq<char>;

    closed spec fn view(&self) -> Seq<char> {
        if self.pos <= self.items@.len() {
            self.items@.skip(self.pos as int)
        } else {
            Seq::empty()
        }
    }
}

impl CaseFoldForNfkc {
    /// Yields the next character of the fold, front to back.
    pub fn next(&mut self) -> (r: Option<char>)
        ensures
            old(self)@.len() > 0 ==> r == Some(old(self)@[0]) && final(self)@ == old(
                self,
            )@.drop_first(),
            old(self)@.len() == 0 ==> r == None::<char> && final(self)@ == old(self)@,
    {
        if self.pos < self.items.len() {
            let c = self.items[self.pos];
            self.pos = self.pos + 1;
            proof {
                assert(self@ =~= old(self)@.drop_first());
            }
            Some(c)
        } else {
            None
        }
    }
}

/// B.2 Mapping for case-folding used with NFKC.
pub fn case_fold_for_nfkc(c: char) -> (r: CaseFoldForNfkc)
    ensures
        r@ == case_fold_of(c),
{
    let t = crate::data::build_case_fold();
    let found = t.lookup(c as u32);
    proof {
        let s = t@;
        if crate::range_table::fold_entry_for(s, c as u32) is Some {
            let w = choose|i: int| 0 <= i < s.len() && (#[trigger] s[i]).key == c as u32;
            assert(s[w].count <= 4);
        }
    }
    let mut items: Vec<char> = Vec::new();
    match found {
        Some(e) => {
            if e.count >= 1 {
                items.push(e.r0);
            }
            if e.count >= 2 {
                items.push(e.r1);
            }
            if e.count >= 3 {
                items.push(e.r2);
            }
            if e.count >= 4 {
                items.push(e.r3);
            }
            proof {
                assert(items@ =~= e.repl());
            }
        },
        None => {
            items.push(c);
            proof {
                assert(items@ =~= seq![c]);
            }
        },
    }
    let r = CaseFoldForNfkc { items, pos: 0 };
    proof {
        assert(r@ =~= r.items@);
    }
    r
}

/// The Unicode "Mark" (M) general category: all combining characters.
pub open spec fn is_mark(c: char) -> bool {
    let cp = c as u32;
    (0x300 <= cp && cp <= 0x36F)
        || (0x483 <= cp && cp <= 0x489)
        || (0x591 <= cp && cp <= 0x5BD)
        || cp == 0x5BF
        || (0x5C1 <= cp && cp <= 0x5C2)
        || (0x5C4 <= cp && cp <= 0x5C5)
        || cp == 0x5C7
        || (0x610 <= cp && cp <= 0x61A)
        || (0x64B <= cp && cp <= 0x65F)
        || cp == 0x670
        || (0x6D6 <= cp && cp <= 0x6DC)
        || (0x6DF <= cp && cp <= 0x6E4)
        || (0x6E7 <= cp && cp <= 0x6E8)
        || (0x6EA <= cp && cp <= 0x6ED)
        || cp == 0x711
        || (0x730 <= cp && cp <= 0x74A)
        || (0x7A6 <= cp && cp <= 0x7B0)
        || (0x7EB <= cp && cp <= 0x7F3)
        || cp == 0x7FD
        || (0x816 <= cp && cp <= 0x819)
        || (0x81B <= cp && cp <= 0x823)
        || (0x825 <= cp && cp <= 0x827)
        || (0x829 <= cp && cp <= 0x82D)
        || (0x859 <= cp && cp <= 0x85B)
        || (0x898 <= cp && cp <= 0x89F)
        || (0x8CA <= cp && cp <= 0x8E1)
        || (0x8E3 <= cp && cp <= 0x903)
        || (0x93A <= cp && cp <= 0x93C)
        || (0x93E <= cp && cp <= 0x94F)
        || (0x951 <= cp && cp <= 0x957)
        || (0x962 <= cp && cp <= 0x963)
        || (0x981 <= cp && cp <= 0x983)
        || cp == 0x9BC
        || (0x9BE <= cp && cp <= 0x9C4)
        || (0x9C7 <= cp && cp <= 0x9C8)
        || (0x9CB <= cp && cp <= 0x9CD)
        || cp == 0x9D7
        || (0x9E2 <= cp && cp <= 0x9E3)
        || cp == 0x9FE
        || (0xA01 <= cp && cp <= 0xA03)
        || cp == 0xA3C
        || (0xA3E <= cp && cp <= 0xA42)
        || (0xA47 <= cp && cp <= 0xA48)
        || (0xA4B <= cp && cp <= 0xA4D)
        || cp == 0xA51
        || (0xA70 <= cp && cp <= 0xA71)
        || cp == 0xA75
        || (0xA81 <= cp && cp <= 0xA83)
        || cp == 0xABC
        || (0xABE <= cp && cp <= 0xAC5)
        || (0xAC7 <= cp && cp <= 0xAC9)
        || (0xACB <= cp && cp <= 0xACD)
        || (0xAE2 <= cp && cp <= 0xAE3)
        || (0xAFA <= cp && cp <= 0xAFF)
        || (0xB01 <= cp && cp <= 0xB03)
        || cp == 0xB3C
        || (0xB3E <= cp && cp <= 0xB44)
        || (0xB47 <= cp && cp <= 0xB48)
        || (0xB4B <= cp && cp <= 0xB4D)
        || (0xB55 <= cp && cp <= 0xB57)
        || (0xB62 <= cp && cp <= 0xB63)
        || cp == 0xB82
        || (0xBBE <= cp && cp <= 0xBC2)
        || (0xBC6 <= cp && cp <= 0xBC8)
        || (0xBCA <= cp && cp <= 0xBCD)
        || cp == 0xBD7
        || (0xC00 <= cp && cp <= 0xC04)
        || cp == 0xC3C
        || (0xC3E <= cp && cp <= 0xC44)
        || (0xC46 <= cp && cp <= 0xC48)
        || (0xC4A <= cp && cp <= 0xC4D)
        || (0xC55 <= cp && cp <= 0xC56)
        || (0xC62 <= cp && cp <= 0xC63)
        || (0xC81 <= cp && cp <= 0xC83)
        || cp == 0xCBC
        || (0xCBE <= cp && cp <= 0xCC4)
        || (0xCC6 <= cp && cp <= 0xCC8)
        || (0xCCA <= cp && cp <= 0xCCD)
        || (0xCD5 <= cp && cp <= 0xCD6)
        || (0xCE2 <= cp && cp <= 0xCE3)
        || cp == 0xCF3
        || (0xD00 <= cp && cp <= 0xD03)
        || (0xD3B <= cp && cp <= 0xD3C)
        || (0xD3E <= cp && cp <= 0xD44)
        || (0xD46 <= cp && cp <= 0xD48)
        || (0xD4A <= cp && cp <= 0xD4D)
        || cp == 0xD57
        || (0xD62 <= cp && cp <= 0xD63)
        || (0xD81 <= cp && cp <= 0xD83)
        || cp == 0xDCA
        || (0xDCF <= cp && cp <= 0xDD4)
        || cp == 0xDD6
        || (0xDD8 <= cp && cp <= 0xDDF)
        || (0xDF2 <= cp && cp <= 0xDF3)
        || cp == 0xE31
        || (0xE34 <= cp && cp <= 0xE3A)
        || (0xE47 <= cp && cp <= 0xE4E)
        || cp == 0xEB1
        || (0xEB4 <= cp && cp <= 0xEBC)
        || (0xEC8 <= cp && cp <= 0xECE)
        || (0xF18 <= cp && cp <= 0xF19)
        || cp == 0xF35
        || cp == 0xF37
        || cp == 0xF39
        || (0xF3E <= cp && cp <= 0xF3F)
        || (0xF71 <= cp && cp <= 0xF84)
        || (0xF86 <= cp && cp <= 0xF87)
        || (0xF8D <= cp && cp <= 0xF97)
        || (0xF99 <= cp && cp <= 0xFBC)
        || cp == 0xFC6
        || (0x102B <= cp && cp <= 0x103E)
        || (0x1056 <= cp && cp <= 0x1059)
        || (0x105E <= cp && cp <= 0x1060)
        || (0x1062 <= cp && cp <= 0x1064)
        || (0x1067 <= cp && cp <= 0x106D)
        || (0x1071 <= cp && cp <= 0x1074)
        || (0x1082 <= cp && cp <= 0x108D)
        || cp == 0x108F
        || (0x109A <= cp && cp <= 0x109D)
        || (0x135D <= cp && cp <= 0x135F)
        || (0x1712 <= cp && cp <= 0x1715)
        || (0x1732 <= cp && cp <= 0x1734)
        || (0x1752 <= cp && cp <= 0x1753)
        || (0x1772 <= cp && cp <= 0x1773)
        || (0x17B4 <= cp && cp <= 0x17D3)
        || cp == 0x17DD
        || (0x180B <= cp && cp <= 0x180D)
        || cp == 0x180F
        || (0x1885 <= cp && cp <= 0x1886)
        || cp == 0x18A9
        || (0x1920 <= cp && cp <= 0x192B)
        || (0x1930 <= cp && cp <= 0x193B)
        || (0x1A17 <= cp && cp <= 0x1A1B)
        || (0x1A55 <= cp && cp <= 0x1A5E)
        || (0x1A60 <= cp && cp <= 0x1A7C)
        || cp == 0x1A7F
        || (0x1AB0 <= cp && cp <= 0x1ACE)
        || (0x1B00 <= cp && cp <= 0x1B04)
        || (0x1B34 <= cp && cp <= 0x1B44)
        || (0x1B6B <= cp && cp <= 0x1B73)
        || (0x1B80 <= cp && cp <= 0x1B82)
        || (0x1BA1 <= cp && cp <= 0x1BAD)
        || (0x1BE6 <= cp && cp <= 0x1BF3)
        || (0x1C24 <= cp && cp <= 0x1C37)
        || (0x1CD0 <= cp && cp <= 0x1CD2)
        || (0x1CD4 <= cp && cp <= 0x1CE8)
        || cp == 0x1CED
        || cp == 0x1CF4
        || (0x1CF7 <= cp && cp <= 0x1CF9)
        || (0x1DC0 <= cp && cp <= 0x1DFF)
        || (0x20D0 <= cp && cp <= 0x20F0)
        || (0x2CEF <= cp && cp <= 0x2CF1)
        || cp == 0x2D7F
        || (0x2DE0 <= cp && cp <= 0x2DFF)
        || (0x302A <= cp && cp <= 0x302F)
        || (0x3099 <= cp && cp <= 0x309A)
        || (0xA66F <= cp && cp <= 0xA672)
        || (0xA674 <= cp && cp <= 0xA67D)
        || (0xA69E <= cp && cp <= 0xA69F)
        || (0xA6F0 <= cp && cp <= 0xA6F1)
        || cp == 0xA802
        || cp == 0xA806
        || cp == 0xA80B
        || (0xA823 <= cp && cp <= 0xA827)
        || cp == 0xA82C
        || (0xA880 <= cp && cp <= 0xA881)
        || (0xA8B4 <= cp && cp <= 0xA8C5)
        || (0xA8E0 <= cp && cp <= 0xA8F1)
        || cp == 0xA8FF
        || (0xA926 <= cp && cp <= 0xA92D)
        || (0xA947 <= cp && cp <= 0xA953)
        || (0xA980 <= cp && cp <= 0xA983)
        || (0xA9B3 <= cp && cp <= 0xA9C0)
        || cp == 0xA9E5
        || (0xAA29 <= cp && cp <= 0xAA36)
        || cp == 0xAA43
        || (0xAA4C <= cp && cp <= 0xAA4D)
        || (0xAA7B <= cp && cp <= 0xAA7D)
        || cp == 0xAAB0
        || (0xAAB2 <= cp && cp <= 0xAAB4)
        || (0xAAB7 <= cp && cp <= 0xAAB8)
        || (0xAABE <= cp && cp <= 0xAABF)
        || cp == 0xAAC1
        || (0xAAEB <= cp && cp <= 0xAAEF)
        || (0xAAF5 <= cp && cp <= 0xAAF6)
        || (0xABE3 <= cp && cp <= 0xABEA)
        || (0xABEC <= cp && cp <= 0xABED)
        || cp == 0xFB1E
        || (0xFE00 <= cp && cp <= 0xFE0F)
        || (0xFE20 <= cp && cp <= 0xFE2F)
        || cp == 0x101FD
        || cp == 0x102E0
        || (0x10376 <= cp && cp <= 0x1037A)
        || (0x10A01 <= cp && cp <= 0x10A03)
        || (0x10A05 <= cp && cp <= 0x10A06)
        || (0x10A0C <= cp && cp <= 0x10A0F)
        || (0x10A38 <= cp && cp <= 0x10A3A)
        || cp == 0x10A3F
        || (0x10AE5 <= cp && cp <= 0x10AE6)
        || (0x10D24 <= cp && cp <= 0x10D27)
        || (0x10EAB <= cp && cp <= 0x10EAC)
        || (0x10EFD <= cp && cp <= 0x10EFF)
        || (0x10F46 <= cp && cp <= 0x10F50)
        || (0x10F82 <= cp && cp <= 0x10F85)
        || (0x11000 <= cp && cp <= 0x11002)
        || (0x11038 <= cp && cp <= 0x11046)
        || cp == 0x11070
        || (0x11073 <= cp && cp <= 0x11074)
        || (0x1107F <= cp && cp <= 0x11082)
        || (0x110B0 <= cp && cp <= 0x110BA)
        || cp == 0x110C2
        || (0x11100 <= cp && cp <= 0x11102)
        || (0x11127 <= cp && cp <= 0x11134)
        || (0x11145 <= cp && cp <= 0x11146)
        || cp == 0x11173
        || (0x11180 <= cp && cp <= 0x11182)
        || (0x111B3 <= cp && cp <= 0x111C0)
        || (0x111C9 <= cp && cp <= 0x111CC)
        || (0x111CE <= cp && cp <= 0x111CF)
        || (0x1122C <= cp && cp <= 0x11237)
        || cp == 0x1123E
        || cp == 0x11241
        || (0x112DF <= cp && cp <= 0x112EA)
        || (0x11300 <= cp && cp <= 0x11303)
        || (0x1133B <= cp && cp <= 0x1133C)
        || (0x1133E <= cp && cp <= 0x11344)
        || (0x11347 <= cp && cp <= 0x11348)
        || (0x1134B <= cp && cp <= 0x1134D)
        || cp == 0x11357
        || (0x11362 <= cp && cp <= 0x11363)
        || (0x11366 <= cp && cp <= 0x1136C)
        || (0x11370 <= cp && cp <= 0x11374)
        || (0x11435 <= cp && cp <= 0x11446)
        || cp == 0x1145E
        || (0x114B0 <= cp && cp <= 0x114C3)
        || (0x115AF <= cp && cp <= 0x115B5)
        || (0x115B8 <= cp && cp <= 0x115C0)
        || (0x115DC <= cp && cp <= 0x115DD)
        || (0x11630 <= cp && cp <= 0x11640)
        || (0x116AB <= cp && cp <= 0x116B7)
        || (0x1171D <= cp && cp <= 0x1172B)
        || (0x1182C <= cp && cp <= 0x1183A)
        || (0x11930 <= cp && cp <= 0x11935)
        || (0x11937 <= cp && cp <= 0x11938)
        || (0x1193B <= cp && cp <= 0x1193E)
        || cp == 0x11940
        || (0x11942 <= cp && cp <= 0x11943)
        || (0x119D1 <= cp && cp <= 0x119D7)
        || (0x119DA <= cp && cp <= 0x119E0)
        || cp == 0x119E4
        || (0x11A01 <= cp && cp <= 0x11A0A)
        || (0x11A33 <= cp && cp <= 0x11A39)
        || (0x11A3B <= cp && cp <= 0x11A3E)
        || cp == 0x11A47
        || (0x11A51 <= cp && cp <= 0x11A5B)
        || (0x11A8A <= cp && cp <= 0x11A99)
        || (0x11C2F <= cp && cp <= 0x11C36)
        || (0x11C38 <= cp && cp <= 0x11C3F)
        || (0x11C92 <= cp && cp <= 0x11CA7)
        || (0x11CA9 <= cp && cp <= 0x11CB6)
        || (0x11D31 <= cp && cp <= 0x11D36)
        || cp == 0x11D3A
        || (0x11D3C <= cp && cp <= 0x11D3D)
        || (0x11D3F <= cp && cp <= 0x11D45)
        || cp == 0x11D47
        || (0x11D8A <= cp && cp <= 0x11D8E)
        || (0x11D90 <= cp && cp <= 0x11D91)
        || (0x11D93 <= cp && cp <= 0x11D97)
        || (0x11EF3 <= cp && cp <= 0x11EF6)
        || (0x11F00 <= cp && cp <= 0x11F01)
        || cp == 0x11F03
        || (0x11F34 <= cp && cp <= 0x11F3A)
        || (0x11F3E <= cp && cp <= 0x11F42)
        || cp == 0x13440
        || (0x13447 <= cp && cp <= 0x13455)
        || (0x16AF0 <= cp && cp <= 0x16AF4)
        || (0x16B30 <= cp && cp <= 0x16B36)
        || cp == 0x16F4F
        || (0x16F51 <= cp && cp <= 0x16F87)
        || (0x16F8F <= cp && cp <= 0x16F92)
        || cp == 0x16FE4
        || (0x16FF0 <= cp && cp <= 0x16FF1)
        || (0x1BC9D <= cp && cp <= 0x1BC9E)
        || (0x1CF00 <= cp && cp <= 0x1CF2D)
        || (0x1CF30 <= cp && cp <= 0x1CF46)
        || (0x1D165 <= cp && cp <= 0x1D169)
        || (0x1D16D <= cp && cp <= 0x1D172)
        || (0x1D17B <= cp && cp <= 0x1D182)
        || (0x1D185 <= cp && cp <= 0x1D18B)
        || (0x1D1AA <= cp && cp <= 0x1D1AD)
        || (0x1D242 <= cp && cp <= 0x1D244)
        || (0x1DA00 <= cp && cp <= 0x1DA36)
        || (0x1DA3B <= cp && cp <= 0x1DA6C)
        || cp == 0x1DA75
        || cp == 0x1DA84
        || (0x1DA9B <= cp && cp <= 0x1DA9F)
        || (0x1DAA1 <= cp && cp <= 0x1DAAF)
        || (0x1E000 <= cp && cp <= 0x1E006)
        || (0x1E008 <= cp && cp <= 0x1E018)
        || (0x1E01B <= cp && cp <= 0x1E021)
        || (0x1E023 <= cp && cp <= 0x1E024)
        || (0x1E026 <= cp && cp <= 0x1E02A)
        || cp == 0x1E08F
        || (0x1E130 <= cp && cp <= 0x1E136)
        || cp == 0x1E2AE
        || (0x1E2EC <= cp && cp <= 0x1E2EF)
        || (0x1E4EC <= cp && cp <= 0x1E4EF)
        || (0x1E8D0 <= cp && cp <= 0x1E8D6)
        || (0x1E944 <= cp && cp <= 0x1E94A)
        || (0xE0100 <= cp && cp <= 0xE01EF)
}

/// The table of all Unicode combining characters, meaning all characters
/// under the Unicode "Mark" (M) category.
#[verifier::rlimit(50)]
pub fn unicode_mark_category(c: char) -> (r: bool)
    ensures
        r == is_mark(c),
{
    let cp = c as u32;
    (0x300 <= cp && cp <= 0x36F)
        || (0x483 <= cp && cp <= 0x489)
        || (0x591 <= cp && cp <= 0x5BD)
        || cp == 0x5BF
        || (0x5C1 <= cp && cp <= 0x5C2)
        || (0x5C4 <= cp && cp <= 0x5C5)
        || cp == 0x5C7
        || (0x610 <= cp && cp <= 0x61A)
        || (0x64B <= cp && cp <= 0x65F)
        || cp == 0x670
        || (0x6D6 <= cp && cp <= 0x6DC)
        || (0x6DF <= cp && cp <= 0x6E4)
        || (0x6E7 <= cp && cp <= 0x6E8)
        || (0x6EA <= cp && cp <= 0x6ED)
        || cp == 0x711
        || (0x730 <= cp && cp <= 0x74A)
        || (0x7A6 <= cp && cp <= 0x7B0)
        || (0x7EB <= cp && cp <= 0x7F3)
        || cp == 0x7FD
        || (0x816 <= cp && cp <= 0x819)
        || (0x81B <= cp && cp <= 0x823)
        || (0x825 <= cp && cp <= 0x827)
        || (0x829 <= cp && cp <= 0x82D)
        || (0x859 <= cp && cp <= 0x85B)
        || (0x898 <= cp && cp <= 0x89F)
        || (0x8CA <= cp && cp <= 0x8E1)
        || (0x8E3 <= cp && cp <= 0x903)
        || (0x93A <= cp && cp <= 0x93C)
        || (0x93E <= cp && cp <= 0x94F)
        || (0x951 <= cp && cp <= 0x957)
        || (0x962 <= cp && cp <= 0x963)
        || (0x981 <= cp && cp <= 0x983)
        || cp == 0x9BC
        || (0x9BE <= cp && cp <= 0x9C4)
        || (0x9C7 <= cp && cp <= 0x9C8)
        || (0x9CB <= cp && cp <= 0x9CD)
        || cp == 0x9D7
        || (0x9E2 <= cp && cp <= 0x9E3)
        || cp == 0x9FE
        || (0xA01 <= cp && cp <= 0xA03)
        || cp == 0xA3C
        || (0xA3E <= cp && cp <= 0xA42)
        || (0xA47 <= cp && cp <= 0xA48)
        || (0xA4B <= cp && cp <= 0xA4D)
        || cp == 0xA51
        || (0xA70 <= cp && cp <= 0xA71)
        || cp == 0xA75
        || (0xA81 <= cp && cp <= 0xA83)
        || cp == 0xABC
        || (0xABE <= cp && cp <= 0xAC5)
        || (0xAC7 <= cp && cp <= 0xAC9)
        || (0xACB <= cp && cp <= 0xACD)
        || (0xAE2 <= cp && cp <= 0xAE3)
        || (0xAFA <= cp && cp <= 0xAFF)
        || (0xB01 <= cp && cp <= 0xB03)
        || cp == 0xB3C
        || (0xB3E <= cp && cp <= 0xB44)
        || (0xB47 <= cp && cp <= 0xB48)
        || (0xB4B <= cp && cp <= 0xB4D)
        || (0xB55 <= cp && cp <= 0xB57)
        || (0xB62 <= cp && cp <= 0xB63)
        || cp == 0xB82
        || (0xBBE <= cp && cp <= 0xBC2)
        || (0xBC6 <= cp && cp <= 0xBC8)
        || (0xBCA <= cp && cp <= 0xBCD)
        || cp == 0xBD7
        || (0xC00 <= cp && cp <= 0xC04)
        || cp == 0xC3C
        || (0xC3E <= cp && cp <= 0xC44)
        || (0xC46 <= cp && cp <= 0xC48)
        || (0xC4A <= cp && cp <= 0xC4D)
        || (0xC55 <= cp && cp <= 0xC56)
        || (0xC62 <= cp && cp <= 0xC63)
        || (0xC81 <= cp && cp <= 0xC83)
        || cp == 0xCBC
        || (0xCBE <= cp && cp <= 0xCC4)
        || (0xCC6 <= cp && cp <= 0xCC8)
        || (0xCCA <= cp && cp <= 0xCCD)
        || (0xCD5 <= cp && cp <= 0xCD6)
        || (0xCE2 <= cp && cp <= 0xCE3)
        || cp == 0xCF3
        || (0xD00 <= cp && cp <= 0xD03)
        || (0xD3B <= cp && cp <= 0xD3C)
        || (0xD3E <= cp && cp <= 0xD44)
        || (0xD46 <= cp && cp <= 0xD48)
        || (0xD4A <= cp && cp <= 0xD4D)
        || cp == 0xD57
        || (0xD62 <= cp && cp <= 0xD63)
        || (0xD81 <= cp && cp <= 0xD83)
        || cp == 0xDCA
        || (0xDCF <= cp && cp <= 0xDD4)
        || cp == 0xDD6
        || (0xDD8 <= cp && cp <= 0xDDF)
        || (0xDF2 <= cp && cp <= 0xDF3)
        || cp == 0xE31
        || (0xE34 <= cp && cp <= 0xE3A)
        || (0xE47 <= cp && cp <= 0xE4E)
        || cp == 0xEB1
        || (0xEB4 <= cp && cp <= 0xEBC)
        || (0xEC8 <= cp && cp <= 0xECE)
        || (0xF18 <= cp && cp <= 0xF19)
        || cp == 0xF35
        || cp == 0xF37
        || cp == 0xF39
        || (0xF3E <= cp && cp <= 0xF3F)
        || (0xF71 <= cp && cp <= 0xF84)
        || (0xF86 <= cp && cp <= 0xF87)
        || (0xF8D <= cp && cp <= 0xF97)
        || (0xF99 <= cp && cp <= 0xFBC)
        || cp == 0xFC6
        || (0x102B <= cp && cp <= 0x103E)
        || (0x1056 <= cp && cp <= 0x1059)
        || (0x105E <= cp && cp <= 0x1060)
        || (0x1062 <= cp && cp <= 0x1064)
        || (0x1067 <= cp && cp <= 0x106D)
        || (0x1071 <= cp && cp <= 0x1074)
        || (0x1082 <= cp && cp <= 0x108D)
        || cp == 0x108F
        || (0x109A <= cp && cp <= 0x109D)
        || (0x135D <= cp && cp <= 0x135F)
        || (0x1712 <= cp && cp <= 0x1715)
        || (0x1732 <= cp && cp <= 0x1734)
        || (0x1752 <= cp && cp <= 0x1753)
        || (0x1772 <= cp && cp <= 0x1773)
        || (0x17B4 <= cp && cp <= 0x17D3)
        || cp == 0x17DD
        || (0x180B <= cp && cp <= 0x180D)
        || cp == 0x180F
        || (0x1885 <= cp && cp <= 0x1886)
        || cp == 0x18A9
        || (0x1920 <= cp && cp <= 0x192B)
        || (0x1930 <= cp && cp <= 0x193B)
        || (0x1A17 <= cp && cp <= 0x1A1B)
        || (0x1A55 <= cp && cp <= 0x1A5E)
        || (0x1A60 <= cp && cp <= 0x1A7C)
        || cp == 0x1A7F
        || (0x1AB0 <= cp && cp <= 0x1ACE)
        || (0x1B00 <= cp && cp <= 0x1B04)
        || (0x1B34 <= cp && cp <= 0x1B44)
        || (0x1B6B <= cp && cp <= 0x1B73)
        || (0x1B80 <= cp && cp <= 0x1B82)
        || (0x1BA1 <= cp && cp <= 0x1BAD)
        || (0x1BE6 <= cp && cp <= 0x1BF3)
        || (0x1C24 <= cp && cp <= 0x1C37)
        || (0x1CD0 <= cp && cp <= 0x1CD2)
        || (0x1CD4 <= cp && cp <= 0x1CE8)
        || cp == 0x1CED
        || cp == 0x1CF4
        || (0x1CF7 <= cp && cp <= 0x1CF9)
        || (0x1DC0 <= cp && cp <= 0x1DFF)
        || (0x20D0 <= cp && cp <= 0x20F0)
        || (0x2CEF <= cp && cp <= 0x2CF1)
        || cp == 0x2D7F
        || (0x2DE0 <= cp && cp <= 0x2DFF)
        || (0x302A <= cp && cp <= 0x302F)
        || (0x3099 <= cp && cp <= 0x309A)
        || (0xA66F <= cp && cp <= 0xA672)
        || (0xA674 <= cp && cp <= 0xA67D)
        || (0xA69E <= cp && cp <= 0xA69F)
        || (0xA6F0 <= cp && cp <= 0xA6F1)
        || cp == 0xA802
        || cp == 0xA806
        || cp == 0xA80B
        || (0xA823 <= cp && cp <= 0xA827)
        || cp == 0xA82C
        || (0xA880 <= cp && cp <= 0xA881)
        || (0xA8B4 <= cp && cp <= 0xA8C5)
        || (0xA8E0 <= cp && cp <= 0xA8F1)
        || cp == 0xA8FF
        || (0xA926 <= cp && cp <= 0xA92D)
        || (0xA947 <= cp && cp <= 0xA953)
        || (0xA980 <= cp && cp <= 0xA983)
        || (0xA9B3 <= cp && cp <= 0xA9C0)
        || cp == 0xA9E5
        || (0xAA29 <= cp && cp <= 0xAA36)
        || cp == 0xAA43
        || (0xAA4C <= cp && cp <= 0xAA4D)
        || (0xAA7B <= cp && cp <= 0xAA7D)
        || cp == 0xAAB0
        || (0xAAB2 <= cp && cp <= 0xAAB4)
        || (0xAAB7 <= cp && cp <= 0xAAB8)
        || (0xAABE <= cp && cp <= 0xAABF)
        || cp == 0xAAC1
        || (0xAAEB <= cp && cp <= 0xAAEF)
        || (0xAAF5 <= cp && cp <= 0xAAF6)
        || (0xABE3 <= cp && cp <= 0xABEA)
        || (0xABEC <= cp && cp <= 0xABED)
        || cp == 0xFB1E
        || (0xFE00 <= cp && cp <= 0xFE0F)
        || (0xFE20 <= cp && cp <= 0xFE2F)
        || cp == 0x101FD
        || cp == 0x102E0
        || (0x10376 <= cp && cp <= 0x1037A)
        || (0x10A01 <= cp && cp <= 0x10A03)
        || (0x10A05 <= cp && cp <= 0x10A06)
        || (0x10A0C <= cp && cp <= 0x10A0F)
        || (0x10A38 <= cp && cp <= 0x10A3A)
        || cp == 0x10A3F
        || (0x10AE5 <= cp && cp <= 0x10AE6)
        || (0x10D24 <= cp && cp <= 0x10D27)
        || (0x10EAB <= cp && cp <= 0x10EAC)
        || (0x10EFD <= cp && cp <= 0x10EFF)
        || (0x10F46 <= cp && cp <= 0x10F50)
        || (0x10F82 <= cp && cp <= 0x10F85)
        || (0x11000 <= cp && cp <= 0x11002)
        || (0x11038 <= cp && cp <= 0x11046)
        || cp == 0x11070
        || (0x11073 <= cp && cp <= 0x11074)
        || (0x1107F <= cp && cp <= 0x11082)
        || (0x110B0 <= cp && cp <= 0x110BA)
        || cp == 0x110C2
        || (0x11100 <= cp && cp <= 0x11102)
        || (0x11127 <= cp && cp <= 0x11134)
        || (0x11145 <= cp && cp <= 0x11146)
        || cp == 0x11173
        || (0x11180 <= cp && cp <= 0x11182)
        || (0x111B3 <= cp && cp <= 0x111C0)
        || (0x111C9 <= cp && cp <= 0x111CC)
        || (0x111CE <= cp && cp <= 0x111CF)
        || (0x1122C <= cp && cp <= 0x11237)
        || cp == 0x1123E
        || cp == 0x11241
        || (0x112DF <= cp && cp <= 0x112EA)
        || (0x11300 <= cp && cp <= 0x11303)
        || (0x1133B <= cp && cp <= 0x1133C)
        || (0x1133E <= cp && cp <= 0x11344)
        || (0x11347 <= cp && cp <= 0x11348)
        || (0x1134B <= cp && cp <= 0x1134D)
        || cp == 0x11357
        || (0x11362 <= cp && cp <= 0x11363)
        || (0x11366 <= cp && cp <= 0x1136C)
        || (0x11370 <= cp && cp <= 0x11374)
        || (0x11435 <= cp && cp <= 0x11446)
        || cp == 0x1145E
        || (0x114B0 <= cp && cp <= 0x114C3)
        || (0x115AF <= cp && cp <= 0x115B5)
        || (0x115B8 <= cp && cp <= 0x115C0)
        || (0x115DC <= cp && cp <= 0x115DD)
        || (0x11630 <= cp && cp <= 0x11640)
        || (0x116AB <= cp && cp <= 0x116B7)
        || (0x1171D <= cp && cp <= 0x1172B)
        || (0x1182C <= cp && cp <= 0x1183A)
        || (0x11930 <= cp && cp <= 0x11935)
        || (0x11937 <= cp && cp <= 0x11938)
        || (0x1193B <= cp && cp <= 0x1193E)
        || cp == 0x11940
        || (0x11942 <= cp && cp <= 0x11943)
        || (0x119D1 <= cp && cp <= 0x119D7)
        || (0x119DA <= cp && cp <= 0x119E0)
        || cp == 0x119E4
        || (0x11A01 <= cp && cp <= 0x11A0A)
        || (0x11A33 <= cp && cp <= 0x11A39)
        || (0x11A3B <= cp && cp <= 0x11A3E)
        || cp == 0x11A47
        || (0x11A51 <= cp && cp <= 0x11A5B)
        || (0x11A8A <= cp && cp <= 0x11A99)
        || (0x11C2F <= cp && cp <= 0x11C36)
        || (0x11C38 <= cp && cp <= 0x11C3F)
        || (0x11C92 <= cp && cp <= 0x11CA7)
        || (0x11CA9 <= cp && cp <= 0x11CB6)
        || (0x11D31 <= cp && cp <= 0x11D36)
        || cp == 0x11D3A
        || (0x11D3C <= cp && cp <= 0x11D3D)
        || (0x11D3F <= cp && cp <= 0x11D45)
        || cp == 0x11D47
        || (0x11D8A <= cp && cp <= 0x11D8E)
        || (0x11D90 <= cp && cp <= 0x11D91)
        || (0x11D93 <= cp && cp <= 0x11D97)
        || (0x11EF3 <= cp && cp <= 0x11EF6)
        || (0x11F00 <= cp && cp <= 0x11F01)
        || cp == 0x11F03
        || (0x11F34 <= cp && cp <= 0x11F3A)
        || (0x11F3E <= cp && cp <= 0x11F42)
        || cp == 0x13440
        || (0x13447 <= cp && cp <= 0x13455)
        || (0x16AF0 <= cp && cp <= 0x16AF4)
        || (0x16B30 <= cp && cp <= 0x16B36)
        || cp == 0x16F4F
        || (0x16F51 <= cp && cp <= 0x16F87)
        || (0x16F8F <= cp && cp <= 0x16F92)
        || cp == 0x16FE4
        || (0x16FF0 <= cp && cp <= 0x16FF1)
        || (0x1BC9D <= cp && cp <= 0x1BC9E)
        || (0x1CF00 <= cp && cp <= 0x1CF2D)
        || (0x1CF30 <= cp && cp <= 0x1CF46)
        || (0x1D165 <= cp && cp <= 0x1D169)
        || (0x1D16D <= cp && cp <= 0x1D172)
        || (0x1D17B <= cp && cp <= 0x1D182)
        || (0x1D185 <= cp && cp <= 0x1D18B)
        || (0x1D1AA <= cp && cp <= 0x1D1AD)
        || (0x1D242 <= cp && cp <= 0x1D244)
        || (0x1DA00 <= cp && cp <= 0x1DA36)
        || (0x1DA3B <= cp && cp <= 0x1DA6C)
        || cp == 0x1DA75
        || cp == 0x1DA84
        || (0x1DA9B <= cp && cp <= 0x1DA9F)
        || (0x1DAA1 <= cp && cp <= 0x1DAAF)
        || (0x1E000 <= cp && cp <= 0x1E006)
        || (0x1E008 <= cp && cp <= 0x1E018)
        || (0x1E01B <= cp && cp <= 0x1E021)
        || (0x1E023 <= cp && cp <= 0x1E024)
        || (0x1E026 <= cp && cp <= 0x1E02A)
        || cp == 0x1E08F
        || (0x1E130 <= cp && cp <= 0x1E136)
        || cp == 0x1E2AE
        || (0x1E2EC <= cp && cp <= 0x1E2EF)
        || (0x1E4EC <= cp && cp <= 0x1E4EF)
        || (0x1E8D0 <= cp && cp <= 0x1E8D6)
        || (0x1E944 <= cp && cp <= 0x1E94A)
        || (0xE0100 <= cp && cp <= 0xE01EF)
}

} // verus!
