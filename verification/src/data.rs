//! Compiled-in contents of the two large range tables.
//!
//! The entry lists are stated once as specification sequences, in parts,
//! and once as executable builders; each builder is proved to produce
//! exactly its specification sequence, well formed.
use vstd::prelude::*;
use crate::range_table::{FoldEntry, FoldTable, RangeTable};
use crate::unicode::char_from_u32;

verus! {

/// A fold entry mapping a key to a single character.
pub open spec fn fe1(key: u32, r0: char) -> FoldEntry {
    FoldEntry { key, count: 1, r0, r1: '\u{0}', r2: '\u{0}', r3: '\u{0}' }
}

/// A fold entry mapping a key to two characters.
pub open spec fn fe2(key: u32, r0: char, r1: char) -> FoldEntry {
    FoldEntry { key, count: 2, r0, r1, r2: '\u{0}', r3: '\u{0}' }
}

/// A fold entry mapping a key to three characters.
pub open spec fn fe3(key: u32, r0: char, r1: char, r2: char) -> FoldEntry {
    FoldEntry { key, count: 3, r0, r1, r2, r3: '\u{0}' }
}

/// A fold entry mapping a key to four characters.
pub open spec fn fe4(key: u32, r0: char, r1: char, r2: char, r3: char) -> FoldEntry {
    FoldEntry { key, count: 4, r0, r1, r2, r3 }
}

/// A run of consecutive single-character fold entries: key `start + k`
/// maps to the character `start + delta + k`, for `k` below `n`.
pub open spec fn fold_run(start: int, delta: int, n: nat) -> Seq<FoldEntry> {
    Seq::new(n, |k: int| fe1((start + k) as u32, ((start + delta + k) as char)))
}

/// A run over every second code point: key `start + 2k` maps to the
/// character one past it, for `k` below `n`.
pub open spec fn fold_run2(start: int, n: nat) -> Seq<FoldEntry> {
    Seq::new(n, |k: int| fe1((start + 2 * k) as u32, ((start + 2 * k + 1) as char)))
}

/// A run of two-character fold entries: key `start + k` maps to the
/// character `base + k` followed by a combining iota, for `k` below `n`.
pub open spec fn fold_run_iota(start: int, base: int, n: nat) -> Seq<FoldEntry> {
    Seq::new(n, |k: int| fe2((start + k) as u32, ((base + k) as char), '\u{03B9}'))
}

/// A.1 Unassigned code points, part 0.
pub open spec fn unassigned_part0() -> Seq<(u32, u32)> {
    seq![
        (0x221u32, 0x221u32),
        (0x234u32, 0x24Fu32),
        (0x2AEu32, 0x2AFu32),
        (0x2EFu32, 0x2FFu32),
        (0x350u32, 0x35Fu32),
        (0x370u32, 0x373u32),
        (0x376u32, 0x379u32),
        (0x37Bu32, 0x37Du32),
        (0x37Fu32, 0x383u32),
        (0x38Bu32, 0x38Bu32),
        (0x38Du32, 0x38Du32),
        (0x3A2u32, 0x3A2u32),
        (0x3CFu32, 0x3CFu32),
        (0x3F7u32, 0x3FFu32),
        (0x487u32, 0x487u32),
    ]
}

/// A.1 Unassigned code points, part 1.
pub open spec fn unassigned_part1() -> Seq<(u32, u32)> {
    seq![
        (0x4CFu32, 0x4CFu32),
        (0x4F6u32, 0x4F7u32),
        (0x4FAu32, 0x4FFu32),
        (0x510u32, 0x530u32),
        (0x557u32, 0x558u32),
        (0x560u32, 0x560u32),
        (0x588u32, 0x588u32),
        (0x58Bu32, 0x590u32),
        (0x5A2u32, 0x5A2u32),
        (0x5BAu32, 0x5BAu32),
        (0x5C5u32, 0x5CFu32),
        (0x5EBu32, 0x5EFu32),
        (0x5F5u32, 0x60Bu32),
        (0x60Du32, 0x61Au32),
        (0x61Cu32, 0x61Eu32),
    ]
}

/// A.1 Unassigned code points, part 2.
pub open spec fn unassigned_part2() -> Seq<(u32, u32)> {
    seq![
        (0x620u32, 0x620u32),
        (0x63Bu32, 0x63Fu32),
        (0x656u32, 0x65Fu32),
        (0x6EEu32, 0x6EFu32),
        (0x6FFu32, 0x6FFu32),
        (0x70Eu32, 0x70Eu32),
        (0x72Du32, 0x72Fu32),
        (0x74Bu32, 0x77Fu32),
        (0x7B2u32, 0x900u32),
        (0x904u32, 0x904u32),
        (0x93Au32, 0x93Bu32),
        (0x94Eu32, 0x94Fu32),
        (0x955u32, 0x957u32),
        (0x971u32, 0x980u32),
        (0x984u32, 0x984u32),
    ]
}

/// A.1 Unassigned code points, part 3.
pub open spec fn unassigned_part3() -> Seq<(u32, u32)> {
    seq![
        (0x98Du32, 0x98Eu32),
        (0x991u32, 0x992u32),
        (0x9A9u32, 0x9A9u32),
        (0x9B1u32, 0x9B1u32),
        (0x9B3u32, 0x9B5u32),
        (0x9BAu32, 0x9BBu32),
        (0x9BDu32, 0x9BDu32),
        (0x9C5u32, 0x9C6u32),
        (0x9C9u32, 0x9CAu32),
        (0x9CEu32, 0x9D6u32),
        (0x9D8u32, 0x9DBu32),
        (0x9DEu32, 0x9DEu32),
        (0x9E4u32, 0x9E5u32),
        (0x9FBu32, 0xA01u32),
        (0xA03u32, 0xA04u32),
    ]
}

/// A.1 Unassigned code points, part 4.
pub open spec fn unassigned_part4() -> Seq<(u32, u32)> {
    seq![
        (0xA0Bu32, 0xA0Eu32),
        (0xA11u32, 0xA12u32),
        (0xA29u32, 0xA29u32),
        (0xA31u32, 0xA31u32),
        (0xA34u32, 0xA34u32),
        (0xA37u32, 0xA37u32),
        (0xA3Au32, 0xA3Bu32),
        (0xA3Du32, 0xA3Du32),
        (0xA43u32, 0xA46u32),
        (0xA49u32, 0xA4Au32),
        (0xA4Eu32, 0xA58u32),
        (0xA5Du32, 0xA5Du32),
        (0xA5Fu32, 0xA65u32),
        (0xA75u32, 0xA80u32),
        (0xA84u32, 0xA84u32),
    ]
}

/// A.1 Unassigned code points, part 5.
pub open spec fn unassigned_part5() -> Seq<(u32, u32)> {
    seq![
        (0xA8Cu32, 0xA8Cu32),
        (0xA8Eu32, 0xA8Eu32),
        (0xA92u32, 0xA92u32),
        (0xAA9u32, 0xAA9u32),
        (0xAB1u32, 0xAB1u32),
        (0xAB4u32, 0xAB4u32),
        (0xABAu32, 0xABBu32),
        (0xAC6u32, 0xAC6u32),
        (0xACAu32, 0xACAu32),
        (0xACEu32, 0xACFu32),
        (0xAD1u32, 0xADFu32),
        (0xAE1u32, 0xAE5u32),
        (0xAF0u32, 0xB00u32),
        (0xB04u32, 0xB04u32),
        (0xB0Du32, 0xB0Eu32),
    ]
}

/// A.1 Unassigned code points, part 6.
pub open spec fn unassigned_part6() -> Seq<(u32, u32)> {
    seq![
        (0xB11u32, 0xB12u32),
        (0xB29u32, 0xB29u32),
        (0xB31u32, 0xB31u32),
        (0xB34u32, 0xB34u32),
        (0xB3Au32, 0xB3Bu32),
        (0xB44u32, 0xB46u32),
        (0xB49u32, 0xB4Au32),
        (0xB4Eu32, 0xB55u32),
        (0xB58u32, 0xB5Bu32),
        (0xB5Eu32, 0xB5Eu32),
        (0xB62u32, 0xB65u32),
        (0xB71u32, 0xB81u32),
        (0xB84u32, 0xB84u32),
        (0xB8Bu32, 0xB8Du32),
        (0xB91u32, 0xB91u32),
    ]
}

/// A.1 Unassigned code points, part 7.
pub open spec fn unassigned_part7() -> Seq<(u32, u32)> {
    seq![
        (0xB96u32, 0xB98u32),
        (0xB9Bu32, 0xB9Bu32),
        (0xB9Du32, 0xB9Du32),
        (0xBA0u32, 0xBA2u32),
        (0xBA5u32, 0xBA7u32),
        (0xBABu32, 0xBADu32),
        (0xBB6u32, 0xBB6u32),
        (0xBBAu32, 0xBBDu32),
        (0xBC3u32, 0xBC5u32),
        (0xBC9u32, 0xBC9u32),
        (0xBCEu32, 0xBD6u32),
        (0xBD8u32, 0xBE6u32),
        (0xBF3u32, 0xC00u32),
        (0xC04u32, 0xC04u32),
        (0xC0Du32, 0xC0Du32),
    ]
}

/// A.1 Unassigned code points, part 8.
pub open spec fn unassigned_part8() -> Seq<(u32, u32)> {
    seq![
        (0xC11u32, 0xC11u32),
        (0xC29u32, 0xC29u32),
        (0xC34u32, 0xC34u32),
        (0xC3Au32, 0xC3Du32),
        (0xC45u32, 0xC45u32),
        (0xC49u32, 0xC49u32),
        (0xC4Eu32, 0xC54u32),
        (0xC57u32, 0xC5Fu32),
        (0xC62u32, 0xC65u32),
        (0xC70u32, 0xC81u32),
        (0xC84u32, 0xC84u32),
        (0xC8Du32, 0xC8Du32),
        (0xC91u32, 0xC91u32),
        (0xCA9u32, 0xCA9u32),
        (0xCB4u32, 0xCB4u32),
    ]
}

/// A.1 Unassigned code points, part 9.
pub open spec fn unassigned_part9() -> Seq<(u32, u32)> {
    seq![
        (0xCBAu32, 0xCBDu32),
        (0xCC5u32, 0xCC5u32),
        (0xCC9u32, 0xCC9u32),
        (0xCCEu32, 0xCD4u32),
        (0xCD7u32, 0xCDDu32),
        (0xCDFu32, 0xCDFu32),
        (0xCE2u32, 0xCE5u32),
        (0xCF0u32, 0xD01u32),
        (0xD04u32, 0xD04u32),
        (0xD0Du32, 0xD0Du32),
        (0xD11u32, 0xD11u32),
        (0xD29u32, 0xD29u32),
        (0xD3Au32, 0xD3Du32),
        (0xD44u32, 0xD45u32),
        (0xD49u32, 0xD49u32),
    ]
}

/// A.1 Unassigned code points, part 10.
pub open spec fn unassigned_part10() -> Seq<(u32, u32)> {
    seq![
        (0xD4Eu32, 0xD56u32),
        (0xD58u32, 0xD5Fu32),
        (0xD62u32, 0xD65u32),
        (0xD70u32, 0xD81u32),
        (0xD84u32, 0xD84u32),
        (0xD97u32, 0xD99u32),
        (0xDB2u32, 0xDB2u32),
        (0xDBCu32, 0xDBCu32),
        (0xDBEu32, 0xDBFu32),
        (0xDC7u32, 0xDC9u32),
        (0xDCBu32, 0xDCEu32),
        (0xDD5u32, 0xDD5u32),
        (0xDD7u32, 0xDD7u32),
        (0xDE0u32, 0xDF1u32),
        (0xDF5u32, 0xE00u32),
    ]
}

/// A.1 Unassigned code points, part 11.
pub open spec fn unassigned_part11() -> Seq<(u32, u32)> {
    seq![
        (0xE3Bu32, 0xE3Eu32),
        (0xE5Cu32, 0xE80u32),
        (0xE83u32, 0xE83u32),
        (0xE85u32, 0xE86u32),
        (0xE89u32, 0xE89u32),
        (0xE8Bu32, 0xE8Cu32),
        (0xE8Eu32, 0xE93u32),
        (0xE98u32, 0xE98u32),
        (0xEA0u32, 0xEA0u32),
        (0xEA4u32, 0xEA4u32),
        (0xEA6u32, 0xEA6u32),
        (0xEA8u32, 0xEA9u32),
        (0xEACu32, 0xEACu32),
        (0xEBAu32, 0xEBAu32),
        (0xEBEu32, 0xEBFu32),
    ]
}

/// A.1 Unassigned code points, part 12.
pub open spec fn unassigned_part12() -> Seq<(u32, u32)> {
    seq![
        (0xEC5u32, 0xEC5u32),
        (0xEC7u32, 0xEC7u32),
        (0xECEu32, 0xECFu32),
        (0xEDAu32, 0xEDBu32),
        (0xEDEu32, 0xEFFu32),
        (0xF48u32, 0xF48u32),
        (0xF6Bu32, 0xF70u32),
        (0xF8Cu32, 0xF8Fu32),
        (0xF98u32, 0xF98u32),
        (0xFBDu32, 0xFBDu32),
        (0xFCDu32, 0xFCEu32),
        (0xFD0u32, 0xFFFu32),
        (0x1022u32, 0x1022u32),
        (0x1028u32, 0x1028u32),
        (0x102Bu32, 0x102Bu32),
    ]
}

/// A.1 Unassigned code points, part 13.
pub open spec fn unassigned_part13() -> Seq<(u32, u32)> {
    seq![
        (0x1033u32, 0x1035u32),
        (0x103Au32, 0x103Fu32),
        (0x105Au32, 0x109Fu32),
        (0x10C6u32, 0x10CFu32),
        (0x10F9u32, 0x10FAu32),
        (0x10FCu32, 0x10FFu32),
        (0x115Au32, 0x115Eu32),
        (0x11A3u32, 0x11A7u32),
        (0x11FAu32, 0x11FFu32),
        (0x1207u32, 0x1207u32),
        (0x1247u32, 0x1247u32),
        (0x1249u32, 0x1249u32),
        (0x124Eu32, 0x124Fu32),
        (0x1257u32, 0x1257u32),
        (0x1259u32, 0x1259u32),
    ]
}

/// A.1 Unassigned code points, part 14.
pub open spec fn unassigned_part14() -> Seq<(u32, u32)> {
    seq![
        (0x125Eu32, 0x125Fu32),
        (0x1287u32, 0x1287u32),
        (0x1289u32, 0x1289u32),
        (0x128Eu32, 0x128Fu32),
        (0x12AFu32, 0x12AFu32),
        (0x12B1u32, 0x12B1u32),
        (0x12B6u32, 0x12B7u32),
        (0x12BFu32, 0x12BFu32),
        (0x12C1u32, 0x12C1u32),
        (0x12C6u32, 0x12C7u32),
        (0x12CFu32, 0x12CFu32),
        (0x12D7u32, 0x12D7u32),
        (0x12EFu32, 0x12EFu32),
        (0x130Fu32, 0x130Fu32),
        (0x1311u32, 0x1311u32),
    ]
}

/// A.1 Unassigned code points, part 15.
pub open spec fn unassigned_part15() -> Seq<(u32, u32)> {
    seq![
        (0x1316u32, 0x1317u32),
        (0x131Fu32, 0x131Fu32),
        (0x1347u32, 0x1347u32),
        (0x135Bu32, 0x1360u32),
        (0x137Du32, 0x139Fu32),
        (0x13F5u32, 0x1400u32),
        (0x1677u32, 0x167Fu32),
        (0x169Du32, 0x169Fu32),
        (0x16F1u32, 0x16FFu32),
        (0x170Du32, 0x170Du32),
        (0x1715u32, 0x171Fu32),
        (0x1737u32, 0x173Fu32),
        (0x1754u32, 0x175Fu32),
        (0x176Du32, 0x176Du32),
        (0x1771u32, 0x1771u32),
    ]
}

/// A.1 Unassigned code points, part 16.
pub open spec fn unassigned_part16() -> Seq<(u32, u32)> {
    seq![
        (0x1774u32, 0x177Fu32),
        (0x17DCu32, 0x17DFu32),
        (0x17EAu32, 0x17FFu32),
        (0x180Fu32, 0x180Fu32),
        (0x181Au32, 0x181Fu32),
        (0x1878u32, 0x187Fu32),
        (0x18AAu32, 0x1DFFu32),
        (0x1E9Cu32, 0x1E9Fu32),
        (0x1EFAu32, 0x1EFFu32),
        (0x1F16u32, 0x1F17u32),
        (0x1F1Eu32, 0x1F1Fu32),
        (0x1F46u32, 0x1F47u32),
        (0x1F4Eu32, 0x1F4Fu32),
        (0x1F58u32, 0x1F58u32),
        (0x1F5Au32, 0x1F5Au32),
    ]
}

/// A.1 Unassigned code points, part 17.
pub open spec fn unassigned_part17() -> Seq<(u32, u32)> {
    seq![
        (0x1F5Cu32, 0x1F5Cu32),
        (0x1F5Eu32, 0x1F5Eu32),
        (0x1F7Eu32, 0x1F7Fu32),
        (0x1FB5u32, 0x1FB5u32),
        (0x1FC5u32, 0x1FC5u32),
        (0x1FD4u32, 0x1FD5u32),
        (0x1FDCu32, 0x1FDCu32),
        (0x1FF0u32, 0x1FF1u32),
        (0x1FF5u32, 0x1FF5u32),
        (0x1FFFu32, 0x1FFFu32),
        (0x2053u32, 0x2056u32),
        (0x2058u32, 0x205Eu32),
        (0x2064u32, 0x2069u32),
        (0x2072u32, 0x2073u32),
        (0x208Fu32, 0x209Fu32),
    ]
}

/// A.1 Unassigned code points, part 18.
pub open spec fn unassigned_part18() -> Seq<(u32, u32)> {
    seq![
        (0x20B2u32, 0x20CFu32),
        (0x20EBu32, 0x20FFu32),
        (0x213Bu32, 0x213Cu32),
        (0x214Cu32, 0x2152u32),
        (0x2184u32, 0x218Fu32),
        (0x23CFu32, 0x23FFu32),
        (0x2427u32, 0x243Fu32),
        (0x244Bu32, 0x245Fu32),
        (0x24FFu32, 0x24FFu32),
        (0x2614u32, 0x2615u32),
        (0x2618u32, 0x2618u32),
        (0x267Eu32, 0x267Fu32),
        (0x2686u32, 0x2700u32),
        (0x2705u32, 0x2705u32),
        (0x270Au32, 0x270Bu32),
    ]
}

/// A.1 Unassigned code points, part 19.
pub open spec fn unassigned_part19() -> Seq<(u32, u32)> {
    seq![
        (0x2728u32, 0x2728u32),
        (0x274Cu32, 0x274Cu32),
        (0x274Eu32, 0x274Eu32),
        (0x2753u32, 0x2755u32),
        (0x2757u32, 0x2757u32),
        (0x275Fu32, 0x2760u32),
        (0x2795u32, 0x2797u32),
        (0x27B0u32, 0x27B0u32),
        (0x27BFu32, 0x27CFu32),
        (0x27ECu32, 0x27EFu32),
        (0x2B00u32, 0x2E7Fu32),
        (0x2E9Au32, 0x2E9Au32),
        (0x2EF4u32, 0x2EFFu32),
        (0x2FD6u32, 0x2FEFu32),
        (0x2FFCu32, 0x2FFFu32),
    ]
}

/// A.1 Unassigned code points, part 20.
pub open spec fn unassigned_part20() -> Seq<(u32, u32)> {
    seq![
        (0x3040u32, 0x3040u32),
        (0x3097u32, 0x3098u32),
        (0x3100u32, 0x3104u32),
        (0x312Du32, 0x3130u32),
        (0x318Fu32, 0x318Fu32),
        (0x31B8u32, 0x31EFu32),
        (0x321Du32, 0x321Fu32),
        (0x3244u32, 0x3250u32),
        (0x327Cu32, 0x327Eu32),
        (0x32CCu32, 0x32CFu32),
        (0x32FFu32, 0x32FFu32),
        (0x3377u32, 0x337Au32),
        (0x33DEu32, 0x33DFu32),
        (0x33FFu32, 0x33FFu32),
        (0x4DB6u32, 0x4DFFu32),
    ]
}

/// A.1 Unassigned code points, part 21.
pub open spec fn unassigned_part21() -> Seq<(u32, u32)> {
    seq![
        (0x9FA6u32, 0x9FFFu32),
        (0xA48Du32, 0xA48Fu32),
        (0xA4C7u32, 0xABFFu32),
        (0xD7A4u32, 0xD7FFu32),
        (0xFA2Eu32, 0xFA2Fu32),
        (0xFA6Bu32, 0xFAFFu32),
        (0xFB07u32, 0xFB12u32),
        (0xFB18u32, 0xFB1Cu32),
        (0xFB37u32, 0xFB37u32),
        (0xFB3Du32, 0xFB3Du32),
        (0xFB3Fu32, 0xFB3Fu32),
        (0xFB42u32, 0xFB42u32),
        (0xFB45u32, 0xFB45u32),
        (0xFBB2u32, 0xFBD2u32),
        (0xFD40u32, 0xFD4Fu32),
    ]
}

/// A.1 Unassigned code points, part 22.
pub open spec fn unassigned_part22() -> Seq<(u32, u32)> {
    seq![
        (0xFD90u32, 0xFD91u32),
        (0xFDC8u32, 0xFDCFu32),
        (0xFDFDu32, 0xFDFFu32),
        (0xFE10u32, 0xFE1Fu32),
        (0xFE24u32, 0xFE2Fu32),
        (0xFE47u32, 0xFE48u32),
        (0xFE53u32, 0xFE53u32),
        (0xFE67u32, 0xFE67u32),
        (0xFE6Cu32, 0xFE6Fu32),
        (0xFE75u32, 0xFE75u32),
        (0xFEFDu32, 0xFEFEu32),
        (0xFF00u32, 0xFF00u32),
        (0xFFBFu32, 0xFFC1u32),
        (0xFFC8u32, 0xFFC9u32),
        (0xFFD0u32, 0xFFD1u32),
    ]
}

/// A.1 Unassigned code points, part 23.
pub open spec fn unassigned_part23() -> Seq<(u32, u32)> {
    seq![
        (0xFFD8u32, 0xFFD9u32),
        (0xFFDDu32, 0xFFDFu32),
        (0xFFE7u32, 0xFFE7u32),
        (0xFFEFu32, 0xFFF8u32),
        (0x10000u32, 0x102FFu32),
        (0x1031Fu32, 0x1031Fu32),
        (0x10324u32, 0x1032Fu32),
        (0x1034Bu32, 0x103FFu32),
        (0x10426u32, 0x10427u32),
        (0x1044Eu32, 0x1CFFFu32),
        (0x1D0F6u32, 0x1D0FFu32),
        (0x1D127u32, 0x1D129u32),
        (0x1D1DEu32, 0x1D3FFu32),
        (0x1D455u32, 0x1D455u32),
        (0x1D49Du32, 0x1D49Du32),
    ]
}

/// A.1 Unassigned code points, part 24.
pub open spec fn unassigned_part24() -> Seq<(u32, u32)> {
    seq![
        (0x1D4A0u32, 0x1D4A1u32),
        (0x1D4A3u32, 0x1D4A4u32),
        (0x1D4A7u32, 0x1D4A8u32),
        (0x1D4ADu32, 0x1D4ADu32),
        (0x1D4BAu32, 0x1D4BAu32),
        (0x1D4BCu32, 0x1D4BCu32),
        (0x1D4C1u32, 0x1D4C1u32),
        (0x1D4C4u32, 0x1D4C4u32),
        (0x1D506u32, 0x1D506u32),
        (0x1D50Bu32, 0x1D50Cu32),
        (0x1D515u32, 0x1D515u32),
        (0x1D51Du32, 0x1D51Du32),
        (0x1D53Au32, 0x1D53Au32),
        (0x1D53Fu32, 0x1D53Fu32),
        (0x1D545u32, 0x1D545u32),
    ]
}

/// A.1 Unassigned code points, part 25.
pub open spec fn unassigned_part25() -> Seq<(u32, u32)> {
    seq![
        (0x1D547u32, 0x1D549u32),
        (0x1D551u32, 0x1D551u32),
        (0x1D6A4u32, 0x1D6A7u32),
        (0x1D7CAu32, 0x1D7CDu32),
        (0x1D800u32, 0x1FFFDu32),
        (0x2A6D7u32, 0x2F7FFu32),
        (0x2FA1Eu32, 0x2FFFDu32),
        (0x30000u32, 0x3FFFDu32),
        (0x40000u32, 0x4FFFDu32),
        (0x50000u32, 0x5FFFDu32),
        (0x60000u32, 0x6FFFDu32),
        (0x70000u32, 0x7FFFDu32),
        (0x80000u32, 0x8FFFDu32),
        (0x90000u32, 0x9FFFDu32),
        (0xA0000u32, 0xAFFFDu32),
    ]
}

/// A.1 Unassigned code points, part 26.
pub open spec fn unassigned_part26() -> Seq<(u32, u32)> {
    seq![
        (0xB0000u32, 0xBFFFDu32),
        (0xC0000u32, 0xCFFFDu32),
        (0xD0000u32, 0xDFFFDu32),
        (0xE0000u32, 0xE0000u32),
        (0xE0002u32, 0xE001Fu32),
        (0xE0080u32, 0xEFFFDu32),
    ]
}

/// Appends part 0 of the unassigned table.
#[verifier::rlimit(100)]
fn push_unassigned_part0(t: &mut RangeTable)
    requires
        old(t).wf(),
        old(t)@.len() > 0 ==> old(t)@.last().1 < 0x221,
    ensures
        final(t)@ == old(t)@ + unassigned_part0(),
        final(t).wf(),
        final(t)@.last() == (0x487u32, 0x487u32),
{
    t.push_range(0x221, 0x221);
    t.push_range(0x234, 0x24F);
    t.push_range(0x2AE, 0x2AF);
    t.push_range(0x2EF, 0x2FF);
    t.push_range(0x350, 0x35F);
    t.push_range(0x370, 0x373);
    t.push_range(0x376, 0x379);
    t.push_range(0x37B, 0x37D);
    t.push_range(0x37F, 0x383);
    t.push_range(0x38B, 0x38B);
    t.push_range(0x38D, 0x38D);
    t.push_range(0x3A2, 0x3A2);
    t.push_range(0x3CF, 0x3CF);
    t.push_range(0x3F7, 0x3FF);
    t.push_range(0x487, 0x487);
    proof {
        assert(t@ =~= old(t)@ + unassigned_part0());
    }
}

/// Appends part 1 of the unassigned table.
#[verifier::rlimit(100)]
fn push_unassigned_part1(t: &mut RangeTable)
    requires
        old(t).wf(),
        old(t)@.len() > 0 ==> old(t)@.last().1 < 0x4CF,
    ensures
        final(t)@ == old(t)@ + unassigned_part1(),
        final(t).wf(),
        final(t)@.last() == (0x61Cu32, 0x61Eu32),
{
    t.push_range(0x4CF, 0x4CF);
    t.push_range(0x4F6, 0x4F7);
    t.push_range(0x4FA, 0x4FF);
    t.push_range(0x510, 0x530);
    t.push_range(0x557, 0x558);
    t.push_range(0x560, 0x560);
    t.push_range(0x588, 0x588);
    t.push_range(0x58B, 0x590);
    t.push_range(0x5A2, 0x5A2);
    t.push_range(0x5BA, 0x5BA);
    t.push_range(0x5C5, 0x5CF);
    t.push_range(0x5EB, 0x5EF);
    t.push_range(0x5F5, 0x60B);
    t.push_range(0x60D, 0x61A);
    t.push_range(0x61C, 0x61E);
    proof {
        assert(t@ =~= old(t)@ + unassigned_part1());
    }
}

/// Appends part 2 of the unassigned table.
#[verifier::rlimit(100)]
fn push_unassigned_part2(t: &mut RangeTable)
    requires
        old(t).wf(),
        old(t)@.len() > 0 ==> old(t)@.last().1 < 0x620,
    ensures
        final(t)@ == old(t)@ + unassigned_part2(),
        final(t).wf(),
        final(t)@.last() == (0x984u32, 0x984u32),
{
    t.push_range(0x620, 0x620);
    t.push_range(0x63B, 0x63F);
    t.push_range(0x656, 0x65F);
    t.push_range(0x6EE, 0x6EF);
    t.push_range(0x6FF, 0x6FF);
    t.push_range(0x70E, 0x70E);
    t.push_range(0x72D, 0x72F);
    t.push_range(0x74B, 0x77F);
    t.push_range(0x7B2, 0x900);
    t.push_range(0x904, 0x904);
    t.push_range(0x93A, 0x93B);
    t.push_range(0x94E, 0x94F);
    t.push_range(0x955, 0x957);
    t.push_range(0x971, 0x980);
    t.push_range(0x984, 0x984);
    proof {
        assert(t@ =~= old(t)@ + unassigned_part2());
    }
}

/// Appends part 3 of the unassigned table.
#[verifier::rlimit(100)]
fn push_unassigned_part3(t: &mut RangeTable)
    requires
        old(t).wf(),
        old(t)@.len() > 0 ==> old(t)@.last().1 < 0x98D,
    ensures
        final(t)@ == old(t)@ + unassigned_part3(),
        final(t).wf(),
        final(t)@.last() == (0xA03u32, 0xA04u32),
{
    t.push_range(0x98D, 0x98E);
    t.push_range(0x991, 0x992);
    t.push_range(0x9A9, 0x9A9);
    t.push_range(0x9B1, 0x9B1);
    t.push_range(0x9B3, 0x9B5);
    t.push_range(0x9BA, 0x9BB);
    t.push_range(0x9BD, 0x9BD);
    t.push_range(0x9C5, 0x9C6);
    t.push_range(0x9C9, 0x9CA);
    t.push_range(0x9CE, 0x9D6);
    t.push_range(0x9D8, 0x9DB);
    t.push_range(0x9DE, 0x9DE);
    t.push_range(0x9E4, 0x9E5);
    t.push_range(0x9FB, 0xA01);
    t.push_range(0xA03, 0xA04);
    proof {
        assert(t@ =~= old(t)@ + unassigned_part3());
    }
}

/// Appends part 4 of the unassigned table.
#[verifier::rlimit(100)]
fn push_unassigned_part4(t: &mut RangeTable)
    requires
        old(t).wf(),
        old(t)@.len() > 0 ==> old(t)@.last().1 < 0xA0B,
    ensures
        final(t)@ == old(t)@ + unassigned_part4(),
        final(t).wf(),
        final(t)@.last() == (0xA84u32, 0xA84u32),
{
    t.push_range(0xA0B, 0xA0E);
    t.push_range(0xA11, 0xA12);
    t.push_range(0xA29, 0xA29);
    t.push_range(0xA31, 0xA31);
    t.push_range(0xA34, 0xA34);
    t.push_range(0xA37, 0xA37);
    t.push_range(0xA3A, 0xA3B);
    t.push_range(0xA3D, 0xA3D);
    t.push_range(0xA43, 0xA46);
    t.push_range(0xA49, 0xA4A);
    t.push_range(0xA4E, 0xA58);
    t.push_range(0xA5D, 0xA5D);
    t.push_range(0xA5F, 0xA65);
    t.push_range(0xA75, 0xA80);
    t.push_range(0xA84, 0xA84);
    proof {
        assert(t@ =~= old(t)@ + unassigned_part4());
    }
}

/// Appends part 5 of the unassigned table.
#[verifier::rlimit(100)]
fn push_unassigned_part5(t: &mut RangeTable)
    requires
        old(t).wf(),
        old(t)@.len() > 0 ==> old(t)@.last().1 < 0xA8C,
    ensures
        final(t)@ == old(t)@ + unassigned_part5(),
        final(t).wf(),
        final(t)@.last() == (0xB0Du32, 0xB0Eu32),
{
    t.push_range(0xA8C, 0xA8C);
    t.push_range(0xA8E, 0xA8E);
    t.push_range(0xA92, 0xA92);
    t.push_range(0xAA9, 0xAA9);
    t.push_range(0xAB1, 0xAB1);
    t.push_range(0xAB4, 0xAB4);
    t.push_range(0xABA, 0xABB);
    t.push_range(0xAC6, 0xAC6);
    t.push_range(0xACA, 0xACA);
    t.push_range(0xACE, 0xACF);
    t.push_range(0xAD1, 0xADF);
    t.push_range(0xAE1, 0xAE5);
    t.push_range(0xAF0, 0xB00);
    t.push_range(0xB04, 0xB04);
    t.push_range(0xB0D, 0xB0E);
    proof {
        assert(t@ =~= old(t)@ + unassigned_part5());
    }
}

/// Appends part 6 of the unassigned table.
#[verifier::rlimit(100)]
fn push_unassigned_part6(t: &mut RangeTable)
    requires
        old(t).wf(),
        old(t)@.len() > 0 ==> old(t)@.last().1 < 0xB11,
    ensures
        final(t)@ == old(t)@ + unassigned_part6(),
        final(t).wf(),
        final(t)@.last() == (0xB91u32, 0xB91u32),
{
    t.push_range(0xB11, 0xB12);
    t.push_range(0xB29, 0xB29);
    t.push_range(0xB31, 0xB31);
    t.push_range(0xB34, 0xB34);
    t.push_range(0xB3A, 0xB3B);
    t.push_range(0xB44, 0xB46);
    t.push_range(0xB49, 0xB4A);
    t.push_range(0xB4E, 0xB55);
    t.push_range(0xB58, 0xB5B);
    t.push_range(0xB5E, 0xB5E);
    t.push_range(0xB62, 0xB65);
    t.push_range(0xB71, 0xB81);
    t.push_range(0xB84, 0xB84);
    t.push_range(0xB8B, 0xB8D);
    t.push_range(0xB91, 0xB91);
    proof {
        assert(t@ =~= old(t)@ + unassigned_part6());
    }
}

/// Appends part 7 of the unassigned table.
#[verifier::rlimit(100)]
fn push_unassigned_part7(t: &mut RangeTable)
    requires
        old(t).wf(),
        old(t)@.len() > 0 ==> old(t)@.last().1 < 0xB96,
    ensures
        final(t)@ == old(t)@ + unassigned_part7(),
        final(t).wf(),
        final(t)@.last() == (0xC0Du32, 0xC0Du32),
{
    t.push_range(0xB96, 0xB98);
    t.push_range(0xB9B, 0xB9B);
    t.push_range(0xB9D, 0xB9D);
    t.push_range(0xBA0, 0xBA2);
    t.push_range(0xBA5, 0xBA7);
    t.push_range(0xBAB, 0xBAD);
    t.push_range(0xBB6, 0xBB6);
    t.push_range(0xBBA, 0xBBD);
    t.push_range(0xBC3, 0xBC5);
    t.push_range(0xBC9, 0xBC9);
    t.push_range(0xBCE, 0xBD6);
    t.push_range(0xBD8, 0xBE6);
    t.push_range(0xBF3, 0xC00);
    t.push_range(0xC04, 0xC04);
    t.push_range(0xC0D, 0xC0D);
    proof {
        assert(t@ =~= old(t)@ + unassigned_part7());
    }
}

/// Appends part 8 of the unassigned table.
#[verifier::rlimit(100)]
fn push_unassigned_part8(t: &mut RangeTable)
    requires
        old(t).wf(),
        old(t)@.len() > 0 ==> old(t)@.last().1 < 0xC11,
    ensures
        final(t)@ == old(t)@ + unassigned_part8(),
        final(t).wf(),
        final(t)@.last() == (0xCB4u32, 0xCB4u32),
{
    t.push_range(0xC11, 0xC11);
    t.push_range(0xC29, 0xC29);
    t.push_range(0xC34, 0xC34);
    t.push_range(0xC3A, 0xC3D);
    t.push_range(0xC45, 0xC45);
    t.push_range(0xC49, 0xC49);
    t.push_range(0xC4E, 0xC54);
    t.push_range(0xC57, 0xC5F);
    t.push_range(0xC62, 0xC65);
    t.push_range(0xC70, 0xC81);
    t.push_range(0xC84, 0xC84);
    t.push_range(0xC8D, 0xC8D);
    t.push_range(0xC91, 0xC91);
    t.push_range(0xCA9, 0xCA9);
    t.push_range(0xCB4, 0xCB4);
    proof {
        assert(t@ =~= old(t)@ + unassigned_part8());
    }
}

/// Appends part 9 of the unassigned table.
#[verifier::rlimit(100)]
fn push_unassigned_part9(t: &mut RangeTable)
    requires
        old(t).wf(),
        old(t)@.len() > 0 ==> old(t)@.last().1 < 0xCBA,
    ensures
        final(t)@ == old(t)@ + unassigned_part9(),
        final(t).wf(),
        final(t)@.last() == (0xD49u32, 0xD49u32),
{
    t.push_range(0xCBA, 0xCBD);
    t.push_range(0xCC5, 0xCC5);
    t.push_range(0xCC9, 0xCC9);
    t.push_range(0xCCE, 0xCD4);
    t.push_range(0xCD7, 0xCDD);
    t.push_range(0xCDF, 0xCDF);
    t.push_range(0xCE2, 0xCE5);
    t.push_range(0xCF0, 0xD01);
    t.push_range(0xD04, 0xD04);
    t.push_range(0xD0D, 0xD0D);
    t.push_range(0xD11, 0xD11);
    t.push_range(0xD29, 0xD29);
    t.push_range(0xD3A, 0xD3D);
    t.push_range(0xD44, 0xD45);
    t.push_range(0xD49, 0xD49);
    proof {
        assert(t@ =~= old(t)@ + unassigned_part9());
    }
}

/// Appends part 10 of the unassigned table.
#[verifier::rlimit(100)]
fn push_unassigned_part10(t: &mut RangeTable)
    requires
        old(t).wf(),
        old(t)@.len() > 0 ==> old(t)@.last().1 < 0xD4E,
    ensures
        final(t)@ == old(t)@ + unassigned_part10(),
        final(t).wf(),
        final(t)@.last() == (0xDF5u32, 0xE00u32),
{
    t.push_range(0xD4E, 0xD56);
    t.push_range(0xD58, 0xD5F);
    t.push_range(0xD62, 0xD65);
    t.push_range(0xD70, 0xD81);
    t.push_range(0xD84, 0xD84);
    t.push_range(0xD97, 0xD99);
    t.push_range(0xDB2, 0xDB2);
    t.push_range(0xDBC, 0xDBC);
    t.push_range(0xDBE, 0xDBF);
    t.push_range(0xDC7, 0xDC9);
    t.push_range(0xDCB, 0xDCE);
    t.push_range(0xDD5, 0xDD5);
    t.push_range(0xDD7, 0xDD7);
    t.push_range(0xDE0, 0xDF1);
    t.push_range(0xDF5, 0xE00);
    proof {
        assert(t@ =~= old(t)@ + unassigned_part10());
    }
}

/// Appends part 11 of the unassigned table.
#[verifier::rlimit(100)]
fn push_unassigned_part11(t: &mut RangeTable)
    requires
        old(t).wf(),
        old(t)@.len() > 0 ==> old(t)@.last().1 < 0xE3B,
    ensures
        final(t)@ == old(t)@ + unassigned_part11(),
        final(t).wf(),
        final(t)@.last() == (0xEBEu32, 0xEBFu32),
{
    t.push_range(0xE3B, 0xE3E);
    t.push_range(0xE5C, 0xE80);
    t.push_range(0xE83, 0xE83);
    t.push_range(0xE85, 0xE86);
    t.push_range(0xE89, 0xE89);
    t.push_range(0xE8B, 0xE8C);
    t.push_range(0xE8E, 0xE93);
    t.push_range(0xE98, 0xE98);
    t.push_range(0xEA0, 0xEA0);
    t.push_range(0xEA4, 0xEA4);
    t.push_range(0xEA6, 0xEA6);
    t.push_range(0xEA8, 0xEA9);
    t.push_range(0xEAC, 0xEAC);
    t.push_range(0xEBA, 0xEBA);
    t.push_range(0xEBE, 0xEBF);
    proof {
        assert(t@ =~= old(t)@ + unassigned_part11());
    }
}

/// Appends part 12 of the unassigned table.
#[verifier::rlimit(100)]
fn push_unassigned_part12(t: &mut RangeTable)
    requires
        old(t).wf(),
        old(t)@.len() > 0 ==> old(t)@.last().1 < 0xEC5,
    ensures
        final(t)@ == old(t)@ + unassigned_part12(),
        final(t).wf(),
        final(t)@.last() == (0x102Bu32, 0x102Bu32),
{
    t.push_range(0xEC5, 0xEC5);
    t.push_range(0xEC7, 0xEC7);
    t.push_range(0xECE, 0xECF);
    t.push_range(0xEDA, 0xEDB);
    t.push_range(0xEDE, 0xEFF);
    t.push_range(0xF48, 0xF48);
    t.push_range(0xF6B, 0xF70);
    t.push_range(0xF8C, 0xF8F);
    t.push_range(0xF98, 0xF98);
    t.push_range(0xFBD, 0xFBD);
    t.push_range(0xFCD, 0xFCE);
    t.push_range(0xFD0, 0xFFF);
    t.push_range(0x1022, 0x1022);
    t.push_range(0x1028, 0x1028);
    t.push_range(0x102B, 0x102B);
    proof {
        assert(t@ =~= old(t)@ + unassigned_part12());
    }
}

/// Appends part 13 of the unassigned table.
#[verifier::rlimit(100)]
fn push_unassigned_part13(t: &mut RangeTable)
    requires
        old(t).wf(),
        old(t)@.len() > 0 ==> old(t)@.last().1 < 0x1033,
    ensures
        final(t)@ == old(t)@ + unassigned_part13(),
        final(t).wf(),
        final(t)@.last() == (0x1259u32, 0x1259u32),
{
    t.push_range(0x1033, 0x1035);
    t.push_range(0x103A, 0x103F);
    t.push_range(0x105A, 0x109F);
    t.push_range(0x10C6, 0x10CF);
    t.push_range(0x10F9, 0x10FA);
    t.push_range(0x10FC, 0x10FF);
    t.push_range(0x115A, 0x115E);
    t.push_range(0x11A3, 0x11A7);
    t.push_range(0x11FA, 0x11FF);
    t.push_range(0x1207, 0x1207);
    t.push_range(0x1247, 0x1247);
    t.push_range(0x1249, 0x1249);
    t.push_range(0x124E, 0x124F);
    t.push_range(0x1257, 0x1257);
    t.push_range(0x1259, 0x1259);
    proof {
        assert(t@ =~= old(t)@ + unassigned_part13());
    }
}

/// Appends part 14 of the unassigned table.
#[verifier::rlimit(100)]
fn push_unassigned_part14(t: &mut RangeTable)
    requires
        old(t).wf(),
        old(t)@.len() > 0 ==> old(t)@.last().1 < 0x125E,
    ensures
        final(t)@ == old(t)@ + unassigned_part14(),
        final(t).wf(),
        final(t)@.last() == (0x1311u32, 0x1311u32),
{
    t.push_range(0x125E, 0x125F);
    t.push_range(0x1287, 0x1287);
    t.push_range(0x1289, 0x1289);
    t.push_range(0x128E, 0x128F);
    t.push_range(0x12AF, 0x12AF);
    t.push_range(0x12B1, 0x12B1);
    t.push_range(0x12B6, 0x12B7);
    t.push_range(0x12BF, 0x12BF);
    t.push_range(0x12C1, 0x12C1);
    t.push_range(0x12C6, 0x12C7);
    t.push_range(0x12CF, 0x12CF);
    t.push_range(0x12D7, 0x12D7);
    t.push_range(0x12EF, 0x12EF);
    t.push_range(0x130F, 0x130F);
    t.push_range(0x1311, 0x1311);
    proof {
        assert(t@ =~= old(t)@ + unassigned_part14());
    }
}

/// Appends part 15 of the unassigned table.
#[verifier::rlimit(100)]
fn push_unassigned_part15(t: &mut RangeTable)
    requires
        old(t).wf(),
        old(t)@.len() > 0 ==> old(t)@.last().1 < 0x1316,
    ensures
        final(t)@ == old(t)@ + unassigned_part15(),
        final(t).wf(),
        final(t)@.last() == (0x1771u32, 0x1771u32),
{
    t.push_range(0x1316, 0x1317);
    t.push_range(0x131F, 0x131F);
    t.push_range(0x1347, 0x1347);
    t.push_range(0x135B, 0x1360);
    t.push_range(0x137D, 0x139F);
    t.push_range(0x13F5, 0x1400);
    t.push_range(0x1677, 0x167F);
    t.push_range(0x169D, 0x169F);
    t.push_range(0x16F1, 0x16FF);
    t.push_range(0x170D, 0x170D);
    t.push_range(0x1715, 0x171F);
    t.push_range(0x1737, 0x173F);
    t.push_range(0x1754, 0x175F);
    t.push_range(0x176D, 0x176D);
    t.push_range(0x1771, 0x1771);
    proof {
        assert(t@ =~= old(t)@ + unassigned_part15());
    }
}

/// Appends part 16 of the unassigned table.
#[verifier::rlimit(100)]
fn push_unassigned_part16(t: &mut RangeTable)
    requires
        old(t).wf(),
        old(t)@.len() > 0 ==> old(t)@.last().1 < 0x1774,
    ensures
        final(t)@ == old(t)@ + unassigned_part16(),
        final(t).wf(),
        final(t)@.last() == (0x1F5Au32, 0x1F5Au32),
{
    t.push_range(0x1774, 0x177F);
    t.push_range(0x17DC, 0x17DF);
    t.push_range(0x17EA, 0x17FF);
    t.push_range(0x180F, 0x180F);
    t.push_range(0x181A, 0x181F);
    t.push_range(0x1878, 0x187F);
    t.push_range(0x18AA, 0x1DFF);
    t.push_range(0x1E9C, 0x1E9F);
    t.push_range(0x1EFA, 0x1EFF);
    t.push_range(0x1F16, 0x1F17);
    t.push_range(0x1F1E, 0x1F1F);
    t.push_range(0x1F46, 0x1F47);
    t.push_range(0x1F4E, 0x1F4F);
    t.push_range(0x1F58, 0x1F58);
    t.push_range(0x1F5A, 0x1F5A);
    proof {
        assert(t@ =~= old(t)@ + unassigned_part16());
    }
}

/// Appends part 17 of the unassigned table.
#[verifier::rlimit(100)]
fn push_unassigned_part17(t: &mut RangeTable)
    requires
        old(t).wf(),
        old(t)@.len() > 0 ==> old(t)@.last().1 < 0x1F5C,
    ensures
        final(t)@ == old(t)@ + unassigned_part17(),
        final(t).wf(),
        final(t)@.last() == (0x208Fu32, 0x209Fu32),
{
    t.push_range(0x1F5C, 0x1F5C);
    t.push_range(0x1F5E, 0x1F5E);
    t.push_range(0x1F7E, 0x1F7F);
    t.push_range(0x1FB5, 0x1FB5);
    t.push_range(0x1FC5, 0x1FC5);
    t.push_range(0x1FD4, 0x1FD5);
    t.push_range(0x1FDC, 0x1FDC);
    t.push_range(0x1FF0, 0x1FF1);
    t.push_range(0x1FF5, 0x1FF5);
    t.push_range(0x1FFF, 0x1FFF);
    t.push_range(0x2053, 0x2056);
    t.push_range(0x2058, 0x205E);
    t.push_range(0x2064, 0x2069);
    t.push_range(0x2072, 0x2073);
    t.push_range(0x208F, 0x209F);
    proof {
        assert(t@ =~= old(t)@ + unassigned_part17());
    }
}

/// Appends part 18 of the unassigned table.
#[verifier::rlimit(100)]
fn push_unassigned_part18(t: &mut RangeTable)
    requires
        old(t).wf(),
        old(t)@.len() > 0 ==> old(t)@.last().1 < 0x20B2,
    ensures
        final(t)@ == old(t)@ + unassigned_part18(),
        final(t).wf(),
        final(t)@.last() == (0x270Au32, 0x270Bu32),
{
    t.push_range(0x20B2, 0x20CF);
    t.push_range(0x20EB, 0x20FF);
    t.push_range(0x213B, 0x213C);
    t.push_range(0x214C, 0x2152);
    t.push_range(0x2184, 0x218F);
    t.push_range(0x23CF, 0x23FF);
    t.push_range(0x2427, 0x243F);
    t.push_range(0x244B, 0x245F);
    t.push_range(0x24FF, 0x24FF);
    t.push_range(0x2614, 0x2615);
    t.push_range(0x2618, 0x2618);
    t.push_range(0x267E, 0x267F);
    t.push_range(0x2686, 0x2700);
    t.push_range(0x2705, 0x2705);
    t.push_range(0x270A, 0x270B);
    proof {
        assert(t@ =~= old(t)@ + unassigned_part18());
    }
}

/// Appends part 19 of the unassigned table.
#[verifier::rlimit(100)]
fn push_unassigned_part19(t: &mut RangeTable)
    requires
        old(t).wf(),
        old(t)@.len() > 0 ==> old(t)@.last().1 < 0x2728,
    ensures
        final(t)@ == old(t)@ + unassigned_part19(),
        final(t).wf(),
        final(t)@.last() == (0x2FFCu32, 0x2FFFu32),
{
    t.push_range(0x2728, 0x2728);
    t.push_range(0x274C, 0x274C);
    t.push_range(0x274E, 0x274E);
    t.push_range(0x2753, 0x2755);
    t.push_range(0x2757, 0x2757);
    t.push_range(0x275F, 0x2760);
    t.push_range(0x2795, 0x2797);
    t.push_range(0x27B0, 0x27B0);
    t.push_range(0x27BF, 0x27CF);
    t.push_range(0x27EC, 0x27EF);
    t.push_range(0x2B00, 0x2E7F);
    t.push_range(0x2E9A, 0x2E9A);
    t.push_range(0x2EF4, 0x2EFF);
    t.push_range(0x2FD6, 0x2FEF);
    t.push_range(0x2FFC, 0x2FFF);
    proof {
        assert(t@ =~= old(t)@ + unassigned_part19());
    }
}

/// Appends part 20 of the unassigned table.
#[verifier::rlimit(100)]
fn push_unassigned_part20(t: &mut RangeTable)
    requires
        old(t).wf(),
        old(t)@.len() > 0 ==> old(t)@.last().1 < 0x3040,
    ensures
        final(t)@ == old(t)@ + unassigned_part20(),
        final(t).wf(),
        final(t)@.last() == (0x4DB6u32, 0x4DFFu32),
{
    t.push_range(0x3040, 0x3040);
    t.push_range(0x3097, 0x3098);
    t.push_range(0x3100, 0x3104);
    t.push_range(0x312D, 0x3130);
    t.push_range(0x318F, 0x318F);
    t.push_range(0x31B8, 0x31EF);
    t.push_range(0x321D, 0x321F);
    t.push_range(0x3244, 0x3250);
    t.push_range(0x327C, 0x327E);
    t.push_range(0x32CC, 0x32CF);
    t.push_range(0x32FF, 0x32FF);
    t.push_range(0x3377, 0x337A);
    t.push_range(0x33DE, 0x33DF);
    t.push_range(0x33FF, 0x33FF);
    t.push_range(0x4DB6, 0x4DFF);
    proof {
        assert(t@ =~= old(t)@ + unassigned_part20());
    }
}

/// Appends part 21 of the unassigned table.
#[verifier::rlimit(100)]
fn push_unassigned_part21(t: &mut RangeTable)
    requires
        old(t).wf(),
        old(t)@.len() > 0 ==> old(t)@.last().1 < 0x9FA6,
    ensures
        final(t)@ == old(t)@ + unassigned_part21(),
        final(t).wf(),
        final(t)@.last() == (0xFD40u32, 0xFD4Fu32),
{
    t.push_range(0x9FA6, 0x9FFF);
    t.push_range(0xA48D, 0xA48F);
    t.push_range(0xA4C7, 0xABFF);
    t.push_range(0xD7A4, 0xD7FF);
    t.push_range(0xFA2E, 0xFA2F);
    t.push_range(0xFA6B, 0xFAFF);
    t.push_range(0xFB07, 0xFB12);
    t.push_range(0xFB18, 0xFB1C);
    t.push_range(0xFB37, 0xFB37);
    t.push_range(0xFB3D, 0xFB3D);
    t.push_range(0xFB3F, 0xFB3F);
    t.push_range(0xFB42, 0xFB42);
    t.push_range(0xFB45, 0xFB45);
    t.push_range(0xFBB2, 0xFBD2);
    t.push_range(0xFD40, 0xFD4F);
    proof {
        assert(t@ =~= old(t)@ + unassigned_part21());
    }
}

/// Appends part 22 of the unassigned table.
#[verifier::rlimit(100)]
fn push_unassigned_part22(t: &mut RangeTable)
    requires
        old(t).wf(),
        old(t)@.len() > 0 ==> old(t)@.last().1 < 0xFD90,
    ensures
        final(t)@ == old(t)@ + unassigned_part22(),
        final(t).wf(),
        final(t)@.last() == (0xFFD0u32, 0xFFD1u32),
{
    t.push_range(0xFD90, 0xFD91);
    t.push_range(0xFDC8, 0xFDCF);
    t.push_range(0xFDFD, 0xFDFF);
    t.push_range(0xFE10, 0xFE1F);
    t.push_range(0xFE24, 0xFE2F);
    t.push_range(0xFE47, 0xFE48);
    t.push_range(0xFE53, 0xFE53);
    t.push_range(0xFE67, 0xFE67);
    t.push_range(0xFE6C, 0xFE6F);
    t.push_range(0xFE75, 0xFE75);
    t.push_range(0xFEFD, 0xFEFE);
    t.push_range(0xFF00, 0xFF00);
    t.push_range(0xFFBF, 0xFFC1);
    t.push_range(0xFFC8, 0xFFC9);
    t.push_range(0xFFD0, 0xFFD1);
    proof {
        assert(t@ =~= old(t)@ + unassigned_part22());
    }
}

/// Appends part 23 of the unassigned table.
#[verifier::rlimit(100)]
fn push_unassigned_part23(t: &mut RangeTable)
    requires
        old(t).wf(),
        old(t)@.len() > 0 ==> old(t)@.last().1 < 0xFFD8,
    ensures
        final(t)@ == old(t)@ + unassigned_part23(),
        final(t).wf(),
        final(t)@.last() == (0x1D49Du32, 0x1D49Du32),
{
    t.push_range(0xFFD8, 0xFFD9);
    t.push_range(0xFFDD, 0xFFDF);
    t.push_range(0xFFE7, 0xFFE7);
    t.push_range(0xFFEF, 0xFFF8);
    t.push_range(0x10000, 0x102FF);
    t.push_range(0x1031F, 0x1031F);
    t.push_range(0x10324, 0x1032F);
    t.push_range(0x1034B, 0x103FF);
    t.push_range(0x10426, 0x10427);
    t.push_range(0x1044E, 0x1CFFF);
    t.push_range(0x1D0F6, 0x1D0FF);
    t.push_range(0x1D127, 0x1D129);
    t.push_range(0x1D1DE, 0x1D3FF);
    t.push_range(0x1D455, 0x1D455);
    t.push_range(0x1D49D, 0x1D49D);
    proof {
        assert(t@ =~= old(t)@ + unassigned_part23());
    }
}

/// Appends part 24 of the unassigned table.
#[verifier::rlimit(100)]
fn push_unassigned_part24(t: &mut RangeTable)
    requires
        old(t).wf(),
        old(t)@.len() > 0 ==> old(t)@.last().1 < 0x1D4A0,
    ensures
        final(t)@ == old(t)@ + unassigned_part24(),
        final(t).wf(),
        final(t)@.last() == (0x1D545u32, 0x1D545u32),
{
    t.push_range(0x1D4A0, 0x1D4A1);
    t.push_range(0x1D4A3, 0x1D4A4);
    t.push_range(0x1D4A7, 0x1D4A8);
    t.push_range(0x1D4AD, 0x1D4AD);
    t.push_range(0x1D4BA, 0x1D4BA);
    t.push_range(0x1D4BC, 0x1D4BC);
    t.push_range(0x1D4C1, 0x1D4C1);
    t.push_range(0x1D4C4, 0x1D4C4);
    t.push_range(0x1D506, 0x1D506);
    t.push_range(0x1D50B, 0x1D50C);
    t.push_range(0x1D515, 0x1D515);
    t.push_range(0x1D51D, 0x1D51D);
    t.push_range(0x1D53A, 0x1D53A);
    t.push_range(0x1D53F, 0x1D53F);
    t.push_range(0x1D545, 0x1D545);
    proof {
        assert(t@ =~= old(t)@ + unassigned_part24());
    }
}

/// Appends part 25 of the unassigned table.
#[verifier::rlimit(100)]
fn push_unassigned_part25(t: &mut RangeTable)
    requires
        old(t).wf(),
        old(t)@.len() > 0 ==> old(t)@.last().1 < 0x1D547,
    ensures
        final(t)@ == old(t)@ + unassigned_part25(),
        final(t).wf(),
        final(t)@.last() == (0xA0000u32, 0xAFFFDu32),
{
    t.push_range(0x1D547, 0x1D549);
    t.push_range(0x1D551, 0x1D551);
    t.push_range(0x1D6A4, 0x1D6A7);
    t.push_range(0x1D7CA, 0x1D7CD);
    t.push_range(0x1D800, 0x1FFFD);
    t.push_range(0x2A6D7, 0x2F7FF);
    t.push_range(0x2FA1E, 0x2FFFD);
    t.push_range(0x30000, 0x3FFFD);
    t.push_range(0x40000, 0x4FFFD);
    t.push_range(0x50000, 0x5FFFD);
    t.push_range(0x60000, 0x6FFFD);
    t.push_range(0x70000, 0x7FFFD);
    t.push_range(0x80000, 0x8FFFD);
    t.push_range(0x90000, 0x9FFFD);
    t.push_range(0xA0000, 0xAFFFD);
    proof {
        assert(t@ =~= old(t)@ + unassigned_part25());
    }
}

/// Appends part 26 of the unassigned table.
#[verifier::rlimit(100)]
fn push_unassigned_part26(t: &mut RangeTable)
    requires
        old(t).wf(),
        old(t)@.len() > 0 ==> old(t)@.last().1 < 0xB0000,
    ensures
        final(t)@ == old(t)@ + unassigned_part26(),
        final(t).wf(),
        final(t)@.last() == (0xE0080u32, 0xEFFFDu32),
{
    t.push_range(0xB0000, 0xBFFFD);
    t.push_range(0xC0000, 0xCFFFD);
    t.push_range(0xD0000, 0xDFFFD);
    t.push_range(0xE0000, 0xE0000);
    t.push_range(0xE0002, 0xE001F);
    t.push_range(0xE0080, 0xEFFFD);
    proof {
        assert(t@ =~= old(t)@ + unassigned_part26());
    }
}

/// A.1 Unassigned code points.
pub open spec fn unassigned_entries() -> Seq<(u32, u32)> {
    unassigned_part0() + unassigned_part1() + unassigned_part2() + unassigned_part3() + unassigned_part4() + unassigned_part5() + unassigned_part6() + unassigned_part7() + unassigned_part8() + unassigned_part9() + unassigned_part10() + unassigned_part11() + unassigned_part12() + unassigned_part13() + unassigned_part14() + unassigned_part15() + unassigned_part16() + unassigned_part17() + unassigned_part18() + unassigned_part19() + unassigned_part20() + unassigned_part21() + unassigned_part22() + unassigned_part23() + unassigned_part24() + unassigned_part25() + unassigned_part26()
}

/// Builds the unassigned-code-point table.
#[verifier::rlimit(100)]
pub fn build_unassigned() -> (t: RangeTable)
    ensures
        t@ == unassigned_entries(),
        t.wf(),
{
    let mut t = RangeTable::new();
    push_unassigned_part0(&mut t);
    proof {
        assert(t@ =~= unassigned_part0());
    }
    push_unassigned_part1(&mut t);
    push_unassigned_part2(&mut t);
    push_unassigned_part3(&mut t);
    push_unassigned_part4(&mut t);
    push_unassigned_part5(&mut t);
    push_unassigned_part6(&mut t);
    push_unassigned_part7(&mut t);
    push_unassigned_part8(&mut t);
    push_unassigned_part9(&mut t);
    push_unassigned_part10(&mut t);
    push_unassigned_part11(&mut t);
    push_unassigned_part12(&mut t);
    push_unassigned_part13(&mut t);
    push_unassigned_part14(&mut t);
    push_unassigned_part15(&mut t);
    push_unassigned_part16(&mut t);
    push_unassigned_part17(&mut t);
    push_unassigned_part18(&mut t);
    push_unassigned_part19(&mut t);
    push_unassigned_part20(&mut t);
    push_unassigned_part21(&mut t);
    push_unassigned_part22(&mut t);
    push_unassigned_part23(&mut t);
    push_unassigned_part24(&mut t);
    push_unassigned_part25(&mut t);
    push_unassigned_part26(&mut t);
    proof {
        assert(t@ == unassigned_entries());
    }
    t
}

/// B.2 case-fold mappings for ASCII and Latin-1 letters.
pub open spec fn cf_latin_basic() -> Seq<FoldEntry> {
    fold_run(0x41, 0x20, 26) + seq![fe1(0xB5, '\u{3BC}')] + fold_run(0xC0, 0x20, 23) + fold_run(0xD8, 0x20, 7) + seq![fe2(0xDF, '\u{73}', '\u{73}')]
}

/// B.2 case-fold mappings for the Latin Extended blocks, part 1.
pub open spec fn cf_latin_extended_0() -> Seq<FoldEntry> {
    fold_run2(0x100, 24) + seq![fe2(0x130, '\u{69}', '\u{307}')] + fold_run2(0x132, 3) + fold_run2(0x139, 8) + seq![fe2(0x149, '\u{2BC}', '\u{6E}')] + fold_run2(0x14A, 23)
}

/// B.2 case-fold mappings for the Latin Extended blocks, part 2.
pub open spec fn cf_latin_extended_1() -> Seq<FoldEntry> {
    seq![fe1(0x178, '\u{FF}')] + fold_run2(0x179, 3) + seq![fe1(0x17F, '\u{73}')] + seq![fe1(0x181, '\u{253}')] + seq![fe1(0x182, '\u{183}')] + seq![fe1(0x184, '\u{185}')]
}

/// B.2 case-fold mappings for the Latin Extended blocks, part 3.
pub open spec fn cf_latin_extended_2() -> Seq<FoldEntry> {
    seq![fe1(0x186, '\u{254}')] + seq![fe1(0x187, '\u{188}')] + seq![fe1(0x189, '\u{256}')] + seq![fe1(0x18A, '\u{257}')] + seq![fe1(0x18B, '\u{18C}')] + seq![fe1(0x18E, '\u{1DD}')]
}

/// B.2 case-fold mappings for the Latin Extended blocks, part 4.
pub open spec fn cf_latin_extended_3() -> Seq<FoldEntry> {
    seq![fe1(0x18F, '\u{259}')] + seq![fe1(0x190, '\u{25B}')] + seq![fe1(0x191, '\u{192}')] + seq![fe1(0x193, '\u{260}')] + seq![fe1(0x194, '\u{263}')] + seq![fe1(0x196, '\u{269}')]
}

/// B.2 case-fold mappings for the Latin Extended blocks, part 5.
pub open spec fn cf_latin_extended_4() -> Seq<FoldEntry> {
    seq![fe1(0x197, '\u{268}')] + seq![fe1(0x198, '\u{199}')] + seq![fe1(0x19C, '\u{26F}')] + seq![fe1(0x19D, '\u{272}')] + seq![fe1(0x19F, '\u{275}')] + seq![fe1(0x1A0, '\u{1A1}')]
}

/// B.2 case-fold mappings for the Latin Extended blocks, part 6.
pub open spec fn cf_latin_extended_5() -> Seq<FoldEntry> {
    seq![fe1(0x1A2, '\u{1A3}')] + seq![fe1(0x1A4, '\u{1A5}')] + seq![fe1(0x1A6, '\u{280}')] + seq![fe1(0x1A7, '\u{1A8}')] + seq![fe1(0x1A9, '\u{283}')] + seq![fe1(0x1AC, '\u{1AD}')]
}

/// B.2 case-fold mappings for the Latin Extended blocks, part 7.
pub open spec fn cf_latin_extended_6() -> Seq<FoldEntry> {
    seq![fe1(0x1AE, '\u{288}')] + seq![fe1(0x1AF, '\u{1B0}')] + seq![fe1(0x1B1, '\u{28A}')] + seq![fe1(0x1B2, '\u{28B}')] + seq![fe1(0x1B3, '\u{1B4}')] + seq![fe1(0x1B5, '\u{1B6}')]
}

/// B.2 case-fold mappings for the Latin Extended blocks, part 8.
pub open spec fn cf_latin_extended_7() -> Seq<FoldEntry> {
    seq![fe1(0x1B7, '\u{292}')] + seq![fe1(0x1B8, '\u{1B9}')] + seq![fe1(0x1BC, '\u{1BD}')] + seq![fe1(0x1C4, '\u{1C6}')] + seq![fe1(0x1C5, '\u{1C6}')] + seq![fe1(0x1C7, '\u{1C9}')]
}

/// B.2 case-fold mappings for the Latin Extended blocks, part 9.
pub open spec fn cf_latin_extended_8() -> Seq<FoldEntry> {
    seq![fe1(0x1C8, '\u{1C9}')] + seq![fe1(0x1CA, '\u{1CC}')] + seq![fe1(0x1CB, '\u{1CC}')] + fold_run2(0x1CD, 8) + fold_run2(0x1DE, 9) + seq![fe2(0x1F0, '\u{6A}', '\u{30C}')]
}

/// B.2 case-fold mappings for the Latin Extended blocks, part 10.
pub open spec fn cf_latin_extended_9() -> Seq<FoldEntry> {
    seq![fe1(0x1F1, '\u{1F3}')] + seq![fe1(0x1F2, '\u{1F3}')] + seq![fe1(0x1F4, '\u{1F5}')] + seq![fe1(0x1F6, '\u{195}')] + seq![fe1(0x1F7, '\u{1BF}')] + fold_run2(0x1F8, 20)
}

/// B.2 case-fold mappings for the Latin Extended blocks, part 11.
pub open spec fn cf_latin_extended_10() -> Seq<FoldEntry> {
    fold_run2(0x222, 9)
}

/// B.2 case-fold mappings for the Greek block, part 1.
pub open spec fn cf_greek_0() -> Seq<FoldEntry> {
    seq![fe1(0x345, '\u{3B9}')] + seq![fe1(0x386, '\u{3AC}')] + seq![fe1(0x388, '\u{3AD}')] + seq![fe1(0x389, '\u{3AE}')] + seq![fe1(0x38A, '\u{3AF}')] + seq![fe1(0x38C, '\u{3CC}')]
}

/// B.2 case-fold mappings for the Greek block, part 2.
pub open spec fn cf_greek_1() -> Seq<FoldEntry> {
    seq![fe1(0x38E, '\u{3CD}')] + seq![fe1(0x38F, '\u{3CE}')] + seq![fe3(0x390, '\u{3B9}', '\u{308}', '\u{301}')] + fold_run(0x391, 0x20, 17) + fold_run(0x3A3, 0x20, 9) + seq![fe3(0x3B0, '\u{3C5}', '\u{308}', '\u{301}')]
}

/// B.2 case-fold mappings for the Greek block, part 3.
pub open spec fn cf_greek_2() -> Seq<FoldEntry> {
    seq![fe1(0x3C2, '\u{3C3}')] + seq![fe1(0x3D0, '\u{3B2}')] + seq![fe1(0x3D1, '\u{3B8}')] + seq![fe1(0x3D2, '\u{3C5}')] + seq![fe1(0x3D3, '\u{3CD}')] + seq![fe1(0x3D4, '\u{3CB}')]
}

/// B.2 case-fold mappings for the Greek block, part 4.
pub open spec fn cf_greek_3() -> Seq<FoldEntry> {
    seq![fe1(0x3D5, '\u{3C6}')] + seq![fe1(0x3D6, '\u{3C0}')] + fold_run2(0x3DA, 11) + seq![fe1(0x3F0, '\u{3BA}')] + seq![fe1(0x3F1, '\u{3C1}')] + seq![fe1(0x3F2, '\u{3C3}')]
}

/// B.2 case-fold mappings for the Greek block, part 5.
pub open spec fn cf_greek_4() -> Seq<FoldEntry> {
    seq![fe1(0x3F4, '\u{3B8}')] + seq![fe1(0x3F5, '\u{3B5}')]
}

/// B.2 case-fold mappings for the Cyrillic block, part 1.
pub open spec fn cf_cyrillic_0() -> Seq<FoldEntry> {
    fold_run(0x400, 0x50, 16) + fold_run(0x410, 0x20, 32) + fold_run2(0x460, 17) + fold_run2(0x48A, 27) + seq![fe1(0x4C1, '\u{4C2}')]
}

/// B.2 case-fold mappings for the Cyrillic block, part 2.
pub open spec fn cf_cyrillic_1() -> Seq<FoldEntry> {
    seq![fe1(0x4C3, '\u{4C4}')] + seq![fe1(0x4C7, '\u{4C8}')] + seq![fe1(0x4CB, '\u{4CC}')] + fold_run2(0x4D0, 19) + seq![fe1(0x4F8, '\u{4F9}')]
}

/// B.2 case-fold mappings for the Armenian block.
pub open spec fn cf_armenian() -> Seq<FoldEntry> {
    fold_run(0x531, 0x30, 38) + seq![fe2(0x587, '\u{565}', '\u{582}')]
}

/// B.2 case-fold mappings for the Latin Extended Additional block, part 1.
pub open spec fn cf_latin_additional_0() -> Seq<FoldEntry> {
    fold_run2(0x1E00, 75) + seq![fe2(0x1E96, '\u{68}', '\u{331}')] + seq![fe2(0x1E97, '\u{74}', '\u{308}')] + seq![fe2(0x1E98, '\u{77}', '\u{30A}')]
}

/// B.2 case-fold mappings for the Latin Extended Additional block, part 2.
pub open spec fn cf_latin_additional_1() -> Seq<FoldEntry> {
    seq![fe2(0x1E99, '\u{79}', '\u{30A}')] + seq![fe2(0x1E9A, '\u{61}', '\u{2BE}')] + seq![fe1(0x1E9B, '\u{1E61}')] + fold_run2(0x1EA0, 45)
}

/// B.2 case-fold mappings for the Greek Extended block, part 1.
pub open spec fn cf_greek_extended_0() -> Seq<FoldEntry> {
    fold_run(0x1F08, -0x8, 8) + fold_run(0x1F18, -0x8, 6) + fold_run(0x1F28, -0x8, 8) + fold_run(0x1F38, -0x8, 8) + fold_run(0x1F48, -0x8, 6) + seq![fe2(0x1F50, '\u{3C5}', '\u{313}')]
}

/// B.2 case-fold mappings for the Greek Extended block, part 2.
pub open spec fn cf_greek_extended_1() -> Seq<FoldEntry> {
    seq![fe3(0x1F52, '\u{3C5}', '\u{313}', '\u{300}')] + seq![fe3(0x1F54, '\u{3C5}', '\u{313}', '\u{301}')] + seq![fe3(0x1F56, '\u{3C5}', '\u{313}', '\u{342}')] + seq![fe1(0x1F59, '\u{1F51}')] + seq![fe1(0x1F5B, '\u{1F53}')] + seq![fe1(0x1F5D, '\u{1F55}')]
}

/// B.2 case-fold mappings for the Greek Extended block, part 3.
pub open spec fn cf_greek_extended_2() -> Seq<FoldEntry> {
    seq![fe1(0x1F5F, '\u{1F57}')] + fold_run(0x1F68, -0x8, 8) + fold_run_iota(0x1F80, 0x1F00, 8) + fold_run_iota(0x1F88, 0x1F00, 8) + fold_run_iota(0x1F90, 0x1F20, 8) + fold_run_iota(0x1F98, 0x1F20, 8)
}

/// B.2 case-fold mappings for the Greek Extended block, part 4.
pub open spec fn cf_greek_extended_3() -> Seq<FoldEntry> {
    fold_run_iota(0x1FA0, 0x1F60, 8) + fold_run_iota(0x1FA8, 0x1F60, 8) + seq![fe2(0x1FB2, '\u{1F70}', '\u{3B9}')] + seq![fe2(0x1FB3, '\u{3B1}', '\u{3B9}')] + seq![fe2(0x1FB4, '\u{3AC}', '\u{3B9}')] + seq![fe2(0x1FB6, '\u{3B1}', '\u{342}')]
}

/// B.2 case-fold mappings for the Greek Extended block, part 5.
pub open spec fn cf_greek_extended_4() -> Seq<FoldEntry> {
    seq![fe3(0x1FB7, '\u{3B1}', '\u{342}', '\u{3B9}')] + seq![fe1(0x1FB8, '\u{1FB0}')] + seq![fe1(0x1FB9, '\u{1FB1}')] + seq![fe1(0x1FBA, '\u{1F70}')] + seq![fe1(0x1FBB, '\u{1F71}')] + seq![fe2(0x1FBC, '\u{3B1}', '\u{3B9}')]
}

/// B.2 case-fold mappings for the Greek Extended block, part 6.
pub open spec fn cf_greek_extended_5() -> Seq<FoldEntry> {
    seq![fe1(0x1FBE, '\u{3B9}')] + seq![fe2(0x1FC2, '\u{1F74}', '\u{3B9}')] + seq![fe2(0x1FC3, '\u{3B7}', '\u{3B9}')] + seq![fe2(0x1FC4, '\u{3AE}', '\u{3B9}')] + seq![fe2(0x1FC6, '\u{3B7}', '\u{342}')] + seq![fe3(0x1FC7, '\u{3B7}', '\u{342}', '\u{3B9}')]
}

/// B.2 case-fold mappings for the Greek Extended block, part 7.
pub open spec fn cf_greek_extended_6() -> Seq<FoldEntry> {
    seq![fe1(0x1FC8, '\u{1F72}')] + seq![fe1(0x1FC9, '\u{1F73}')] + seq![fe1(0x1FCA, '\u{1F74}')] + seq![fe1(0x1FCB, '\u{1F75}')] + seq![fe2(0x1FCC, '\u{3B7}', '\u{3B9}')] + seq![fe3(0x1FD2, '\u{3B9}', '\u{308}', '\u{300}')]
}

/// B.2 case-fold mappings for the Greek Extended block, part 8.
pub open spec fn cf_greek_extended_7() -> Seq<FoldEntry> {
    seq![fe3(0x1FD3, '\u{3B9}', '\u{308}', '\u{301}')] + seq![fe2(0x1FD6, '\u{3B9}', '\u{342}')] + seq![fe3(0x1FD7, '\u{3B9}', '\u{308}', '\u{342}')] + seq![fe1(0x1FD8, '\u{1FD0}')] + seq![fe1(0x1FD9, '\u{1FD1}')] + seq![fe1(0x1FDA, '\u{1F76}')]
}

/// B.2 case-fold mappings for the Greek Extended block, part 9.
pub open spec fn cf_greek_extended_8() -> Seq<FoldEntry> {
    seq![fe1(0x1FDB, '\u{1F77}')] + seq![fe3(0x1FE2, '\u{3C5}', '\u{308}', '\u{300}')] + seq![fe3(0x1FE3, '\u{3C5}', '\u{308}', '\u{301}')] + seq![fe2(0x1FE4, '\u{3C1}', '\u{313}')] + seq![fe2(0x1FE6, '\u{3C5}', '\u{342}')] + seq![fe3(0x1FE7, '\u{3C5}', '\u{308}', '\u{342}')]
}

/// B.2 case-fold mappings for the Greek Extended block, part 10.
pub open spec fn cf_greek_extended_9() -> Seq<FoldEntry> {
    seq![fe1(0x1FE8, '\u{1FE0}')] + seq![fe1(0x1FE9, '\u{1FE1}')] + seq![fe1(0x1FEA, '\u{1F7A}')] + seq![fe1(0x1FEB, '\u{1F7B}')] + seq![fe1(0x1FEC, '\u{1FE5}')] + seq![fe2(0x1FF2, '\u{1F7C}', '\u{3B9}')]
}

/// B.2 case-fold mappings for the Greek Extended block, part 11.
pub open spec fn cf_greek_extended_10() -> Seq<FoldEntry> {
    seq![fe2(0x1FF3, '\u{3C9}', '\u{3B9}')] + seq![fe2(0x1FF4, '\u{3CE}', '\u{3B9}')] + seq![fe2(0x1FF6, '\u{3C9}', '\u{342}')] + seq![fe3(0x1FF7, '\u{3C9}', '\u{342}', '\u{3B9}')] + seq![fe1(0x1FF8, '\u{1F78}')] + seq![fe1(0x1FF9, '\u{1F79}')]
}

/// B.2 case-fold mappings for the Greek Extended block, part 12.
pub open spec fn cf_greek_extended_11() -> Seq<FoldEntry> {
    seq![fe1(0x1FFA, '\u{1F7C}')] + seq![fe1(0x1FFB, '\u{1F7D}')] + seq![fe2(0x1FFC, '\u{3C9}', '\u{3B9}')]
}

/// B.2 case-fold mappings for letterlike symbols, Roman numerals and circled letters, part 1.
pub open spec fn cf_letterlike_numeric_0() -> Seq<FoldEntry> {
    seq![fe2(0x20A8, '\u{72}', '\u{73}')] + seq![fe1(0x2102, '\u{63}')] + seq![fe2(0x2103, '\u{B0}', '\u{63}')] + seq![fe1(0x2107, '\u{25B}')] + seq![fe2(0x2109, '\u{B0}', '\u{66}')] + seq![fe1(0x210B, '\u{68}')]
}

/// B.2 case-fold mappings for letterlike symbols, Roman numerals and circled letters, part 2.
pub open spec fn cf_letterlike_numeric_1() -> Seq<FoldEntry> {
    seq![fe1(0x210C, '\u{68}')] + seq![fe1(0x210D, '\u{68}')] + seq![fe1(0x2110, '\u{69}')] + seq![fe1(0x2111, '\u{69}')] + seq![fe1(0x2112, '\u{6C}')] + seq![fe1(0x2115, '\u{6E}')]
}

/// B.2 case-fold mappings for letterlike symbols, Roman numerals and circled letters, part 3.
pub open spec fn cf_letterlike_numeric_2() -> Seq<FoldEntry> {
    seq![fe2(0x2116, '\u{6E}', '\u{6F}')] + seq![fe1(0x2119, '\u{70}')] + seq![fe1(0x211A, '\u{71}')] + seq![fe1(0x211B, '\u{72}')] + seq![fe1(0x211C, '\u{72}')] + seq![fe1(0x211D, '\u{72}')]
}

/// B.2 case-fold mappings for letterlike symbols, Roman numerals and circled letters, part 4.
pub open spec fn cf_letterlike_numeric_3() -> Seq<FoldEntry> {
    seq![fe2(0x2120, '\u{73}', '\u{6D}')] + seq![fe3(0x2121, '\u{74}', '\u{65}', '\u{6C}')] + seq![fe2(0x2122, '\u{74}', '\u{6D}')] + seq![fe1(0x2124, '\u{7A}')] + seq![fe1(0x2126, '\u{3C9}')] + seq![fe1(0x2128, '\u{7A}')]
}

/// B.2 case-fold mappings for letterlike symbols, Roman numerals and circled letters, part 5.
pub open spec fn cf_letterlike_numeric_4() -> Seq<FoldEntry> {
    seq![fe1(0x212A, '\u{6B}')] + seq![fe1(0x212B, '\u{E5}')] + seq![fe1(0x212C, '\u{62}')] + seq![fe1(0x212D, '\u{63}')] + seq![fe1(0x2130, '\u{65}')] + seq![fe1(0x2131, '\u{66}')]
}

/// B.2 case-fold mappings for letterlike symbols, Roman numerals and circled letters, part 6.
pub open spec fn cf_letterlike_numeric_5() -> Seq<FoldEntry> {
    seq![fe1(0x2133, '\u{6D}')] + seq![fe1(0x213E, '\u{3B3}')] + seq![fe1(0x213F, '\u{3C0}')] + seq![fe1(0x2145, '\u{64}')] + fold_run(0x2160, 0x10, 16) + fold_run(0x24B6, 0x1A, 26)
}

/// B.2 case-fold mappings for squared units whose expansions hold a capital, part 1.
pub open spec fn cf_squared_units_0() -> Seq<FoldEntry> {
    seq![fe3(0x3371, '\u{68}', '\u{70}', '\u{61}')] + seq![fe2(0x3373, '\u{61}', '\u{75}')] + seq![fe2(0x3375, '\u{6F}', '\u{76}')] + seq![fe2(0x3380, '\u{70}', '\u{61}')] + seq![fe2(0x3381, '\u{6E}', '\u{61}')] + seq![fe2(0x3382, '\u{3BC}', '\u{61}')]
}

/// B.2 case-fold mappings for squared units whose expansions hold a capital, part 2.
pub open spec fn cf_squared_units_1() -> Seq<FoldEntry> {
    seq![fe2(0x3383, '\u{6D}', '\u{61}')] + seq![fe2(0x3384, '\u{6B}', '\u{61}')] + seq![fe2(0x3385, '\u{6B}', '\u{62}')] + seq![fe2(0x3386, '\u{6D}', '\u{62}')] + seq![fe2(0x3387, '\u{67}', '\u{62}')] + seq![fe2(0x338A, '\u{70}', '\u{66}')]
}

/// B.2 case-fold mappings for squared units whose expansions hold a capital, part 3.
pub open spec fn cf_squared_units_2() -> Seq<FoldEntry> {
    seq![fe2(0x338B, '\u{6E}', '\u{66}')] + seq![fe2(0x338C, '\u{3BC}', '\u{66}')] + seq![fe2(0x3390, '\u{68}', '\u{7A}')] + seq![fe3(0x3391, '\u{6B}', '\u{68}', '\u{7A}')] + seq![fe3(0x3392, '\u{6D}', '\u{68}', '\u{7A}')] + seq![fe3(0x3393, '\u{67}', '\u{68}', '\u{7A}')]
}

/// B.2 case-fold mappings for squared units whose expansions hold a capital, part 4.
pub open spec fn cf_squared_units_3() -> Seq<FoldEntry> {
    seq![fe3(0x3394, '\u{74}', '\u{68}', '\u{7A}')] + seq![fe2(0x33A9, '\u{70}', '\u{61}')] + seq![fe3(0x33AA, '\u{6B}', '\u{70}', '\u{61}')] + seq![fe3(0x33AB, '\u{6D}', '\u{70}', '\u{61}')] + seq![fe3(0x33AC, '\u{67}', '\u{70}', '\u{61}')] + seq![fe2(0x33B4, '\u{70}', '\u{76}')]
}

/// B.2 case-fold mappings for squared units whose expansions hold a capital, part 5.
pub open spec fn cf_squared_units_4() -> Seq<FoldEntry> {
    seq![fe2(0x33B5, '\u{6E}', '\u{76}')] + seq![fe2(0x33B6, '\u{3BC}', '\u{76}')] + seq![fe2(0x33B7, '\u{6D}', '\u{76}')] + seq![fe2(0x33B8, '\u{6B}', '\u{76}')] + seq![fe2(0x33B9, '\u{6D}', '\u{76}')] + seq![fe2(0x33BA, '\u{70}', '\u{77}')]
}

/// B.2 case-fold mappings for squared units whose expansions hold a capital, part 6.
pub open spec fn cf_squared_units_5() -> Seq<FoldEntry> {
    seq![fe2(0x33BB, '\u{6E}', '\u{77}')] + seq![fe2(0x33BC, '\u{3BC}', '\u{77}')] + seq![fe2(0x33BD, '\u{6D}', '\u{77}')] + seq![fe2(0x33BE, '\u{6B}', '\u{77}')] + seq![fe2(0x33BF, '\u{6D}', '\u{77}')] + seq![fe2(0x33C0, '\u{6B}', '\u{3C9}')]
}

/// B.2 case-fold mappings for squared units whose expansions hold a capital, part 7.
pub open spec fn cf_squared_units_6() -> Seq<FoldEntry> {
    seq![fe2(0x33C1, '\u{6D}', '\u{3C9}')] + seq![fe2(0x33C3, '\u{62}', '\u{71}')] + seq![fe2(0x33C5, '\u{63}', '\u{64}')] + seq![fe4(0x33C6, '\u{63}', '\u{2215}', '\u{6B}', '\u{67}')] + seq![fe3(0x33C7, '\u{63}', '\u{6F}', '\u{2E}')] + seq![fe2(0x33C8, '\u{64}', '\u{62}')]
}

/// B.2 case-fold mappings for squared units whose expansions hold a capital, part 8.
pub open spec fn cf_squared_units_7() -> Seq<FoldEntry> {
    seq![fe2(0x33C9, '\u{67}', '\u{79}')] + seq![fe2(0x33CB, '\u{68}', '\u{70}')] + seq![fe2(0x33CD, '\u{6B}', '\u{6B}')] + seq![fe2(0x33CE, '\u{6B}', '\u{6D}')] + seq![fe2(0x33D7, '\u{70}', '\u{68}')] + seq![fe3(0x33D9, '\u{70}', '\u{70}', '\u{6D}')]
}

/// B.2 case-fold mappings for squared units whose expansions hold a capital, part 9.
pub open spec fn cf_squared_units_8() -> Seq<FoldEntry> {
    seq![fe2(0x33DA, '\u{70}', '\u{72}')] + seq![fe2(0x33DC, '\u{73}', '\u{76}')] + seq![fe2(0x33DD, '\u{77}', '\u{62}')]
}

/// B.2 case-fold mappings for the Latin and Armenian ligatures, part 1.
pub open spec fn cf_ligatures_0() -> Seq<FoldEntry> {
    seq![fe2(0xFB00, '\u{66}', '\u{66}')] + seq![fe2(0xFB01, '\u{66}', '\u{69}')] + seq![fe2(0xFB02, '\u{66}', '\u{6C}')] + seq![fe3(0xFB03, '\u{66}', '\u{66}', '\u{69}')] + seq![fe3(0xFB04, '\u{66}', '\u{66}', '\u{6C}')] + seq![fe2(0xFB05, '\u{73}', '\u{74}')]
}

/// B.2 case-fold mappings for the Latin and Armenian ligatures, part 2.
pub open spec fn cf_ligatures_1() -> Seq<FoldEntry> {
    seq![fe2(0xFB06, '\u{73}', '\u{74}')] + seq![fe2(0xFB13, '\u{574}', '\u{576}')] + seq![fe2(0xFB14, '\u{574}', '\u{565}')] + seq![fe2(0xFB15, '\u{574}', '\u{56B}')] + seq![fe2(0xFB16, '\u{57E}', '\u{576}')] + seq![fe2(0xFB17, '\u{574}', '\u{56D}')]
}

/// B.2 case-fold mappings for fullwidth letters and the Deseret block.
pub open spec fn cf_wide_and_deseret() -> Seq<FoldEntry> {
    fold_run(0xFF21, 0x20, 26) + fold_run(0x10400, 0x28, 38)
}

/// B.2 case-fold mappings for the mathematical Latin alphabets, part 1.
pub open spec fn cf_math_latin_0() -> Seq<FoldEntry> {
    fold_run(0x1D400, -0x1D39F, 26) + fold_run(0x1D434, -0x1D3D3, 26) + fold_run(0x1D468, -0x1D407, 26) + seq![fe1(0x1D49C, '\u{61}')] + seq![fe1(0x1D49E, '\u{63}')] + seq![fe1(0x1D49F, '\u{64}')]
}

/// B.2 case-fold mappings for the mathematical Latin alphabets, part 2.
pub open spec fn cf_math_latin_1() -> Seq<FoldEntry> {
    seq![fe1(0x1D4A2, '\u{67}')] + seq![fe1(0x1D4A5, '\u{6A}')] + seq![fe1(0x1D4A6, '\u{6B}')] + seq![fe1(0x1D4A9, '\u{6E}')] + seq![fe1(0x1D4AA, '\u{6F}')] + seq![fe1(0x1D4AB, '\u{70}')]
}

/// B.2 case-fold mappings for the mathematical Latin alphabets, part 3.
pub open spec fn cf_math_latin_2() -> Seq<FoldEntry> {
    seq![fe1(0x1D4AC, '\u{71}')] + seq![fe1(0x1D4AE, '\u{73}')] + seq![fe1(0x1D4AF, '\u{74}')] + seq![fe1(0x1D4B0, '\u{75}')] + seq![fe1(0x1D4B1, '\u{76}')] + seq![fe1(0x1D4B2, '\u{77}')]
}

/// B.2 case-fold mappings for the mathematical Latin alphabets, part 4.
pub open spec fn cf_math_latin_3() -> Seq<FoldEntry> {
    seq![fe1(0x1D4B3, '\u{78}')] + seq![fe1(0x1D4B4, '\u{79}')] + seq![fe1(0x1D4B5, '\u{7A}')] + fold_run(0x1D4D0, -0x1D46F, 26) + seq![fe1(0x1D504, '\u{61}')] + seq![fe1(0x1D505, '\u{62}')]
}

/// B.2 case-fold mappings for the mathematical Latin alphabets, part 5.
pub open spec fn cf_math_latin_4() -> Seq<FoldEntry> {
    seq![fe1(0x1D507, '\u{64}')] + seq![fe1(0x1D508, '\u{65}')] + seq![fe1(0x1D509, '\u{66}')] + seq![fe1(0x1D50A, '\u{67}')] + seq![fe1(0x1D50D, '\u{6A}')] + seq![fe1(0x1D50E, '\u{6B}')]
}

/// B.2 case-fold mappings for the mathematical Latin alphabets, part 6.
pub open spec fn cf_math_latin_5() -> Seq<FoldEntry> {
    seq![fe1(0x1D50F, '\u{6C}')] + seq![fe1(0x1D510, '\u{6D}')] + seq![fe1(0x1D511, '\u{6E}')] + seq![fe1(0x1D512, '\u{6F}')] + seq![fe1(0x1D513, '\u{70}')] + seq![fe1(0x1D514, '\u{71}')]
}

/// B.2 case-fold mappings for the mathematical Latin alphabets, part 7.
pub open spec fn cf_math_latin_6() -> Seq<FoldEntry> {
    seq![fe1(0x1D516, '\u{73}')] + seq![fe1(0x1D517, '\u{74}')] + seq![fe1(0x1D518, '\u{75}')] + seq![fe1(0x1D519, '\u{76}')] + seq![fe1(0x1D51A, '\u{77}')] + seq![fe1(0x1D51B, '\u{78}')]
}

/// B.2 case-fold mappings for the mathematical Latin alphabets, part 8.
pub open spec fn cf_math_latin_7() -> Seq<FoldEntry> {
    seq![fe1(0x1D51C, '\u{79}')] + seq![fe1(0x1D538, '\u{61}')] + seq![fe1(0x1D539, '\u{62}')] + seq![fe1(0x1D53B, '\u{64}')] + seq![fe1(0x1D53C, '\u{65}')] + seq![fe1(0x1D53D, '\u{66}')]
}

/// B.2 case-fold mappings for the mathematical Latin alphabets, part 9.
pub open spec fn cf_math_latin_8() -> Seq<FoldEntry> {
    seq![fe1(0x1D53E, '\u{67}')] + seq![fe1(0x1D540, '\u{69}')] + seq![fe1(0x1D541, '\u{6A}')] + seq![fe1(0x1D542, '\u{6B}')] + seq![fe1(0x1D543, '\u{6C}')] + seq![fe1(0x1D544, '\u{6D}')]
}

/// B.2 case-fold mappings for the mathematical Latin alphabets, part 10.
pub open spec fn cf_math_latin_9() -> Seq<FoldEntry> {
    seq![fe1(0x1D546, '\u{6F}')] + seq![fe1(0x1D54A, '\u{73}')] + seq![fe1(0x1D54B, '\u{74}')] + seq![fe1(0x1D54C, '\u{75}')] + seq![fe1(0x1D54D, '\u{76}')] + seq![fe1(0x1D54E, '\u{77}')]
}

/// B.2 case-fold mappings for the mathematical Latin alphabets, part 11.
pub open spec fn cf_math_latin_10() -> Seq<FoldEntry> {
    seq![fe1(0x1D54F, '\u{78}')] + seq![fe1(0x1D550, '\u{79}')] + fold_run(0x1D56C, -0x1D50B, 26) + fold_run(0x1D5A0, -0x1D53F, 26) + fold_run(0x1D5D4, -0x1D573, 26) + fold_run(0x1D608, -0x1D5A7, 26)
}

/// B.2 case-fold mappings for the mathematical Latin alphabets, part 12.
pub open spec fn cf_math_latin_11() -> Seq<FoldEntry> {
    fold_run(0x1D63C, -0x1D5DB, 26) + fold_run(0x1D670, -0x1D60F, 26)
}

/// B.2 case-fold mappings for the mathematical Greek alphabets, part 1.
pub open spec fn cf_math_greek_0() -> Seq<FoldEntry> {
    fold_run(0x1D6A8, -0x1D2F7, 17) + seq![fe1(0x1D6B9, '\u{3B8}')] + seq![fe1(0x1D6BA, '\u{3C3}')] + fold_run(0x1D6BB, -0x1D2F7, 6) + seq![fe1(0x1D6DC, '\u{3B5}')] + seq![fe1(0x1D6DD, '\u{3B8}')]
}

/// B.2 case-fold mappings for the mathematical Greek alphabets, part 2.
pub open spec fn cf_math_greek_1() -> Seq<FoldEntry> {
    seq![fe1(0x1D6DE, '\u{3BA}')] + seq![fe1(0x1D6DF, '\u{3C6}')] + seq![fe1(0x1D6E0, '\u{3C1}')] + seq![fe1(0x1D6E1, '\u{3C0}')] + fold_run(0x1D6E2, -0x1D331, 17) + seq![fe1(0x1D6F3, '\u{3B8}')]
}

/// B.2 case-fold mappings for the mathematical Greek alphabets, part 3.
pub open spec fn cf_math_greek_2() -> Seq<FoldEntry> {
    seq![fe1(0x1D6F4, '\u{3C3}')] + fold_run(0x1D6F5, -0x1D331, 6) + seq![fe1(0x1D716, '\u{3B5}')] + seq![fe1(0x1D717, '\u{3B8}')] + seq![fe1(0x1D718, '\u{3BA}')] + seq![fe1(0x1D719, '\u{3C6}')]
}

/// B.2 case-fold mappings for the mathematical Greek alphabets, part 4.
pub open spec fn cf_math_greek_3() -> Seq<FoldEntry> {
    seq![fe1(0x1D71A, '\u{3C1}')] + seq![fe1(0x1D71B, '\u{3C0}')] + fold_run(0x1D71C, -0x1D36B, 17) + seq![fe1(0x1D72D, '\u{3B8}')] + seq![fe1(0x1D72E, '\u{3C3}')] + fold_run(0x1D72F, -0x1D36B, 6)
}

/// B.2 case-fold mappings for the mathematical Greek alphabets, part 5.
pub open spec fn cf_math_greek_4() -> Seq<FoldEntry> {
    seq![fe1(0x1D750, '\u{3B5}')] + seq![fe1(0x1D751, '\u{3B8}')] + seq![fe1(0x1D752, '\u{3BA}')] + seq![fe1(0x1D753, '\u{3C6}')] + seq![fe1(0x1D754, '\u{3C1}')] + seq![fe1(0x1D755, '\u{3C0}')]
}

/// B.2 case-fold mappings for the mathematical Greek alphabets, part 6.
pub open spec fn cf_math_greek_5() -> Seq<FoldEntry> {
    fold_run(0x1D756, -0x1D3A5, 17) + seq![fe1(0x1D767, '\u{3B8}')] + seq![fe1(0x1D768, '\u{3C3}')] + fold_run(0x1D769, -0x1D3A5, 6) + seq![fe1(0x1D78A, '\u{3B5}')] + seq![fe1(0x1D78B, '\u{3B8}')]
}

/// B.2 case-fold mappings for the mathematical Greek alphabets, part 7.
pub open spec fn cf_math_greek_6() -> Seq<FoldEntry> {
    seq![fe1(0x1D78C, '\u{3BA}')] + seq![fe1(0x1D78D, '\u{3C6}')] + seq![fe1(0x1D78E, '\u{3C1}')] + seq![fe1(0x1D78F, '\u{3C0}')] + fold_run(0x1D790, -0x1D3DF, 17) + seq![fe1(0x1D7A1, '\u{3B8}')]
}

/// B.2 case-fold mappings for the mathematical Greek alphabets, part 8.
pub open spec fn cf_math_greek_7() -> Seq<FoldEntry> {
    seq![fe1(0x1D7A2, '\u{3C3}')] + fold_run(0x1D7A3, -0x1D3DF, 6) + seq![fe1(0x1D7C4, '\u{3B5}')] + seq![fe1(0x1D7C5, '\u{3B8}')] + seq![fe1(0x1D7C6, '\u{3BA}')] + seq![fe1(0x1D7C7, '\u{3C6}')]
}

/// B.2 case-fold mappings for the mathematical Greek alphabets, part 9.
pub open spec fn cf_math_greek_8() -> Seq<FoldEntry> {
    seq![fe1(0x1D7C8, '\u{3C1}')] + seq![fe1(0x1D7C9, '\u{3C0}')]
}

/// B.2 Case-fold mappings for use with compatibility normalization.
#[verifier::opaque]
pub open spec fn case_fold_entries() -> Seq<FoldEntry> {
    cf_latin_basic() + cf_latin_extended_0() + cf_latin_extended_1() + cf_latin_extended_2() + cf_latin_extended_3() + cf_latin_extended_4() + cf_latin_extended_5() + cf_latin_extended_6() + cf_latin_extended_7() + cf_latin_extended_8() + cf_latin_extended_9() + cf_latin_extended_10() + cf_greek_0() + cf_greek_1() + cf_greek_2() + cf_greek_3() + cf_greek_4() + cf_cyrillic_0() + cf_cyrillic_1() + cf_armenian() + cf_latin_additional_0() + cf_latin_additional_1() + cf_greek_extended_0() + cf_greek_extended_1() + cf_greek_extended_2() + cf_greek_extended_3() + cf_greek_extended_4() + cf_greek_extended_5() + cf_greek_extended_6() + cf_greek_extended_7() + cf_greek_extended_8() + cf_greek_extended_9() + cf_greek_extended_10() + cf_greek_extended_11() + cf_letterlike_numeric_0() + cf_letterlike_numeric_1() + cf_letterlike_numeric_2() + cf_letterlike_numeric_3() + cf_letterlike_numeric_4() + cf_letterlike_numeric_5() + cf_squared_units_0() + cf_squared_units_1() + cf_squared_units_2() + cf_squared_units_3() + cf_squared_units_4() + cf_squared_units_5() + cf_squared_units_6() + cf_squared_units_7() + cf_squared_units_8() + cf_ligatures_0() + cf_ligatures_1() + cf_wide_and_deseret() + cf_math_latin_0() + cf_math_latin_1() + cf_math_latin_2() + cf_math_latin_3() + cf_math_latin_4() + cf_math_latin_5() + cf_math_latin_6() + cf_math_latin_7() + cf_math_latin_8() + cf_math_latin_9() + cf_math_latin_10() + cf_math_latin_11() + cf_math_greek_0() + cf_math_greek_1() + cf_math_greek_2() + cf_math_greek_3() + cf_math_greek_4() + cf_math_greek_5() + cf_math_greek_6() + cf_math_greek_7() + cf_math_greek_8()
}

/// Appends a run of consecutive single-character fold entries.
fn push_fold_run(t: &mut FoldTable, start: u32, delta: u32, n: u32)
    requires
        old(t).wf(),
        n >= 1,
        old(t)@.len() > 0 ==> old(t)@.last().key < start,
        start + delta + n < 0xD800 || (0xE000 <= start + delta && start + delta + n <= 0x110000),
        start + n < 0x110000,
    ensures
        final(t)@ == old(t)@ + fold_run(start as int, delta as int, n as nat),
        final(t).wf(),
        final(t)@.last().key == start + n - 1,
{
    let mut k: u32 = 0;
    while k < n
        invariant
            0 <= k <= n,
            t.wf(),
            t@ == old(t)@ + fold_run(start as int, delta as int, k as nat),
            old(t)@.len() > 0 ==> old(t)@.last().key < start,
            start + delta + n < 0xD800 || (0xE000 <= start + delta && start + delta + n
                <= 0x110000),
            start + n < 0x110000,
        decreases n - k,
    {
        let key = start + k;
        let r0 = char_from_u32(start + delta + k);
        let e = FoldEntry { key, count: 1, r0, r1: '\u{0}', r2: '\u{0}', r3: '\u{0}' };
        proof {
            assert(e == fe1((start + k) as u32, ((start as int + delta + k) as char)));
            if k > 0 {
                assert(t@.last() == fold_run(start as int, delta as int, k as nat).last());
            }
        }
        t.push_entry(e);
        proof {
            assert(t@ =~= old(t)@ + fold_run(start as int, delta as int, (k + 1) as nat));
        }
        k = k + 1;
    }
    proof {
        assert(t@.last() == fold_run(start as int, delta as int, n as nat).last());
    }
}

/// Appends a run whose replacements stand `delta` code points below the
/// keys.
fn push_fold_run_down(t: &mut FoldTable, start: u32, delta: u32, n: u32)
    requires
        old(t).wf(),
        n >= 1,
        old(t)@.len() > 0 ==> old(t)@.last().key < start,
        delta <= start,
        start - delta + n <= 0xD800,
        start + n < 0x110000,
    ensures
        final(t)@ == old(t)@ + fold_run(start as int, -(delta as int), n as nat),
        final(t).wf(),
        final(t)@.last().key == start + n - 1,
{
    let mut k: u32 = 0;
    while k < n
        invariant
            0 <= k <= n,
            t.wf(),
            t@ == old(t)@ + fold_run(start as int, -(delta as int), k as nat),
            old(t)@.len() > 0 ==> old(t)@.last().key < start,
            delta <= start,
            start - delta + n <= 0xD800,
            start + n < 0x110000,
        decreases n - k,
    {
        let key = start + k;
        let r0 = char_from_u32(start - delta + k);
        let e = FoldEntry { key, count: 1, r0, r1: '\u{0}', r2: '\u{0}', r3: '\u{0}' };
        proof {
            assert(e == fe1((start + k) as u32, ((start as int - delta + k) as char)));
            if k > 0 {
                assert(t@.last() == fold_run(start as int, -(delta as int), k as nat).last());
            }
        }
        t.push_entry(e);
        proof {
            assert(t@ =~= old(t)@ + fold_run(start as int, -(delta as int), (k + 1) as nat));
        }
        k = k + 1;
    }
    proof {
        assert(t@.last() == fold_run(start as int, -(delta as int), n as nat).last());
    }
}

/// Appends a run over every second code point, each mapped to the
/// character one past it.
fn push_fold_run2(t: &mut FoldTable, start: u32, n: u32)
    requires
        old(t).wf(),
        n >= 1,
        old(t)@.len() > 0 ==> old(t)@.last().key < start,
        start + 2 * n < 0xD800,
    ensures
        final(t)@ == old(t)@ + fold_run2(start as int, n as nat),
        final(t).wf(),
        final(t)@.last().key == start + 2 * (n - 1),
{
    let mut k: u32 = 0;
    while k < n
        invariant
            0 <= k <= n,
            t.wf(),
            t@ == old(t)@ + fold_run2(start as int, k as nat),
            old(t)@.len() > 0 ==> old(t)@.last().key < start,
            start + 2 * n < 0xD800,
        decreases n - k,
    {
        let key = start + 2 * k;
        let r0 = char_from_u32(start + 2 * k + 1);
        let e = FoldEntry { key, count: 1, r0, r1: '\u{0}', r2: '\u{0}', r3: '\u{0}' };
        proof {
            assert(e == fe1((start + 2 * k) as u32, ((start as int + 2 * k + 1) as char)));
            if k > 0 {
                assert(t@.last() == fold_run2(start as int, k as nat).last());
            }
        }
        t.push_entry(e);
        proof {
            assert(t@ =~= old(t)@ + fold_run2(start as int, (k + 1) as nat));
        }
        k = k + 1;
    }
    proof {
        assert(t@.last() == fold_run2(start as int, n as nat).last());
    }
}

/// Appends a run of two-character fold entries ending in a combining iota.
fn push_fold_run_iota(t: &mut FoldTable, start: u32, base: u32, n: u32)
    requires
        old(t).wf(),
        n >= 1,
        old(t)@.len() > 0 ==> old(t)@.last().key < start,
        start + n <= 0xD800,
        base + n <= 0xD800,
    ensures
        final(t)@ == old(t)@ + fold_run_iota(start as int, base as int, n as nat),
        final(t).wf(),
        final(t)@.last().key == start + n - 1,
{
    let mut k: u32 = 0;
    while k < n
        invariant
            0 <= k <= n,
            t.wf(),
            t@ == old(t)@ + fold_run_iota(start as int, base as int, k as nat),
            old(t)@.len() > 0 ==> old(t)@.last().key < start,
            start + n <= 0xD800,
            base + n <= 0xD800,
        decreases n - k,
    {
        let key = start + k;
        let r0 = char_from_u32(base + k);
        let e = FoldEntry { key, count: 2, r0, r1: '\u{03B9}', r2: '\u{0}', r3: '\u{0}' };
        proof {
            assert(e == fe2((start + k) as u32, ((base as int + k) as char), '\u{03B9}'));
            if k > 0 {
                assert(t@.last() == fold_run_iota(start as int, base as int, k as nat).last());
            }
        }
        t.push_entry(e);
        proof {
            assert(t@ =~= old(t)@ + fold_run_iota(start as int, base as int, (k + 1) as nat));
        }
        k = k + 1;
    }
    proof {
        assert(t@.last() == fold_run_iota(start as int, base as int, n as nat).last());
    }
}


/// Appends the case-fold mappings for ASCII and Latin-1 letters.
#[verifier::rlimit(100)]
fn push_cf_latin_basic(t: &mut FoldTable)
    requires
        old(t).wf(),
        old(t)@.len() > 0 ==> old(t)@.last().key < 0x41,
    ensures
        final(t)@ == old(t)@ + cf_latin_basic(),
        final(t).wf(),
        final(t)@.last().key == 0xDF,
{
    push_fold_run(t, 0x41, 0x20, 26);
    proof {
        assert(t@ =~= old(t)@ + (fold_run(0x41, 0x20, 26)));
    }
    t.push_entry(FoldEntry { key: 0xB5, count: 1, r0: '\u{3BC}', r1: '\u{0}', r2: '\u{0}', r3: '\u{0}' });
    proof {
        assert(t@ =~= old(t)@ + (fold_run(0x41, 0x20, 26) + seq![fe1(0xB5, '\u{3BC}')]));
    }
    push_fold_run(t, 0xC0, 0x20, 23);
    proof {
        assert(t@ =~= old(t)@ + (fold_run(0x41, 0x20, 26) + seq![fe1(0xB5, '\u{3BC}')] + fold_run(0xC0, 0x20, 23)));
    }
    push_fold_run(t, 0xD8, 0x20, 7);
    proof {
        assert(t@ =~= old(t)@ + (fold_run(0x41, 0x20, 26) + seq![fe1(0xB5, '\u{3BC}')] + fold_run(0xC0, 0x20, 23) + fold_run(0xD8, 0x20, 7)));
    }
    t.push_entry(FoldEntry { key: 0xDF, count: 2, r0: '\u{73}', r1: '\u{73}', r2: '\u{0}', r3: '\u{0}' });
    proof {
        assert(t@ =~= old(t)@ + (fold_run(0x41, 0x20, 26) + seq![fe1(0xB5, '\u{3BC}')] + fold_run(0xC0, 0x20, 23) + fold_run(0xD8, 0x20, 7) + seq![fe2(0xDF, '\u{73}', '\u{73}')]));
    }
    proof {
        assert(t@ =~= old(t)@ + cf_latin_basic());
    }
}

/// Appends the case-fold mappings for the Latin Extended blocks, part 1.
#[verifier::rlimit(100)]
fn push_cf_latin_extended_0(t: &mut FoldTable)
    requires
        old(t).wf(),
        old(t)@.len() > 0 ==> old(t)@.last().key < 0x100,
    ensures
        final(t)@ == old(t)@ + cf_latin_extended_0(),
        final(t).wf(),
        final(t)@.last().key == 0x176,
{
    push_fold_run2(t, 0x100, 24);
    proof {
        assert(t@ =~= old(t)@ + (fold_run2(0x100, 24)));
    }
    t.push_entry(FoldEntry { key: 0x130, count: 2, r0: '\u{69}', r1: '\u{307}', r2: '\u{0}', r3: '\u{0}' });
    proof {
        assert(t@ =~= old(t)@ + (fold_run2(0x100, 24) + seq![fe2(0x130, '\u{69}', '\u{307}')]));
    }
    push_fold_run2(t, 0x132, 3);
    proof {
        assert(t@ =~= old(t)@ + (fold_run2(0x100, 24) + seq![fe2(0x130, '\u{69}', '\u{307}')] + fold_run2(0x132, 3)));
    }
    push_fold_run2(t, 0x139, 8);
    proof {
        assert(t@ =~= old(t)@ + (fold_run2(0x100, 24) + seq![fe2(0x130, '\u{69}', '\u{307}')] + fold_run2(0x132, 3) + fold_run2(0x139, 8)));
    }
    t.push_entry(FoldEntry { key: 0x149, count: 2, r0: '\u{2BC}', r1: '\u{6E}', r2: '\u{0}', r3: '\u{0}' });
    proof {
        assert(t@ =~= old(t)@ + (fold_run2(0x100, 24) + seq![fe2(0x130, '\u{69}', '\u{307}')] + fold_run2(0x132, 3) + fold_run2(0x139, 8) + seq![fe2(0x149, '\u{2BC}', '\u{6E}')]));
    }
    push_fold_run2(t, 0x14A, 23);
    proof {
        assert(t@ =~= old(t)@ + (fold_run2(0x100, 24) + seq![fe2(0x130, '\u{69}', '\u{307}')] + fold_run2(0x132, 3) + fold_run2(0x139, 8) + seq![fe2(0x149, '\u{2BC}', '\u{6E}')] + fold_run2(0x14A, 23)));
    }
    proof {
        assert(t@ =~= old(t)@ + cf_latin_extended_0());
    }
}

/// Appends the case-fold mappings for the Latin Extended blocks, part 2.
#[verifier::rlimit(100)]
fn push_cf_latin_extended_1(t: &mut FoldTable)
    requires
        old(t).wf(),
        old(t)@.len() > 0 ==> old(t)@.last().key < 0x178,
    ensures
        final(t)@ == old(t)@ + cf_latin_extended_1(),
        final(t).wf(),
        final(t)@.last().key == 0x184,
{
    t.push_entry(FoldEntry { key: 0x178, count: 1, r0: '\u{FF}', r1: '\u{0}', r2: '\u{0}', r3: '\u{0}' });
    proof {
        assert(t@ =~= old(t)@ + (seq![fe1(0x178, '\u{FF}')]));
    }
    push_fold_run2(t, 0x179, 3);
    proof {
        assert(t@ =~= old(t)@ + (seq![fe1(0x178, '\u{FF}')] + fold_run2(0x179, 3)));
    }
    t.push_entry(FoldEntry { key: 0x17F, count: 1, r0: '\u{73}', r1: '\u{0}', r2: '\u{0}', r3: '\u{0}' });
    proof {
        assert(t@ =~= old(t)@ + (seq![fe1(0x178, '\u{FF}')] + fold_run2(0x179, 3) + seq![fe1(0x17F, '\u{73}')]));
    }
    t.push_entry(FoldEntry { key: 0x181, count: 1, r0: '\u{253}', r1: '\u{0}', r2: '\u{0}', r3: '\u{0}' });
    proof {
        assert(t@ =~= old(t)@ + (seq![fe1(0x178, '\u{FF}')] + fold_run2(0x179, 3) + seq![fe1(0x17F, '\u{73}')] + seq![fe1(0x181, '\u{253}')]));
    }
    t.push_entry(FoldEntry { key: 0x182, count: 1, r0: '\u{183}', r1: '\u{0}', r2: '\u{0}', r3: '\u{0}' });
    proof {
        assert(t@ =~= old(t)@ + (seq![fe1(0x178, '\u{FF}')] + fold_run2(0x179, 3) + seq![fe1(0x17F, '\u{73}')] + seq![fe1(0x181, '\u{253}')] + seq![fe1(0x182, '\u{183}')]));
    }
    t.push_entry(FoldEntry { key: 0x184, count: 1, r0: '\u{185}', r1: '\u{0}', r2: '\u{0}', r3: '\u{0}' });
    proof {
        assert(t@ =~= old(t)@ + (seq![fe1(0x178, '\u{FF}')] + fold_run2(0x179, 3) + seq![fe1(0x17F, '\u{73}')] + seq![fe1(0x181, '\u{253}')] + seq![fe1(0x182, '\u{183}')] + seq![fe1(0x184, '\u{185}')]));
    }
    proof {
        assert(t@ =~= old(t)@ + cf_latin_extended_1());
    }
}

/// Appends the case-fold mappings for the Latin Extended blocks, part 3.
#[verifier::rlimit(100)]
fn push_cf_latin_extended_2(t: &mut FoldTable)
    requires
        old(t).wf(),
        old(t)@.len() > 0 ==> old(t)@.last().key < 0x186,
    ensures
        final(t)@ == old(t)@ + cf_latin_extended_2(),
        final(t).wf(),
        final(t)@.last().key == 0x18E,
{
    t.push_entry(FoldEntry { key: 0x186, count: 1, r0: '\u{254}', r1: '\u{0}', r2: '\u{0}', r3: '\u{0}' });
    proof {
        assert(t@ =~= old(t)@ + (seq![fe1(0x186, '\u{254}')]));
    }
    t.push_entry(FoldEntry { key: 0x187, count: 1, r0: '\u{188}', r1: '\u{0}', r2: '\u{0}', r3: '\u{0}' });
    proof {
        assert(t@ =~= old(t)@ + (seq![fe1(0x186, '\u{254}')] + seq![fe1(0x187, '\u{188}')]));
    }
    t.push_entry(FoldEntry { key: 0x189, count: 1, r0: '\u{256}', r1: '\u{0}', r2: '\u{0}', r3: '\u{0}' });
    proof {
        assert(t@ =~= old(t)@ + (seq![fe1(0x186, '\u{254}')] + seq![fe1(0x187, '\u{188}')] + seq![fe1(0x189, '\u{256}')]));
    }
    t.push_entry(FoldEntry { key: 0x18A, count: 1, r0: '\u{257}', r1: '\u{0}', r2: '\u{0}', r3: '\u{0}' });
    proof {
        assert(t@ =~= old(t)@ + (seq![fe1(0x186, '\u{254}')] + seq![fe1(0x187, '\u{188}')] + seq![fe1(0x189, '\u{256}')] + seq![fe1(0x18A, '\u{257}')]));
    }
    t.push_entry(FoldEntry { key: 0x18B, count: 1, r0: '\u{18C}', r1: '\u{0}', r2: '\u{0}', r3: '\u{0}' });
    proof {
        assert(t@ =~= old(t)@ + (seq![fe1(0x186, '\u{254}')] + seq![fe1(0x187, '\u{188}')] + seq![fe1(0x189, '\u{256}')] + seq![fe1(0x18A, '\u{257}')] + seq![fe1(0x18B, '\u{18C}')]));
    }
    t.push_entry(FoldEntry { key: 0x18E, count: 1, r0: '\u{1DD}', r1: '\u{0}', r2: '\u{0}', r3: '\u{0}' });
    proof {
        assert(t@ =~= old(t)@ + (seq![fe1(0x186, '\u{254}')] + seq![fe1(0x187, '\u{188}')] + seq![fe1(0x189, '\u{256}')] + seq![fe1(0x18A, '\u{257}')] + seq![fe1(0x18B, '\u{18C}')] + seq![fe1(0x18E, '\u{1DD}')]));
    }
    proof {
        assert(t@ =~= old(t)@ + cf_latin_extended_2());
    }
}

/// Appends the case-fold mappings for the Latin Extended blocks, part 4.
#[verifier::rlimit(100)]
fn push_cf_latin_extended_3(t: &mut FoldTable)
    requires
        old(t).wf(),
        old(t)@.len() > 0 ==> old(t)@.last().key < 0x18F,
    ensures
        final(t)@ == old(t)@ + cf_latin_extended_3(),
        final(t).wf(),
        final(t)@.last().key == 0x196,
{
    t.push_entry(FoldEntry { key: 0x18F, count: 1, r0: '\u{259}', r1: '\u{0}', r2: '\u{0}', r3: '\u{0}' });
    proof {
        assert(t@ =~= old(t)@ + (seq![fe1(0x18F, '\u{259}')]));
    }
    t.push_entry(FoldEntry { key: 0x190, count: 1, r0: '\u{25B}', r1: '\u{0}', r2: '\u{0}', r3: '\u{0}' });
    proof {
        assert(t@ =~= old(t)@ + (seq![fe1(0x18F, '\u{259}')] + seq![fe1(0x190, '\u{25B}')]));
    }
    t.push_entry(FoldEntry { key: 0x191, count: 1, r0: '\u{192}', r1: '\u{0}', r2: '\u{0}', r3: '\u{0}' });
    proof {
        assert(t@ =~= old(t)@ + (seq![fe1(0x18F, '\u{259}')] + seq![fe1(0x190, '\u{25B}')] + seq![fe1(0x191, '\u{192}')]));
    }
    t.push_entry(FoldEntry { key: 0x193, count: 1, r0: '\u{260}', r1: '\u{0}', r2: '\u{0}', r3: '\u{0}' });
    proof {
        assert(t@ =~= old(t)@ + (seq![fe1(0x18F, '\u{259}')] + seq![fe1(0x190, '\u{25B}')] + seq![fe1(0x191, '\u{192}')] + seq![fe1(0x193, '\u{260}')]));
    }
    t.push_entry(FoldEntry { key: 0x194, count: 1, r0: '\u{263}', r1: '\u{0}', r2: '\u{0}', r3: '\u{0}' });
    proof {
        assert(t@ =~= old(t)@ + (seq![fe1(0x18F, '\u{259}')] + seq![fe1(0x190, '\u{25B}')] + seq![fe1(0x191, '\u{192}')] + seq![fe1(0x193, '\u{260}')] + seq![fe1(0x194, '\u{263}')]));
    }
    t.push_entry(FoldEntry { key: 0x196, count: 1, r0: '\u{269}', r1: '\u{0}', r2: '\u{0}', r3: '\u{0}' });
    proof {
        assert(t@ =~= old(t)@ + (seq![fe1(0x18F, '\u{259}')] + seq![fe1(0x190, '\u{25B}')] + seq![fe1(0x191, '\u{192}')] + seq![fe1(0x193, '\u{260}')] + seq![fe1(0x194, '\u{263}')] + seq![fe1(0x196, '\u{269}')]));
    }
    proof {
        assert(t@ =~= old(t)@ + cf_latin_extended_3());
    }
}

/// Appends the case-fold mappings for the Latin Extended blocks, part 5.
#[verifier::rlimit(100)]
fn push_cf_latin_extended_4(t: &mut FoldTable)
    requires
        old(t).wf(),
        old(t)@.len() > 0 ==> old(t)@.last().key < 0x197,
    ensures
        final(t)@ == old(t)@ + cf_latin_extended_4(),
        final(t).wf(),
        final(t)@.last().key == 0x1A0,
{
    t.push_entry(FoldEntry { key: 0x197, count: 1, r0: '\u{268}', r1: '\u{0}', r2: '\u{0}', r3: '\u{0}' });
    proof {
        assert(t@ =~= old(t)@ + (seq![fe1(0x197, '\u{268}')]));
    }
    t.push_entry(FoldEntry { key: 0x198, count: 1, r0: '\u{199}', r1: '\u{0}', r2: '\u{0}', r3: '\u{0}' });
    proof {
        assert(t@ =~= old(t)@ + (seq![fe1(0x197, '\u{268}')] + seq![fe1(0x198, '\u{199}')]));
    }
    t.push_entry(FoldEntry { key: 0x19C, count: 1, r0: '\u{26F}', r1: '\u{0}', r2: '\u{0}', r3: '\u{0}' });
    proof {
        assert(t@ =~= old(t)@ + (seq![fe1(0x197, '\u{268}')] + seq![fe1(0x198, '\u{199}')] + seq![fe1(0x19C, '\u{26F}')]));
    }
    t.push_entry(FoldEntry { key: 0x19D, count: 1, r0: '\u{272}', r1: '\u{0}', r2: '\u{0}', r3: '\u{0}' });
    proof {
        assert(t@ =~= old(t)@ + (seq![fe1(0x197, '\u{268}')] + seq![fe1(0x198, '\u{199}')] + seq![fe1(0x19C, '\u{26F}')] + seq![fe1(0x19D, '\u{272}')]));
    }
    t.push_entry(FoldEntry { key: 0x19F, count: 1, r0: '\u{275}', r1: '\u{0}', r2: '\u{0}', r3: '\u{0}' });
    proof {
        assert(t@ =~= old(t)@ + (seq![fe1(0x197, '\u{268}')] + seq![fe1(0x198, '\u{199}')] + seq![fe1(0x19C, '\u{26F}')] + seq![fe1(0x19D, '\u{272}')] + seq![fe1(0x19F, '\u{275}')]));
    }
    t.push_entry(FoldEntry { key: 0x1A0, count: 1, r0: '\u{1A1}', r1: '\u{0}', r2: '\u{0}', r3: '\u{0}' });
    proof {
        assert(t@ =~= old(t)@ + (seq![fe1(0x197, '\u{268}')] + seq![fe1(0x198, '\u{199}')] + seq![fe1(0x19C, '\u{26F}')] + seq![fe1(0x19D, '\u{272}')] + seq![fe1(0x19F, '\u{275}')] + seq![fe1(0x1A0, '\u{1A1}')]));
    }
    proof {
        assert(t@ =~= old(t)@ + cf_latin_extended_4());
    }
}

/// Appends the case-fold mappings for the Latin Extended blocks, part 6.
#[verifier::rlimit(100)]
fn push_cf_latin_extended_5(t: &mut FoldTable)
    requires
        old(t).wf(),
        old(t)@.len() > 0 ==> old(t)@.last().key < 0x1A2,
    ensures
        final(t)@ == old(t)@ + cf_latin_extended_5(),
        final(t).wf(),
        final(t)@.last().key == 0x1AC,
{
    t.push_entry(FoldEntry { key: 0x1A2, count: 1, r0: '\u{1A3}', r1: '\u{0}', r2: '\u{0}', r3: '\u{0}' });
    proof {
        assert(t@ =~= old(t)@ + (seq![fe1(0x1A2, '\u{1A3}')]));
    }
    t.push_entry(FoldEntry { key: 0x1A4, count: 1, r0: '\u{1A5}', r1: '\u{0}', r2: '\u{0}', r3: '\u{0}' });
    proof {
        assert(t@ =~= old(t)@ + (seq![fe1(0x1A2, '\u{1A3}')] + seq![fe1(0x1A4, '\u{1A5}')]));
    }
    t.push_entry(FoldEntry { key: 0x1A6, count: 1, r0: '\u{280}', r1: '\u{0}', r2: '\u{0}', r3: '\u{0}' });
    proof {
        assert(t@ =~= old(t)@ + (seq![fe1(0x1A2, '\u{1A3}')] + seq![fe1(0x1A4, '\u{1A5}')] + seq![fe1(0x1A6, '\u{280}')]));
    }
    t.push_entry(FoldEntry { key: 0x1A7, count: 1, r0: '\u{1A8}', r1: '\u{0}', r2: '\u{0}', r3: '\u{0}' });
    proof {
        assert(t@ =~= old(t)@ + (seq![fe1(0x1A2, '\u{1A3}')] + seq![fe1(0x1A4, '\u{1A5}')] + seq![fe1(0x1A6, '\u{280}')] + seq![fe1(0x1A7, '\u{1A8}')]));
    }
    t.push_entry(FoldEntry { key: 0x1A9, count: 1, r0: '\u{283}', r1: '\u{0}', r2: '\u{0}', r3: '\u{0}' });
    proof {
        assert(t@ =~= old(t)@ + (seq![fe1(0x1A2, '\u{1A3}')] + seq![fe1(0x1A4, '\u{1A5}')] + seq![fe1(0x1A6, '\u{280}')] + seq![fe1(0x1A7, '\u{1A8}')] + seq![fe1(0x1A9, '\u{283}')]));
    }
    t.push_entry(FoldEntry { key: 0x1AC, count: 1, r0: '\u{1AD}', r1: '\u{0}', r2: '\u{0}', r3: '\u{0}' });
    proof {
        assert(t@ =~= old(t)@ + (seq![fe1(0x1A2, '\u{1A3}')] + seq![fe1(0x1A4, '\u{1A5}')] + seq![fe1(0x1A6, '\u{280}')] + seq![fe1(0x1A7, '\u{1A8}')] + seq![fe1(0x1A9, '\u{283}')] + seq![fe1(0x1AC, '\u{1AD}')]));
    }
    proof {
        assert(t@ =~= old(t)@ + cf_latin_extended_5());
    }
}

/// Appends the case-fold mappings for the Latin Extended blocks, part 7.
#[verifier::rlimit(100)]
fn push_cf_latin_extended_6(t: &mut FoldTable)
    requires
        old(t).wf(),
        old(t)@.len() > 0 ==> old(t)@.last().key < 0x1AE,
    ensures
        final(t)@ == old(t)@ + cf_latin_extended_6(),
        final(t).wf(),
        final(t)@.last().key == 0x1B5,
{
    t.push_entry(FoldEntry { key: 0x1AE, count: 1, r0: '\u{288}', r1: '\u{0}', r2: '\u{0}', r3: '\u{0}' });
    proof {
        assert(t@ =~= old(t)@ + (seq![fe1(0x1AE, '\u{288}')]));
    }
    t.push_entry(FoldEntry { key: 0x1AF, count: 1, r0: '\u{1B0}', r1: '\u{0}', r2: '\u{0}', r3: '\u{0}' });
    proof {
        assert(t@ =~= old(t)@ + (seq![fe1(0x1AE, '\u{288}')] + seq![fe1(0x1AF, '\u{1B0}')]));
    }
    t.push_entry(FoldEntry { key: 0x1B1, count: 1, r0: '\u{28A}', r1: '\u{0}', r2: '\u{0}', r3: '\u{0}' });
    proof {
        assert(t@ =~= old(t)@ + (seq![fe1(0x1AE, '\u{288}')] + seq![fe1(0x1AF, '\u{1B0}')] + seq![fe1(0x1B1, '\u{28A}')]));
    }
    t.push_entry(FoldEntry { key: 0x1B2, count: 1, r0: '\u{28B}', r1: '\u{0}', r2: '\u{0}', r3: '\u{0}' });
    proof {
        assert(t@ =~= old(t)@ + (seq![fe1(0x1AE, '\u{288}')] + seq![fe1(0x1AF, '\u{1B0}')] + seq![fe1(0x1B1, '\u{28A}')] + seq![fe1(0x1B2, '\u{28B}')]));
    }
    t.push_entry(FoldEntry { key: 0x1B3, count: 1, r0: '\u{1B4}', r1: '\u{0}', r2: '\u{0}', r3: '\u{0}' });
    proof {
        assert(t@ =~= old(t)@ + (seq![fe1(0x1AE, '\u{288}')] + seq![fe1(0x1AF, '\u{1B0}')] + seq![fe1(0x1B1, '\u{28A}')] + seq![fe1(0x1B2, '\u{28B}')] + seq![fe1(0x1B3, '\u{1B4}')]));
    }
    t.push_entry(FoldEntry { key: 0x1B5, count: 1, r0: '\u{1B6}', r1: '\u{0}', r2: '\u{0}', r3: '\u{0}' });
    proof {
        assert(t@ =~= old(t)@ + (seq![fe1(0x1AE, '\u{288}')] + seq![fe1(0x1AF, '\u{1B0}')] + seq![fe1(0x1B1, '\u{28A}')] + seq![fe1(0x1B2, '\u{28B}')] + seq![fe1(0x1B3, '\u{1B4}')] + seq![fe1(0x1B5, '\u{1B6}')]));
    }
    proof {
        assert(t@ =~= old(t)@ + cf_latin_extended_6());
    }
}

/// Appends the case-fold mappings for the Latin Extended blocks, part 8.
#[verifier::rlimit(100)]
fn push_cf_latin_extended_7(t: &mut FoldTable)
    requires
        old(t).wf(),
        old(t)@.len() > 0 ==> old(t)@.last().key < 0x1B7,
    ensures
        final(t)@ == old(t)@ + cf_latin_extended_7(),
        final(t).wf(),
        final(t)@.last().key == 0x1C7,
{
    t.push_entry(FoldEntry { key: 0x1B7, count: 1, r0: '\u{292}', r1: '\u{0}', r2: '\u{0}', r3: '\u{0}' });
    proof {
        assert(t@ =~= old(t)@ + (seq![fe1(0x1B7, '\u{292}')]));
    }
    t.push_entry(FoldEntry { key: 0x1B8, count: 1, r0: '\u{1B9}', r1: '\u{0}', r2: '\u{0}', r3: '\u{0}' });
    proof {
        assert(t@ =~= old(t)@ + (seq![fe1(0x1B7, '\u{292}')] + seq![fe1(0x1B8, '\u{1B9}')]));
    }
    t.push_entry(FoldEntry { key: 0x1BC, count: 1, r0: '\u{1BD}', r1: '\u{0}', r2: '\u{0}', r3: '\u{0}' });
    proof {
        assert(t@ =~= old(t)@ + (seq![fe1(0x1B7, '\u{292}')] + seq![fe1(0x1B8, '\u{1B9}')] + seq![fe1(0x1BC, '\u{1BD}')]));
    }
    t.push_entry(FoldEntry { key: 0x1C4, count: 1, r0: '\u{1C6}', r1: '\u{0}', r2: '\u{0}', r3: '\u{0}' });
    proof {
        assert(t@ =~= old(t)@ + (seq![fe1(0x1B7, '\u{292}')] + seq![fe1(0x1B8, '\u{1B9}')] + seq![fe1(0x1BC, '\u{1BD}')] + seq![fe1(0x1C4, '\u{1C6}')]));
    }
    t.push_entry(FoldEntry { key: 0x1C5, count: 1, r0: '\u{1C6}', r1: '\u{0}', r2: '\u{0}', r3: '\u{0}' });
    proof {
        assert(t@ =~= old(t)@ + (seq![fe1(0x1B7, '\u{292}')] + seq![fe1(0x1B8, '\u{1B9}')] + seq![fe1(0x1BC, '\u{1BD}')] + seq![fe1(0x1C4, '\u{1C6}')] + seq![fe1(0x1C5, '\u{1C6}')]));
    }
    t.push_entry(FoldEntry { key: 0x1C7, count: 1, r0: '\u{1C9}', r1: '\u{0}', r2: '\u{0}', r3: '\u{0}' });
    proof {
        assert(t@ =~= old(t)@ + (seq![fe1(0x1B7, '\u{292}')] + seq![fe1(0x1B8, '\u{1B9}')] + seq![fe1(0x1BC, '\u{1BD}')] + seq![fe1(0x1C4, '\u{1C6}')] + seq![fe1(0x1C5, '\u{1C6}')] + seq![fe1(0x1C7, '\u{1C9}')]));
    }
    proof {
        assert(t@ =~= old(t)@ + cf_latin_extended_7());
    }
}

/// Appends the case-fold mappings for the Latin Extended blocks, part 9.
#[verifier::rlimit(100)]
fn push_cf_latin_extended_8(t: &mut FoldTable)
    requires
        old(t).wf(),
        old(t)@.len() > 0 ==> old(t)@.last().key < 0x1C8,
    ensures
        final(t)@ == old(t)@ + cf_latin_extended_8(),
        final(t).wf(),
        final(t)@.last().key == 0x1F0,
{
    t.push_entry(FoldEntry { key: 0x1C8, count: 1, r0: '\u{1C9}', r1: '\u{0}', r2: '\u{0}', r3: '\u{0}' });
    proof {
        assert(t@ =~= old(t)@ + (seq![fe1(0x1C8, '\u{1C9}')]));
    }
    t.push_entry(FoldEntry { key: 0x1CA, count: 1, r0: '\u{1CC}', r1: '\u{0}', r2: '\u{0}', r3: '\u{0}' });
    proof {
        assert(t@ =~= old(t)@ + (seq![fe1(0x1C8, '\u{1C9}')] + seq![fe1(0x1CA, '\u{1CC}')]));
    }
    t.push_entry(FoldEntry { key: 0x1CB, count: 1, r0: '\u{1CC}', r1: '\u{0}', r2: '\u{0}', r3: '\u{0}' });
    proof {
        assert(t@ =~= old(t)@ + (seq![fe1(0x1C8, '\u{1C9}')] + seq![fe1(0x1CA, '\u{1CC}')] + seq![fe1(0x1CB, '\u{1CC}')]));
    }
    push_fold_run2(t, 0x1CD, 8);
    proof {
        assert(t@ =~= old(t)@ + (seq![fe1(0x1C8, '\u{1C9}')] + seq![fe1(0x1CA, '\u{1CC}')] + seq![fe1(0x1CB, '\u{1CC}')] + fold_run2(0x1CD, 8)));
    }
    push_fold_run2(t, 0x1DE, 9);
    proof {
        assert(t@ =~= old(t)@ + (seq![fe1(0x1C8, '\u{1C9}')] + seq![fe1(0x1CA, '\u{1CC}')] + seq![fe1(0x1CB, '\u{1CC}')] + fold_run2(0x1CD, 8) + fold_run2(0x1DE, 9)));
    }
    t.push_entry(FoldEntry { key: 0x1F0, count: 2, r0: '\u{6A}', r1: '\u{30C}', r2: '\u{0}', r3: '\u{0}' });
    proof {
        assert(t@ =~= old(t)@ + (seq![fe1(0x1C8, '\u{1C9}')] + seq![fe1(0x1CA, '\u{1CC}')] + seq![fe1(0x1CB, '\u{1CC}')] + fold_run2(0x1CD, 8) + fold_run2(0x1DE, 9) + seq![fe2(0x1F0, '\u{6A}', '\u{30C}')]));
    }
    proof {
        assert(t@ =~= old(t)@ + cf_latin_extended_8());
    }
}

/// Appends the case-fold mappings for the Latin Extended blocks, part 10.
#[verifier::rlimit(100)]
fn push_cf_latin_extended_9(t: &mut FoldTable)
    requires
        old(t).wf(),
        old(t)@.len() > 0 ==> old(t)@.last().key < 0x1F1,
    ensures
        final(t)@ == old(t)@ + cf_latin_extended_9(),
        final(t).wf(),
        final(t)@.last().key == 0x21E,
{
    t.push_entry(FoldEntry { key: 0x1F1, count: 1, r0: '\u{1F3}', r1: '\u{0}', r2: '\u{0}', r3: '\u{0}' });
    proof {
        assert(t@ =~= old(t)@ + (seq![fe1(0x1F1, '\u{1F3}')]));
    }
    t.push_entry(FoldEntry { key: 0x1F2, count: 1, r0: '\u{1F3}', r1: '\u{0}', r2: '\u{0}', r3: '\u{0}' });
    proof {
        assert(t@ =~= old(t)@ + (seq![fe1(0x1F1, '\u{1F3}')] + seq![fe1(0x1F2, '\u{1F3}')]));
    }
    t.push_entry(FoldEntry { key: 0x1F4, count: 1, r0: '\u{1F5}', r1: '\u{0}', r2: '\u{0}', r3: '\u{0}' });
    proof {
        assert(t@ =~= old(t)@ + (seq![fe1(0x1F1, '\u{1F3}')] + seq![fe1(0x1F2, '\u{1F3}')] + seq![fe1(0x1F4, '\u{1F5}')]));
    }
    t.push_entry(FoldEntry { key: 0x1F6, count: 1, r0: '\u{195}', r1: '\u{0}', r2: '\u{0}', r3: '\u{0}' });
    proof {
        assert(t@ =~= old(t)@ + (seq![fe1(0x1F1, '\u{1F3}')] + seq![fe1(0x1F2, '\u{1F3}')] + seq![fe1(0x1F4, '\u{1F5}')] + seq![fe1(0x1F6, '\u{195}')]));
    }
    t.push_entry(FoldEntry { key: 0x1F7, count: 1, r0: '\u{1BF}', r1: '\u{0}', r2: '\u{0}', r3: '\u{0}' });
    proof {
        assert(t@ =~= old(t)@ + (seq![fe1(0x1F1, '\u{1F3}')] + seq![fe1(0x1F2, '\u{1F3}')] + seq![fe1(0x1F4, '\u{1F5}')] + seq![fe1(0x1F6, '\u{195}')] + seq![fe1(0x1F7, '\u{1BF}')]));
    }
    push_fold_run2(t, 0x1F8, 20);
    proof {
        assert(t@ =~= old(t)@ + (seq![fe1(0x1F1, '\u{1F3}')] + seq![fe1(0x1F2, '\u{1F3}')] + seq![fe1(0x1F4, '\u{1F5}')] + seq![fe1(0x1F6, '\u{195}')] + seq![fe1(0x1F7, '\u{1BF}')] + fold_run2(0x1F8, 20)));
    }
    proof {
        assert(t@ =~= old(t)@ + cf_latin_extended_9());
    }
}

/// Appends the case-fold mappings for the Latin Extended blocks, part 11.
#[verifier::rlimit(100)]
fn push_cf_latin_extended_10(t: &mut FoldTable)
    requires
        old(t).wf(),
        old(t)@.len() > 0 ==> old(t)@.last().key < 0x222,
    ensures
        final(t)@ == old(t)@ + cf_latin_extended_10(),
        final(t).wf(),
        final(t)@.last().key == 0x232,
{
    push_fold_run2(t, 0x222, 9);
    proof {
        assert(t@ =~= old(t)@ + (fold_run2(0x222, 9)));
    }
    proof {
        assert(t@ =~= old(t)@ + cf_latin_extended_10());
    }
}

/// Appends the case-fold mappings for the Greek block, part 1.
#[verifier::rlimit(100)]
fn push_cf_greek_0(t: &mut FoldTable)
    requires
        old(t).wf(),
        old(t)@.len() > 0 ==> old(t)@.last().key < 0x345,
    ensures
        final(t)@ == old(t)@ + cf_greek_0(),
        final(t).wf(),
        final(t)@.last().key == 0x38C,
{
    t.push_entry(FoldEntry { key: 0x345, count: 1, r0: '\u{3B9}', r1: '\u{0}', r2: '\u{0}', r3: '\u{0}' });
    proof {
        assert(t@ =~= old(t)@ + (seq![fe1(0x345, '\u{3B9}')]));
    }
    t.push_entry(FoldEntry { key: 0x386, count: 1, r0: '\u{3AC}', r1: '\u{0}', r2: '\u{0}', r3: '\u{0}' });
    proof {
        assert(t@ =~= old(t)@ + (seq![fe1(0x345, '\u{3B9}')] + seq![fe1(0x386, '\u{3AC}')]));
    }
    t.push_entry(FoldEntry { key: 0x388, count: 1, r0: '\u{3AD}', r1: '\u{0}', r2: '\u{0}', r3: '\u{0}' });
    proof {
        assert(t@ =~= old(t)@ + (seq![fe1(0x345, '\u{3B9}')] + seq![fe1(0x386, '\u{3AC}')] + seq![fe1(0x388, '\u{3AD}')]));
    }
    t.push_entry(FoldEntry { key: 0x389, count: 1, r0: '\u{3AE}', r1: '\u{0}', r2: '\u{0}', r3: '\u{0}' });
    proof {
        assert(t@ =~= old(t)@ + (seq![fe1(0x345, '\u{3B9}')] + seq![fe1(0x386, '\u{3AC}')] + seq![fe1(0x388, '\u{3AD}')] + seq![fe1(0x389, '\u{3AE}')]));
    }
    t.push_entry(FoldEntry { key: 0x38A, count: 1, r0: '\u{3AF}', r1: '\u{0}', r2: '\u{0}', r3: '\u{0}' });
    proof {
        assert(t@ =~= old(t)@ + (seq![fe1(0x345, '\u{3B9}')] + seq![fe1(0x386, '\u{3AC}')] + seq![fe1(0x388, '\u{3AD}')] + seq![fe1(0x389, '\u{3AE}')] + seq![fe1(0x38A, '\u{3AF}')]));
    }
    t.push_entry(FoldEntry { key: 0x38C, count: 1, r0: '\u{3CC}', r1: '\u{0}', r2: '\u{0}', r3: '\u{0}' });
    proof {
        assert(t@ =~= old(t)@ + (seq![fe1(0x345, '\u{3B9}')] + seq![fe1(0x386, '\u{3AC}')] + seq![fe1(0x388, '\u{3AD}')] + seq![fe1(0x389, '\u{3AE}')] + seq![fe1(0x38A, '\u{3AF}')] + seq![fe1(0x38C, '\u{3CC}')]));
    }
    proof {
        assert(t@ =~= old(t)@ + cf_greek_0());
    }
}

/// Appends the case-fold mappings for the Greek block, part 2.
#[verifier::rlimit(100)]
fn push_cf_greek_1(t: &mut FoldTable)
    requires
        old(t).wf(),
        old(t)@.len() > 0 ==> old(t)@.last().key < 0x38E,
    ensures
        final(t)@ == old(t)@ + cf_greek_1(),
        final(t).wf(),
        final(t)@.last().key == 0x3B0,
{
    t.push_entry(FoldEntry { key: 0x38E, count: 1, r0: '\u{3CD}', r1: '\u{0}', r2: '\u{0}', r3: '\u{0}' });
    proof {
        assert(t@ =~= old(t)@ + (seq![fe1(0x38E, '\u{3CD}')]));
    }
    t.push_entry(FoldEntry { key: 0x38F, count: 1, r0: '\u{3CE}', r1: '\u{0}', r2: '\u{0}', r3: '\u{0}' });
    proof {
        assert(t@ =~= old(t)@ + (seq![fe1(0x38E, '\u{3CD}')] + seq![fe1(0x38F, '\u{3CE}')]));
    }
    t.push_entry(FoldEntry { key: 0x390, count: 3, r0: '\u{3B9}', r1: '\u{308}', r2: '\u{301}', r3: '\u{0}' });
    proof {
        assert(t@ =~= old(t)@ + (seq![fe1(0x38E, '\u{3CD}')] + seq![fe1(0x38F, '\u{3CE}')] + seq![fe3(0x390, '\u{3B9}', '\u{308}', '\u{301}')]));
    }
    push_fold_run(t, 0x391, 0x20, 17);
    proof {
        assert(t@ =~= old(t)@ + (seq![fe1(0x38E, '\u{3CD}')] + seq![fe1(0x38F, '\u{3CE}')] + seq![fe3(0x390, '\u{3B9}', '\u{308}', '\u{301}')] + fold_run(0x391, 0x20, 17)));
    }
    push_fold_run(t, 0x3A3, 0x20, 9);
    proof {
        assert(t@ =~= old(t)@ + (seq![fe1(0x38E, '\u{3CD}')] + seq![fe1(0x38F, '\u{3CE}')] + seq![fe3(0x390, '\u{3B9}', '\u{308}', '\u{301}')] + fold_run(0x391, 0x20, 17) + fold_run(0x3A3, 0x20, 9)));
    }
    t.push_entry(FoldEntry { key: 0x3B0, count: 3, r0: '\u{3C5}', r1: '\u{308}', r2: '\u{301}', r3: '\u{0}' });
    proof {
        assert(t@ =~= old(t)@ + (seq![fe1(0x38E, '\u{3CD}')] + seq![fe1(0x38F, '\u{3CE}')] + seq![fe3(0x390, '\u{3B9}', '\u{308}', '\u{301}')] + fold_run(0x391, 0x20, 17) + fold_run(0x3A3, 0x20, 9) + seq![fe3(0x3B0, '\u{3C5}', '\u{308}', '\u{301}')]));
    }
    proof {
        assert(t@ =~= old(t)@ + cf_greek_1());
    }
}

/// Appends the case-fold mappings for the Greek block, part 3.
#[verifier::rlimit(100)]
fn push_cf_greek_2(t: &mut FoldTable)
    requires
        old(t).wf(),
        old(t)@.len() > 0 ==> old(t)@.last().key < 0x3C2,
    ensures
        final(t)@ == old(t)@ + cf_greek_2(),
        final(t).wf(),
        final(t)@.last().key == 0x3D4,
{
    t.push_entry(FoldEntry { key: 0x3C2, count: 1, r0: '\u{3C3}', r1: '\u{0}', r2: '\u{0}', r3: '\u{0}' });
    proof {
        assert(t@ =~= old(t)@ + (seq![fe1(0x3C2, '\u{3C3}')]));
    }
    t.push_entry(FoldEntry { key: 0x3D0, count: 1, r0: '\u{3B2}', r1: '\u{0}', r2: '\u{0}', r3: '\u{0}' });
    proof {
        assert(t@ =~= old(t)@ + (seq![fe1(0x3C2, '\u{3C3}')] + seq![fe1(0x3D0, '\u{3B2}')]));
    }
    t.push_entry(FoldEntry { key: 0x3D1, count: 1, r0: '\u{3B8}', r1: '\u{0}', r2: '\u{0}', r3: '\u{0}' });
    proof {
        assert(t@ =~= old(t)@ + (seq![fe1(0x3C2, '\u{3C3}')] + seq![fe1(0x3D0, '\u{3B2}')] + seq![fe1(0x3D1, '\u{3B8}')]));
    }
    t.push_entry(FoldEntry { key: 0x3D2, count: 1, r0: '\u{3C5}', r1: '\u{0}', r2: '\u{0}', r3: '\u{0}' });
    proof {
        assert(t@ =~= old(t)@ + (seq![fe1(0x3C2, '\u{3C3}')] + seq![fe1(0x3D0, '\u{3B2}')] + seq![fe1(0x3D1, '\u{3B8}')] + seq![fe1(0x3D2, '\u{3C5}')]));
    }
    t.push_entry(FoldEntry { key: 0x3D3, count: 1, r0: '\u{3CD}', r1: '\u{0}', r2: '\u{0}', r3: '\u{0}' });
    proof {
        assert(t@ =~= old(t)@ + (seq![fe1(0x3C2, '\u{3C3}')] + seq![fe1(0x3D0, '\u{3B2}')] + seq![fe1(0x3D1, '\u{3B8}')] + seq![fe1(0x3D2, '\u{3C5}')] + seq![fe1(0x3D3, '\u{3CD}')]));
    }
    t.push_entry(FoldEntry { key: 0x3D4, count: 1, r0: '\u{3CB}', r1: '\u{0}', r2: '\u{0}', r3: '\u{0}' });
    proof {
        assert(t@ =~= old(t)@ + (seq![fe1(0x3C2, '\u{3C3}')] + seq![fe1(0x3D0, '\u{3B2}')] + seq![fe1(0x3D1, '\u{3B8}')] + seq![fe1(0x3D2, '\u{3C5}')] + seq![fe1(0x3D3, '\u{3CD}')] + seq![fe1(0x3D4, '\u{3CB}')]));
    }
    proof {
        assert(t@ =~= old(t)@ + cf_greek_2());
    }
}

/// Appends the case-fold mappings for the Greek block, part 4.
#[verifier::rlimit(100)]
fn push_cf_greek_3(t: &mut FoldTable)
    requires
        old(t).wf(),
        old(t)@.len() > 0 ==> old(t)@.last().key < 0x3D5,
    ensures
        final(t)@ == old(t)@ + cf_greek_3(),
        final(t).wf(),
        final(t)@.last().key == 0x3F2,
{
    t.push_entry(FoldEntry { key: 0x3D5, count: 1, r0: '\u{3C6}', r1: '\u{0}', r2: '\u{0}', r3: '\u{0}' });
    proof {
        assert(t@ =~= old(t)@ + (seq![fe1(0x3D5, '\u{3C6}')]));
    }
    t.push_entry(FoldEntry { key: 0x3D6, count: 1, r0: '\u{3C0}', r1: '\u{0}', r2: '\u{0}', r3: '\u{0}' });
    proof {
        assert(t@ =~= old(t)@ + (seq![fe1(0x3D5, '\u{3C6}')] + seq![fe1(0x3D6, '\u{3C0}')]));
    }
    push_fold_run2(t, 0x3DA, 11);
    proof {
        assert(t@ =~= old(t)@ + (seq![fe1(0x3D5, '\u{3C6}')] + seq![fe1(0x3D6, '\u{3C0}')] + fold_run2(0x3DA, 11)));
    }
    t.push_entry(FoldEntry { key: 0x3F0, count: 1, r0: '\u{3BA}', r1: '\u{0}', r2: '\u{0}', r3: '\u{0}' });
    proof {
        assert(t@ =~= old(t)@ + (seq![fe1(0x3D5, '\u{3C6}')] + seq![fe1(0x3D6, '\u{3C0}')] + fold_run2(0x3DA, 11) + seq![fe1(0x3F0, '\u{3BA}')]));
    }
    t.push_entry(FoldEntry { key: 0x3F1, count: 1, r0: '\u{3C1}', r1: '\u{0}', r2: '\u{0}', r3: '\u{0}' });
    proof {
        assert(t@ =~= old(t)@ + (seq![fe1(0x3D5, '\u{3C6}')] + seq![fe1(0x3D6, '\u{3C0}')] + fold_run2(0x3DA, 11) + seq![fe1(0x3F0, '\u{3BA}')] + seq![fe1(0x3F1, '\u{3C1}')]));
    }
    t.push_entry(FoldEntry { key: 0x3F2, count: 1, r0: '\u{3C3}', r1: '\u{0}', r2: '\u{0}', r3: '\u{0}' });
    proof {
        assert(t@ =~= old(t)@ + (seq![fe1(0x3D5, '\u{3C6}')] + seq![fe1(0x3D6, '\u{3C0}')] + fold_run2(0x3DA, 11) + seq![fe1(0x3F0, '\u{3BA}')] + seq![fe1(0x3F1, '\u{3C1}')] + seq![fe1(0x3F2, '\u{3C3}')]));
    }
    proof {
        assert(t@ =~= old(t)@ + cf_greek_3());
    }
}

/// Appends the case-fold mappings for the Greek block, part 5.
#[verifier::rlimit(100)]
fn push_cf_greek_4(t: &mut FoldTable)
    requires
        old(t).wf(),
        old(t)@.len() > 0 ==> old(t)@.last().key < 0x3F4,
    ensures
        final(t)@ == old(t)@ + cf_greek_4(),
        final(t).wf(),
        final(t)@.last().key == 0x3F5,
{
    t.push_entry(FoldEntry { key: 0x3F4, count: 1, r0: '\u{3B8}', r1: '\u{0}', r2: '\u{0}', r3: '\u{0}' });
    proof {
        assert(t@ =~= old(t)@ + (seq![fe1(0x3F4, '\u{3B8}')]));
    }
    t.push_entry(FoldEntry { key: 0x3F5, count: 1, r0: '\u{3B5}', r1: '\u{0}', r2: '\u{0}', r3: '\u{0}' });
    proof {
        assert(t@ =~= old(t)@ + (seq![fe1(0x3F4, '\u{3B8}')] + seq![fe1(0x3F5, '\u{3B5}')]));
    }
    proof {
        assert(t@ =~= old(t)@ + cf_greek_4());
    }
}

/// Appends the case-fold mappings for the Cyrillic block, part 1.
#[verifier::rlimit(100)]
fn push_cf_cyrillic_0(t: &mut FoldTable)
    requires
        old(t).wf(),
        old(t)@.len() > 0 ==> old(t)@.last().key < 0x400,
    ensures
        final(t)@ == old(t)@ + cf_cyrillic_0(),
        final(t).wf(),
        final(t)@.last().key == 0x4C1,
{
    push_fold_run(t, 0x400, 0x50, 16);
    proof {
        assert(t@ =~= old(t)@ + (fold_run(0x400, 0x50, 16)));
    }
    push_fold_run(t, 0x410, 0x20, 32);
    proof {
        assert(t@ =~= old(t)@ + (fold_run(0x400, 0x50, 16) + fold_run(0x410, 0x20, 32)));
    }
    push_fold_run2(t, 0x460, 17);
    proof {
        assert(t@ =~= old(t)@ + (fold_run(0x400, 0x50, 16) + fold_run(0x410, 0x20, 32) + fold_run2(0x460, 17)));
    }
    push_fold_run2(t, 0x48A, 27);
    proof {
        assert(t@ =~= old(t)@ + (fold_run(0x400, 0x50, 16) + fold_run(0x410, 0x20, 32) + fold_run2(0x460, 17) + fold_run2(0x48A, 27)));
    }
    t.push_entry(FoldEntry { key: 0x4C1, count: 1, r0: '\u{4C2}', r1: '\u{0}', r2: '\u{0}', r3: '\u{0}' });
    proof {
        assert(t@ =~= old(t)@ + (fold_run(0x400, 0x50, 16) + fold_run(0x410, 0x20, 32) + fold_run2(0x460, 17) + fold_run2(0x48A, 27) + seq![fe1(0x4C1, '\u{4C2}')]));
    }
    proof {
        assert(t@ =~= old(t)@ + cf_cyrillic_0());
    }
}

/// Appends the case-fold mappings for the Cyrillic block, part 2.
#[verifier::rlimit(100)]
fn push_cf_cyrillic_1(t: &mut FoldTable)
    requires
        old(t).wf(),
        old(t)@.len() > 0 ==> old(t)@.last().key < 0x4C3,
    ensures
        final(t)@ == old(t)@ + cf_cyrillic_1(),
        final(t).wf(),
        final(t)@.last().key == 0x4F8,
{
    t.push_entry(FoldEntry { key: 0x4C3, count: 1, r0: '\u{4C4}', r1: '\u{0}', r2: '\u{0}', r3: '\u{0}' });
    proof {
        assert(t@ =~= old(t)@ + (seq![fe1(0x4C3, '\u{4C4}')]));
    }
    t.push_entry(FoldEntry { key: 0x4C7, count: 1, r0: '\u{4C8}', r1: '\u{0}', r2: '\u{0}', r3: '\u{0}' });
    proof {
        assert(t@ =~= old(t)@ + (seq![fe1(0x4C3, '\u{4C4}')] + seq![fe1(0x4C7, '\u{4C8}')]));
    }
    t.push_entry(FoldEntry { key: 0x4CB, count: 1, r0: '\u{4CC}', r1: '\u{0}', r2: '\u{0}', r3: '\u{0}' });
    proof {
        assert(t@ =~= old(t)@ + (seq![fe1(0x4C3, '\u{4C4}')] + seq![fe1(0x4C7, '\u{4C8}')] + seq![fe1(0x4CB, '\u{4CC}')]));
    }
    push_fold_run2(t, 0x4D0, 19);
    proof {
        assert(t@ =~= old(t)@ + (seq![fe1(0x4C3, '\u{4C4}')] + seq![fe1(0x4C7, '\u{4C8}')] + seq![fe1(0x4CB, '\u{4CC}')] + fold_run2(0x4D0, 19)));
    }
    t.push_entry(FoldEntry { key: 0x4F8, count: 1, r0: '\u{4F9}', r1: '\u{0}', r2: '\u{0}', r3: '\u{0}' });
    proof {
        assert(t@ =~= old(t)@ + (seq![fe1(0x4C3, '\u{4C4}')] + seq![fe1(0x4C7, '\u{4C8}')] + seq![fe1(0x4CB, '\u{4CC}')] + fold_run2(0x4D0, 19) + seq![fe1(0x4F8, '\u{4F9}')]));
    }
    proof {
        assert(t@ =~= old(t)@ + cf_cyrillic_1());
    }
}

/// Appends the case-fold mappings for the Armenian block.
#[verifier::rlimit(100)]
fn push_cf_armenian(t: &mut FoldTable)
    requires
        old(t).wf(),
        old(t)@.len() > 0 ==> old(t)@.last().key < 0x531,
    ensures
        final(t)@ == old(t)@ + cf_armenian(),
        final(t).wf(),
        final(t)@.last().key == 0x587,
{
    push_fold_run(t, 0x531, 0x30, 38);
    proof {
        assert(t@ =~= old(t)@ + (fold_run(0x531, 0x30, 38)));
    }
    t.push_entry(FoldEntry { key: 0x587, count: 2, r0: '\u{565}', r1: '\u{582}', r2: '\u{0}', r3: '\u{0}' });
    proof {
        assert(t@ =~= old(t)@ + (fold_run(0x531, 0x30, 38) + seq![fe2(0x587, '\u{565}', '\u{582}')]));
    }
    proof {
        assert(t@ =~= old(t)@ + cf_armenian());
    }
}

/// Appends the case-fold mappings for the Latin Extended Additional block, part 1.
#[verifier::rlimit(100)]
fn push_cf_latin_additional_0(t: &mut FoldTable)
    requires
        old(t).wf(),
        old(t)@.len() > 0 ==> old(t)@.last().key < 0x1E00,
    ensures
        final(t)@ == old(t)@ + cf_latin_additional_0(),
        final(t).wf(),
        final(t)@.last().key == 0x1E98,
{
    push_fold_run2(t, 0x1E00, 75);
    proof {
        assert(t@ =~= old(t)@ + (fold_run2(0x1E00, 75)));
    }
    t.push_entry(FoldEntry { key: 0x1E96, count: 2, r0: '\u{68}', r1: '\u{331}', r2: '\u{0}', r3: '\u{0}' });
    proof {
        assert(t@ =~= old(t)@ + (fold_run2(0x1E00, 75) + seq![fe2(0x1E96, '\u{68}', '\u{331}')]));
    }
    t.push_entry(FoldEntry { key: 0x1E97, count: 2, r0: '\u{74}', r1: '\u{308}', r2: '\u{0}', r3: '\u{0}' });
    proof {
        assert(t@ =~= old(t)@ + (fold_run2(0x1E00, 75) + seq![fe2(0x1E96, '\u{68}', '\u{331}')] + seq![fe2(0x1E97, '\u{74}', '\u{308}')]));
    }
    t.push_entry(FoldEntry { key: 0x1E98, count: 2, r0: '\u{77}', r1: '\u{30A}', r2: '\u{0}', r3: '\u{0}' });
    proof {
        assert(t@ =~= old(t)@ + (fold_run2(0x1E00, 75) + seq![fe2(0x1E96, '\u{68}', '\u{331}')] + seq![fe2(0x1E97, '\u{74}', '\u{308}')] + seq![fe2(0x1E98, '\u{77}', '\u{30A}')]));
    }
    proof {
        assert(t@ =~= old(t)@ + cf_latin_additional_0());
    }
}

/// Appends the case-fold mappings for the Latin Extended Additional block, part 2.
#[verifier::rlimit(100)]
fn push_cf_latin_additional_1(t: &mut FoldTable)
    requires
        old(t).wf(),
        old(t)@.len() > 0 ==> old(t)@.last().key < 0x1E99,
    ensures
        final(t)@ == old(t)@ + cf_latin_additional_1(),
        final(t).wf(),
        final(t)@.last().key == 0x1EF8,
{
    t.push_entry(FoldEntry { key: 0x1E99, count: 2, r0: '\u{79}', r1: '\u{30A}', r2: '\u{0}', r3: '\u{0}' });
    proof {
        assert(t@ =~= old(t)@ + (seq![fe2(0x1E99, '\u{79}', '\u{30A}')]));
    }
    t.push_entry(FoldEntry { key: 0x1E9A, count: 2, r0: '\u{61}', r1: '\u{2BE}', r2: '\u{0}', r3: '\u{0}' });
    proof {
        assert(t@ =~= old(t)@ + (seq![fe2(0x1E99, '\u{79}', '\u{30A}')] + seq![fe2(0x1E9A, '\u{61}', '\u{2BE}')]));
    }
    t.push_entry(FoldEntry { key: 0x1E9B, count: 1, r0: '\u{1E61}', r1: '\u{0}', r2: '\u{0}', r3: '\u{0}' });
    proof {
        assert(t@ =~= old(t)@ + (seq![fe2(0x1E99, '\u{79}', '\u{30A}')] + seq![fe2(0x1E9A, '\u{61}', '\u{2BE}')] + seq![fe1(0x1E9B, '\u{1E61}')]));
    }
    push_fold_run2(t, 0x1EA0, 45);
    proof {
        assert(t@ =~= old(t)@ + (seq![fe2(0x1E99, '\u{79}', '\u{30A}')] + seq![fe2(0x1E9A, '\u{61}', '\u{2BE}')] + seq![fe1(0x1E9B, '\u{1E61}')] + fold_run2(0x1EA0, 45)));
    }
    proof {
        assert(t@ =~= old(t)@ + cf_latin_additional_1());
    }
}

/// Appends the case-fold mappings for the Greek Extended block, part 1.
#[verifier::rlimit(100)]
fn push_cf_greek_extended_0(t: &mut FoldTable)
    requires
        old(t).wf(),
        old(t)@.len() > 0 ==> old(t)@.last().key < 0x1F08,
    ensures
        final(t)@ == old(t)@ + cf_greek_extended_0(),
        final(t).wf(),
        final(t)@.last().key == 0x1F50,
{
    push_fold_run_down(t, 0x1F08, 0x8, 8);
    proof {
        assert(t@ =~= old(t)@ + (fold_run(0x1F08, -0x8, 8)));
    }
    push_fold_run_down(t, 0x1F18, 0x8, 6);
    proof {
        assert(t@ =~= old(t)@ + (fold_run(0x1F08, -0x8, 8) + fold_run(0x1F18, -0x8, 6)));
    }
    push_fold_run_down(t, 0x1F28, 0x8, 8);
    proof {
        assert(t@ =~= old(t)@ + (fold_run(0x1F08, -0x8, 8) + fold_run(0x1F18, -0x8, 6) + fold_run(0x1F28, -0x8, 8)));
    }
    push_fold_run_down(t, 0x1F38, 0x8, 8);
    proof {
        assert(t@ =~= old(t)@ + (fold_run(0x1F08, -0x8, 8) + fold_run(0x1F18, -0x8, 6) + fold_run(0x1F28, -0x8, 8) + fold_run(0x1F38, -0x8, 8)));
    }
    push_fold_run_down(t, 0x1F48, 0x8, 6);
    proof {
        assert(t@ =~= old(t)@ + (fold_run(0x1F08, -0x8, 8) + fold_run(0x1F18, -0x8, 6) + fold_run(0x1F28, -0x8, 8) + fold_run(0x1F38, -0x8, 8) + fold_run(0x1F48, -0x8, 6)));
    }
    t.push_entry(FoldEntry { key: 0x1F50, count: 2, r0: '\u{3C5}', r1: '\u{313}', r2: '\u{0}', r3: '\u{0}' });
    proof {
        assert(t@ =~= old(t)@ + (fold_run(0x1F08, -0x8, 8) + fold_run(0x1F18, -0x8, 6) + fold_run(0x1F28, -0x8, 8) + fold_run(0x1F38, -0x8, 8) + fold_run(0x1F48, -0x8, 6) + seq![fe2(0x1F50, '\u{3C5}', '\u{313}')]));
    }
    proof {
        assert(t@ =~= old(t)@ + cf_greek_extended_0());
    }
}

/// Appends the case-fold mappings for the Greek Extended block, part 2.
#[verifier::rlimit(100)]
fn push_cf_greek_extended_1(t: &mut FoldTable)
    requires
        old(t).wf(),
        old(t)@.len() > 0 ==> old(t)@.last().key < 0x1F52,
    ensures
        final(t)@ == old(t)@ + cf_greek_extended_1(),
        final(t).wf(),
        final(t)@.last().key == 0x1F5D,
{
    t.push_entry(FoldEntry { key: 0x1F52, count: 3, r0: '\u{3C5}', r1: '\u{313}', r2: '\u{300}', r3: '\u{0}' });
    proof {
        assert(t@ =~= old(t)@ + (seq![fe3(0x1F52, '\u{3C5}', '\u{313}', '\u{300}')]));
    }
    t.push_entry(FoldEntry { key: 0x1F54, count: 3, r0: '\u{3C5}', r1: '\u{313}', r2: '\u{301}', r3: '\u{0}' });
    proof {
        assert(t@ =~= old(t)@ + (seq![fe3(0x1F52, '\u{3C5}', '\u{313}', '\u{300}')] + seq![fe3(0x1F54, '\u{3C5}', '\u{313}', '\u{301}')]));
    }
    t.push_entry(FoldEntry { key: 0x1F56, count: 3, r0: '\u{3C5}', r1: '\u{313}', r2: '\u{342}', r3: '\u{0}' });
    proof {
        assert(t@ =~= old(t)@ + (seq![fe3(0x1F52, '\u{3C5}', '\u{313}', '\u{300}')] + seq![fe3(0x1F54, '\u{3C5}', '\u{313}', '\u{301}')] + seq![fe3(0x1F56, '\u{3C5}', '\u{313}', '\u{342}')]));
    }
    t.push_entry(FoldEntry { key: 0x1F59, count: 1, r0: '\u{1F51}', r1: '\u{0}', r2: '\u{0}', r3: '\u{0}' });
    proof {
        assert(t@ =~= old(t)@ + (seq![fe3(0x1F52, '\u{3C5}', '\u{313}', '\u{300}')] + seq![fe3(0x1F54, '\u{3C5}', '\u{313}', '\u{301}')] + seq![fe3(0x1F56, '\u{3C5}', '\u{313}', '\u{342}')] + seq![fe1(0x1F59, '\u{1F51}')]));
    }
    t.push_entry(FoldEntry { key: 0x1F5B, count: 1, r0: '\u{1F53}', r1: '\u{0}', r2: '\u{0}', r3: '\u{0}' });
    proof {
        assert(t@ =~= old(t)@ + (seq![fe3(0x1F52, '\u{3C5}', '\u{313}', '\u{300}')] + seq![fe3(0x1F54, '\u{3C5}', '\u{313}', '\u{301}')] + seq![fe3(0x1F56, '\u{3C5}', '\u{313}', '\u{342}')] + seq![fe1(0x1F59, '\u{1F51}')] + seq![fe1(0x1F5B, '\u{1F53}')]));
    }
    t.push_entry(FoldEntry { key: 0x1F5D, count: 1, r0: '\u{1F55}', r1: '\u{0}', r2: '\u{0}', r3: '\u{0}' });
    proof {
        assert(t@ =~= old(t)@ + (seq![fe3(0x1F52, '\u{3C5}', '\u{313}', '\u{300}')] + seq![fe3(0x1F54, '\u{3C5}', '\u{313}', '\u{301}')] + seq![fe3(0x1F56, '\u{3C5}', '\u{313}', '\u{342}')] + seq![fe1(0x1F59, '\u{1F51}')] + seq![fe1(0x1F5B, '\u{1F53}')] + seq![fe1(0x1F5D, '\u{1F55}')]));
    }
    proof {
        assert(t@ =~= old(t)@ + cf_greek_extended_1());
    }
}

/// Appends the case-fold mappings for the Greek Extended block, part 3.
#[verifier::rlimit(100)]
fn push_cf_greek_extended_2(t: &mut FoldTable)
    requires
        old(t).wf(),
        old(t)@.len() > 0 ==> old(t)@.last().key < 0x1F5F,
    ensures
        final(t)@ == old(t)@ + cf_greek_extended_2(),
        final(t).wf(),
        final(t)@.last().key == 0x1F9F,
{
    t.push_entry(FoldEntry { key: 0x1F5F, count: 1, r0: '\u{1F57}', r1: '\u{0}', r2: '\u{0}', r3: '\u{0}' });
    proof {
        assert(t@ =~= old(t)@ + (seq![fe1(0x1F5F, '\u{1F57}')]));
    }
    push_fold_run_down(t, 0x1F68, 0x8, 8);
    proof {
        assert(t@ =~= old(t)@ + (seq![fe1(0x1F5F, '\u{1F57}')] + fold_run(0x1F68, -0x8, 8)));
    }
    push_fold_run_iota(t, 0x1F80, 0x1F00, 8);
    proof {
        assert(t@ =~= old(t)@ + (seq![fe1(0x1F5F, '\u{1F57}')] + fold_run(0x1F68, -0x8, 8) + fold_run_iota(0x1F80, 0x1F00, 8)));
    }
    push_fold_run_iota(t, 0x1F88, 0x1F00, 8);
    proof {
        assert(t@ =~= old(t)@ + (seq![fe1(0x1F5F, '\u{1F57}')] + fold_run(0x1F68, -0x8, 8) + fold_run_iota(0x1F80, 0x1F00, 8) + fold_run_iota(0x1F88, 0x1F00, 8)));
    }
    push_fold_run_iota(t, 0x1F90, 0x1F20, 8);
    proof {
        assert(t@ =~= old(t)@ + (seq![fe1(0x1F5F, '\u{1F57}')] + fold_run(0x1F68, -0x8, 8) + fold_run_iota(0x1F80, 0x1F00, 8) + fold_run_iota(0x1F88, 0x1F00, 8) + fold_run_iota(0x1F90, 0x1F20, 8)));
    }
    push_fold_run_iota(t, 0x1F98, 0x1F20, 8);
    proof {
        assert(t@ =~= old(t)@ + (seq![fe1(0x1F5F, '\u{1F57}')] + fold_run(0x1F68, -0x8, 8) + fold_run_iota(0x1F80, 0x1F00, 8) + fold_run_iota(0x1F88, 0x1F00, 8) + fold_run_iota(0x1F90, 0x1F20, 8) + fold_run_iota(0x1F98, 0x1F20, 8)));
    }
    proof {
        assert(t@ =~= old(t)@ + cf_greek_extended_2());
    }
}

/// Appends the case-fold mappings for the Greek Extended block, part 4.
#[verifier::rlimit(100)]
fn push_cf_greek_extended_3(t: &mut FoldTable)
    requires
        old(t).wf(),
        old(t)@.len() > 0 ==> old(t)@.last().key < 0x1FA0,
    ensures
        final(t)@ == old(t)@ + cf_greek_extended_3(),
        final(t).wf(),
        final(t)@.last().key == 0x1FB6,
{
    push_fold_run_iota(t, 0x1FA0, 0x1F60, 8);
    proof {
        assert(t@ =~= old(t)@ + (fold_run_iota(0x1FA0, 0x1F60, 8)));
    }
    push_fold_run_iota(t, 0x1FA8, 0x1F60, 8);
    proof {
        assert(t@ =~= old(t)@ + (fold_run_iota(0x1FA0, 0x1F60, 8) + fold_run_iota(0x1FA8, 0x1F60, 8)));
    }
    t.push_entry(FoldEntry { key: 0x1FB2, count: 2, r0: '\u{1F70}', r1: '\u{3B9}', r2: '\u{0}', r3: '\u{0}' });
    proof {
        assert(t@ =~= old(t)@ + (fold_run_iota(0x1FA0, 0x1F60, 8) + fold_run_iota(0x1FA8, 0x1F60, 8) + seq![fe2(0x1FB2, '\u{1F70}', '\u{3B9}')]));
    }
    t.push_entry(FoldEntry { key: 0x1FB3, count: 2, r0: '\u{3B1}', r1: '\u{3B9}', r2: '\u{0}', r3: '\u{0}' });
    proof {
        assert(t@ =~= old(t)@ + (fold_run_iota(0x1FA0, 0x1F60, 8) + fold_run_iota(0x1FA8, 0x1F60, 8) + seq![fe2(0x1FB2, '\u{1F70}', '\u{3B9}')] + seq![fe2(0x1FB3, '\u{3B1}', '\u{3B9}')]));
    }
    t.push_entry(FoldEntry { key: 0x1FB4, count: 2, r0: '\u{3AC}', r1: '\u{3B9}', r2: '\u{0}', r3: '\u{0}' });
    proof {
        assert(t@ =~= old(t)@ + (fold_run_iota(0x1FA0, 0x1F60, 8) + fold_run_iota(0x1FA8, 0x1F60, 8) + seq![fe2(0x1FB2, '\u{1F70}', '\u{3B9}')] + seq![fe2(0x1FB3, '\u{3B1}', '\u{3B9}')] + seq![fe2(0x1FB4, '\u{3AC}', '\u{3B9}')]));
    }
    t.push_entry(FoldEntry { key: 0x1FB6, count: 2, r0: '\u{3B1}', r1: '\u{342}', r2: '\u{0}', r3: '\u{0}' });
    proof {
        assert(t@ =~= old(t)@ + (fold_run_iota(0x1FA0, 0x1F60, 8) + fold_run_iota(0x1FA8, 0x1F60, 8) + seq![fe2(0x1FB2, '\u{1F70}', '\u{3B9}')] + seq![fe2(0x1FB3, '\u{3B1}', '\u{3B9}')] + seq![fe2(0x1FB4, '\u{3AC}', '\u{3B9}')] + seq![fe2(0x1FB6, '\u{3B1}', '\u{342}')]));
    }
    proof {
        assert(t@ =~= old(t)@ + cf_greek_extended_3());
    }
}

/// Appends the case-fold mappings for the Greek Extended block, part 5.
#[verifier::rlimit(100)]
fn push_cf_greek_extended_4(t: &mut FoldTable)
    requires
        old(t).wf(),
        old(t)@.len() > 0 ==> old(t)@.last().key < 0x1FB7,
    ensures
        final(t)@ == old(t)@ + cf_greek_extended_4(),
        final(t).wf(),
        final(t)@.last().key == 0x1FBC,
{
    t.push_entry(FoldEntry { key: 0x1FB7, count: 3, r0: '\u{3B1}', r1: '\u{342}', r2: '\u{3B9}', r3: '\u{0}' });
    proof {
        assert(t@ =~= old(t)@ + (seq![fe3(0x1FB7, '\u{3B1}', '\u{342}', '\u{3B9}')]));
    }
    t.push_entry(FoldEntry { key: 0x1FB8, count: 1, r0: '\u{1FB0}', r1: '\u{0}', r2: '\u{0}', r3: '\u{0}' });
    proof {
        assert(t@ =~= old(t)@ + (seq![fe3(0x1FB7, '\u{3B1}', '\u{342}', '\u{3B9}')] + seq![fe1(0x1FB8, '\u{1FB0}')]));
    }
    t.push_entry(FoldEntry { key: 0x1FB9, count: 1, r0: '\u{1FB1}', r1: '\u{0}', r2: '\u{0}', r3: '\u{0}' });
    proof {
        assert(t@ =~= old(t)@ + (seq![fe3(0x1FB7, '\u{3B1}', '\u{342}', '\u{3B9}')] + seq![fe1(0x1FB8, '\u{1FB0}')] + seq![fe1(0x1FB9, '\u{1FB1}')]));
    }
    t.push_entry(FoldEntry { key: 0x1FBA, count: 1, r0: '\u{1F70}', r1: '\u{0}', r2: '\u{0}', r3: '\u{0}' });
    proof {
        assert(t@ =~= old(t)@ + (seq![fe3(0x1FB7, '\u{3B1}', '\u{342}', '\u{3B9}')] + seq![fe1(0x1FB8, '\u{1FB0}')] + seq![fe1(0x1FB9, '\u{1FB1}')] + seq![fe1(0x1FBA, '\u{1F70}')]));
    }
    t.push_entry(FoldEntry { key: 0x1FBB, count: 1, r0: '\u{1F71}', r1: '\u{0}', r2: '\u{0}', r3: '\u{0}' });
    proof {
        assert(t@ =~= old(t)@ + (seq![fe3(0x1FB7, '\u{3B1}', '\u{342}', '\u{3B9}')] + seq![fe1(0x1FB8, '\u{1FB0}')] + seq![fe1(0x1FB9, '\u{1FB1}')] + seq![fe1(0x1FBA, '\u{1F70}')] + seq![fe1(0x1FBB, '\u{1F71}')]));
    }
    t.push_entry(FoldEntry { key: 0x1FBC, count: 2, r0: '\u{3B1}', r1: '\u{3B9}', r2: '\u{0}', r3: '\u{0}' });
    proof {
        assert(t@ =~= old(t)@ + (seq![fe3(0x1FB7, '\u{3B1}', '\u{342}', '\u{3B9}')] + seq![fe1(0x1FB8, '\u{1FB0}')] + seq![fe1(0x1FB9, '\u{1FB1}')] + seq![fe1(0x1FBA, '\u{1F70}')] + seq![fe1(0x1FBB, '\u{1F71}')] + seq![fe2(0x1FBC, '\u{3B1}', '\u{3B9}')]));
    }
    proof {
        assert(t@ =~= old(t)@ + cf_greek_extended_4());
    }
}

/// Appends the case-fold mappings for the Greek Extended block, part 6.
#[verifier::rlimit(100)]
fn push_cf_greek_extended_5(t: &mut FoldTable)
    requires
        old(t).wf(),
        old(t)@.len() > 0 ==> old(t)@.last().key < 0x1FBE,
    ensures
        final(t)@ == old(t)@ + cf_greek_extended_5(),
        final(t).wf(),
        final(t)@.last().key == 0x1FC7,
{
    t.push_entry(FoldEntry { key: 0x1FBE, count: 1, r0: '\u{3B9}', r1: '\u{0}', r2: '\u{0}', r3: '\u{0}' });
    proof {
        assert(t@ =~= old(t)@ + (seq![fe1(0x1FBE, '\u{3B9}')]));
    }
    t.push_entry(FoldEntry { key: 0x1FC2, count: 2, r0: '\u{1F74}', r1: '\u{3B9}', r2: '\u{0}', r3: '\u{0}' });
    proof {
        assert(t@ =~= old(t)@ + (seq![fe1(0x1FBE, '\u{3B9}')] + seq![fe2(0x1FC2, '\u{1F74}', '\u{3B9}')]));
    }
    t.push_entry(FoldEntry { key: 0x1FC3, count: 2, r0: '\u{3B7}', r1: '\u{3B9}', r2: '\u{0}', r3: '\u{0}' });
    proof {
        assert(t@ =~= old(t)@ + (seq![fe1(0x1FBE, '\u{3B9}')] + seq![fe2(0x1FC2, '\u{1F74}', '\u{3B9}')] + seq![fe2(0x1FC3, '\u{3B7}', '\u{3B9}')]));
    }
    t.push_entry(FoldEntry { key: 0x1FC4, count: 2, r0: '\u{3AE}', r1: '\u{3B9}', r2: '\u{0}', r3: '\u{0}' });
    proof {
        assert(t@ =~= old(t)@ + (seq![fe1(0x1FBE, '\u{3B9}')] + seq![fe2(0x1FC2, '\u{1F74}', '\u{3B9}')] + seq![fe2(0x1FC3, '\u{3B7}', '\u{3B9}')] + seq![fe2(0x1FC4, '\u{3AE}', '\u{3B9}')]));
    }
    t.push_entry(FoldEntry { key: 0x1FC6, count: 2, r0: '\u{3B7}', r1: '\u{342}', r2: '\u{0}', r3: '\u{0}' });
    proof {
        assert(t@ =~= old(t)@ + (seq![fe1(0x1FBE, '\u{3B9}')] + seq![fe2(0x1FC2, '\u{1F74}', '\u{3B9}')] + seq![fe2(0x1FC3, '\u{3B7}', '\u{3B9}')] + seq![fe2(0x1FC4, '\u{3AE}', '\u{3B9}')] + seq![fe2(0x1FC6, '\u{3B7}', '\u{342}')]));
    }
    t.push_entry(FoldEntry { key: 0x1FC7, count: 3, r0: '\u{3B7}', r1: '\u{342}', r2: '\u{3B9}', r3: '\u{0}' });
    proof {
        assert(t@ =~= old(t)@ + (seq![fe1(0x1FBE, '\u{3B9}')] + seq![fe2(0x1FC2, '\u{1F74}', '\u{3B9}')] + seq![fe2(0x1FC3, '\u{3B7}', '\u{3B9}')] + seq![fe2(0x1FC4, '\u{3AE}', '\u{3B9}')] + seq![fe2(0x1FC6, '\u{3B7}', '\u{342}')] + seq![fe3(0x1FC7, '\u{3B7}', '\u{342}', '\u{3B9}')]));
    }
    proof {
        assert(t@ =~= old(t)@ + cf_greek_extended_5());
    }
}

/// Appends the case-fold mappings for the Greek Extended block, part 7.
#[verifier::rlimit(100)]
fn push_cf_greek_extended_6(t: &mut FoldTable)
    requires
        old(t).wf(),
        old(t)@.len() > 0 ==> old(t)@.last().key < 0x1FC8,
    ensures
        final(t)@ == old(t)@ + cf_greek_extended_6(),
        final(t).wf(),
        final(t)@.last().key == 0x1FD2,
{
    t.push_entry(FoldEntry { key: 0x1FC8, count: 1, r0: '\u{1F72}', r1: '\u{0}', r2: '\u{0}', r3: '\u{0}' });
    proof {
        assert(t@ =~= old(t)@ + (seq![fe1(0x1FC8, '\u{1F72}')]));
    }
    t.push_entry(FoldEntry { key: 0x1FC9, count: 1, r0: '\u{1F73}', r1: '\u{0}', r2: '\u{0}', r3: '\u{0}' });
    proof {
        assert(t@ =~= old(t)@ + (seq![fe1(0x1FC8, '\u{1F72}')] + seq![fe1(0x1FC9, '\u{1F73}')]));
    }
    t.push_entry(FoldEntry { key: 0x1FCA, count: 1, r0: '\u{1F74}', r1: '\u{0}', r2: '\u{0}', r3: '\u{0}' });
    proof {
        assert(t@ =~= old(t)@ + (seq![fe1(0x1FC8, '\u{1F72}')] + seq![fe1(0x1FC9, '\u{1F73}')] + seq![fe1(0x1FCA, '\u{1F74}')]));
    }
    t.push_entry(FoldEntry { key: 0x1FCB, count: 1, r0: '\u{1F75}', r1: '\u{0}', r2: '\u{0}', r3: '\u{0}' });
    proof {
        assert(t@ =~= old(t)@ + (seq![fe1(0x1FC8, '\u{1F72}')] + seq![fe1(0x1FC9, '\u{1F73}')] + seq![fe1(0x1FCA, '\u{1F74}')] + seq![fe1(0x1FCB, '\u{1F75}')]));
    }
    t.push_entry(FoldEntry { key: 0x1FCC, count: 2, r0: '\u{3B7}', r1: '\u{3B9}', r2: '\u{0}', r3: '\u{0}' });
    proof {
        assert(t@ =~= old(t)@ + (seq![fe1(0x1FC8, '\u{1F72}')] + seq![fe1(0x1FC9, '\u{1F73}')] + seq![fe1(0x1FCA, '\u{1F74}')] + seq![fe1(0x1FCB, '\u{1F75}')] + seq![fe2(0x1FCC, '\u{3B7}', '\u{3B9}')]));
    }
    t.push_entry(FoldEntry { key: 0x1FD2, count: 3, r0: '\u{3B9}', r1: '\u{308}', r2: '\u{300}', r3: '\u{0}' });
    proof {
        assert(t@ =~= old(t)@ + (seq![fe1(0x1FC8, '\u{1F72}')] + seq![fe1(0x1FC9, '\u{1F73}')] + seq![fe1(0x1FCA, '\u{1F74}')] + seq![fe1(0x1FCB, '\u{1F75}')] + seq![fe2(0x1FCC, '\u{3B7}', '\u{3B9}')] + seq![fe3(0x1FD2, '\u{3B9}', '\u{308}', '\u{300}')]));
    }
    proof {
        assert(t@ =~= old(t)@ + cf_greek_extended_6());
    }
}

/// Appends the case-fold mappings for the Greek Extended block, part 8.
#[verifier::rlimit(100)]
fn push_cf_greek_extended_7(t: &mut FoldTable)
    requires
        old(t).wf(),
        old(t)@.len() > 0 ==> old(t)@.last().key < 0x1FD3,
    ensures
        final(t)@ == old(t)@ + cf_greek_extended_7(),
        final(t).wf(),
        final(t)@.last().key == 0x1FDA,
{
    t.push_entry(FoldEntry { key: 0x1FD3, count: 3, r0: '\u{3B9}', r1: '\u{308}', r2: '\u{301}', r3: '\u{0}' });
    proof {
        assert(t@ =~= old(t)@ + (seq![fe3(0x1FD3, '\u{3B9}', '\u{308}', '\u{301}')]));
    }
    t.push_entry(FoldEntry { key: 0x1FD6, count: 2, r0: '\u{3B9}', r1: '\u{342}', r2: '\u{0}', r3: '\u{0}' });
    proof {
        assert(t@ =~= old(t)@ + (seq![fe3(0x1FD3, '\u{3B9}', '\u{308}', '\u{301}')] + seq![fe2(0x1FD6, '\u{3B9}', '\u{342}')]));
    }
    t.push_entry(FoldEntry { key: 0x1FD7, count: 3, r0: '\u{3B9}', r1: '\u{308}', r2: '\u{342}', r3: '\u{0}' });
    proof {
        assert(t@ =~= old(t)@ + (seq![fe3(0x1FD3, '\u{3B9}', '\u{308}', '\u{301}')] + seq![fe2(0x1FD6, '\u{3B9}', '\u{342}')] + seq![fe3(0x1FD7, '\u{3B9}', '\u{308}', '\u{342}')]));
    }
    t.push_entry(FoldEntry { key: 0x1FD8, count: 1, r0: '\u{1FD0}', r1: '\u{0}', r2: '\u{0}', r3: '\u{0}' });
    proof {
        assert(t@ =~= old(t)@ + (seq![fe3(0x1FD3, '\u{3B9}', '\u{308}', '\u{301}')] + seq![fe2(0x1FD6, '\u{3B9}', '\u{342}')] + seq![fe3(0x1FD7, '\u{3B9}', '\u{308}', '\u{342}')] + seq![fe1(0x1FD8, '\u{1FD0}')]));
    }
    t.push_entry(FoldEntry { key: 0x1FD9, count: 1, r0: '\u{1FD1}', r1: '\u{0}', r2: '\u{0}', r3: '\u{0}' });
    proof {
        assert(t@ =~= old(t)@ + (seq![fe3(0x1FD3, '\u{3B9}', '\u{308}', '\u{301}')] + seq![fe2(0x1FD6, '\u{3B9}', '\u{342}')] + seq![fe3(0x1FD7, '\u{3B9}', '\u{308}', '\u{342}')] + seq![fe1(0x1FD8, '\u{1FD0}')] + seq![fe1(0x1FD9, '\u{1FD1}')]));
    }
    t.push_entry(FoldEntry { key: 0x1FDA, count: 1, r0: '\u{1F76}', r1: '\u{0}', r2: '\u{0}', r3: '\u{0}' });
    proof {
        assert(t@ =~= old(t)@ + (seq![fe3(0x1FD3, '\u{3B9}', '\u{308}', '\u{301}')] + seq![fe2(0x1FD6, '\u{3B9}', '\u{342}')] + seq![fe3(0x1FD7, '\u{3B9}', '\u{308}', '\u{342}')] + seq![fe1(0x1FD8, '\u{1FD0}')] + seq![fe1(0x1FD9, '\u{1FD1}')] + seq![fe1(0x1FDA, '\u{1F76}')]));
    }
    proof {
        assert(t@ =~= old(t)@ + cf_greek_extended_7());
    }
}

/// Appends the case-fold mappings for the Greek Extended block, part 9.
#[verifier::rlimit(100)]
fn push_cf_greek_extended_8(t: &mut FoldTable)
    requires
        old(t).wf(),
        old(t)@.len() > 0 ==> old(t)@.last().key < 0x1FDB,
    ensures
        final(t)@ == old(t)@ + cf_greek_extended_8(),
        final(t).wf(),
        final(t)@.last().key == 0x1FE7,
{
    t.push_entry(FoldEntry { key: 0x1FDB, count: 1, r0: '\u{1F77}', r1: '\u{0}', r2: '\u{0}', r3: '\u{0}' });
    proof {
        assert(t@ =~= old(t)@ + (seq![fe1(0x1FDB, '\u{1F77}')]));
    }
    t.push_entry(FoldEntry { key: 0x1FE2, count: 3, r0: '\u{3C5}', r1: '\u{308}', r2: '\u{300}', r3: '\u{0}' });
    proof {
        assert(t@ =~= old(t)@ + (seq![fe1(0x1FDB, '\u{1F77}')] + seq![fe3(0x1FE2, '\u{3C5}', '\u{308}', '\u{300}')]));
    }
    t.push_entry(FoldEntry { key: 0x1FE3, count: 3, r0: '\u{3C5}', r1: '\u{308}', r2: '\u{301}', r3: '\u{0}' });
    proof {
        assert(t@ =~= old(t)@ + (seq![fe1(0x1FDB, '\u{1F77}')] + seq![fe3(0x1FE2, '\u{3C5}', '\u{308}', '\u{300}')] + seq![fe3(0x1FE3, '\u{3C5}', '\u{308}', '\u{301}')]));
    }
    t.push_entry(FoldEntry { key: 0x1FE4, count: 2, r0: '\u{3C1}', r1: '\u{313}', r2: '\u{0}', r3: '\u{0}' });
    proof {
        assert(t@ =~= old(t)@ + (seq![fe1(0x1FDB, '\u{1F77}')] + seq![fe3(0x1FE2, '\u{3C5}', '\u{308}', '\u{300}')] + seq![fe3(0x1FE3, '\u{3C5}', '\u{308}', '\u{301}')] + seq![fe2(0x1FE4, '\u{3C1}', '\u{313}')]));
    }
    t.push_entry(FoldEntry { key: 0x1FE6, count: 2, r0: '\u{3C5}', r1: '\u{342}', r2: '\u{0}', r3: '\u{0}' });
    proof {
        assert(t@ =~= old(t)@ + (seq![fe1(0x1FDB, '\u{1F77}')] + seq![fe3(0x1FE2, '\u{3C5}', '\u{308}', '\u{300}')] + seq![fe3(0x1FE3, '\u{3C5}', '\u{308}', '\u{301}')] + seq![fe2(0x1FE4, '\u{3C1}', '\u{313}')] + seq![fe2(0x1FE6, '\u{3C5}', '\u{342}')]));
    }
    t.push_entry(FoldEntry { key: 0x1FE7, count: 3, r0: '\u{3C5}', r1: '\u{308}', r2: '\u{342}', r3: '\u{0}' });
    proof {
        assert(t@ =~= old(t)@ + (seq![fe1(0x1FDB, '\u{1F77}')] + seq![fe3(0x1FE2, '\u{3C5}', '\u{308}', '\u{300}')] + seq![fe3(0x1FE3, '\u{3C5}', '\u{308}', '\u{301}')] + seq![fe2(0x1FE4, '\u{3C1}', '\u{313}')] + seq![fe2(0x1FE6, '\u{3C5}', '\u{342}')] + seq![fe3(0x1FE7, '\u{3C5}', '\u{308}', '\u{342}')]));
    }
    proof {
        assert(t@ =~= old(t)@ + cf_greek_extended_8());
    }
}

/// Appends the case-fold mappings for the Greek Extended block, part 10.
#[verifier::rlimit(100)]
fn push_cf_greek_extended_9(t: &mut FoldTable)
    requires
        old(t).wf(),
        old(t)@.len() > 0 ==> old(t)@.last().key < 0x1FE8,
    ensures
        final(t)@ == old(t)@ + cf_greek_extended_9(),
        final(t).wf(),
        final(t)@.last().key == 0x1FF2,
{
    t.push_entry(FoldEntry { key: 0x1FE8, count: 1, r0: '\u{1FE0}', r1: '\u{0}', r2: '\u{0}', r3: '\u{0}' });
    proof {
        assert(t@ =~= old(t)@ + (seq![fe1(0x1FE8, '\u{1FE0}')]));
    }
    t.push_entry(FoldEntry { key: 0x1FE9, count: 1, r0: '\u{1FE1}', r1: '\u{0}', r2: '\u{0}', r3: '\u{0}' });
    proof {
        assert(t@ =~= old(t)@ + (seq![fe1(0x1FE8, '\u{1FE0}')] + seq![fe1(0x1FE9, '\u{1FE1}')]));
    }
    t.push_entry(FoldEntry { key: 0x1FEA, count: 1, r0: '\u{1F7A}', r1: '\u{0}', r2: '\u{0}', r3: '\u{0}' });
    proof {
        assert(t@ =~= old(t)@ + (seq![fe1(0x1FE8, '\u{1FE0}')] + seq![fe1(0x1FE9, '\u{1FE1}')] + seq![fe1(0x1FEA, '\u{1F7A}')]));
    }
    t.push_entry(FoldEntry { key: 0x1FEB, count: 1, r0: '\u{1F7B}', r1: '\u{0}', r2: '\u{0}', r3: '\u{0}' });
    proof {
        assert(t@ =~= old(t)@ + (seq![fe1(0x1FE8, '\u{1FE0}')] + seq![fe1(0x1FE9, '\u{1FE1}')] + seq![fe1(0x1FEA, '\u{1F7A}')] + seq![fe1(0x1FEB, '\u{1F7B}')]));
    }
    t.push_entry(FoldEntry { key: 0x1FEC, count: 1, r0: '\u{1FE5}', r1: '\u{0}', r2: '\u{0}', r3: '\u{0}' });
    proof {
        assert(t@ =~= old(t)@ + (seq![fe1(0x1FE8, '\u{1FE0}')] + seq![fe1(0x1FE9, '\u{1FE1}')] + seq![fe1(0x1FEA, '\u{1F7A}')] + seq![fe1(0x1FEB, '\u{1F7B}')] + seq![fe1(0x1FEC, '\u{1FE5}')]));
    }
    t.push_entry(FoldEntry { key: 0x1FF2, count: 2, r0: '\u{1F7C}', r1: '\u{3B9}', r2: '\u{0}', r3: '\u{0}' });
    proof {
        assert(t@ =~= old(t)@ + (seq![fe1(0x1FE8, '\u{1FE0}')] + seq![fe1(0x1FE9, '\u{1FE1}')] + seq![fe1(0x1FEA, '\u{1F7A}')] + seq![fe1(0x1FEB, '\u{1F7B}')] + seq![fe1(0x1FEC, '\u{1FE5}')] + seq![fe2(0x1FF2, '\u{1F7C}', '\u{3B9}')]));
    }
    proof {
        assert(t@ =~= old(t)@ + cf_greek_extended_9());
    }
}

/// Appends the case-fold mappings for the Greek Extended block, part 11.
#[verifier::rlimit(100)]
fn push_cf_greek_extended_10(t: &mut FoldTable)
    requires
        old(t).wf(),
        old(t)@.len() > 0 ==> old(t)@.last().key < 0x1FF3,
    ensures
        final(t)@ == old(t)@ + cf_greek_extended_10(),
        final(t).wf(),
        final(t)@.last().key == 0x1FF9,
{
    t.push_entry(FoldEntry { key: 0x1FF3, count: 2, r0: '\u{3C9}', r1: '\u{3B9}', r2: '\u{0}', r3: '\u{0}' });
    proof {
        assert(t@ =~= old(t)@ + (seq![fe2(0x1FF3, '\u{3C9}', '\u{3B9}')]));
    }
    t.push_entry(FoldEntry { key: 0x1FF4, count: 2, r0: '\u{3CE}', r1: '\u{3B9}', r2: '\u{0}', r3: '\u{0}' });
    proof {
        assert(t@ =~= old(t)@ + (seq![fe2(0x1FF3, '\u{3C9}', '\u{3B9}')] + seq![fe2(0x1FF4, '\u{3CE}', '\u{3B9}')]));
    }
    t.push_entry(FoldEntry { key: 0x1FF6, count: 2, r0: '\u{3C9}', r1: '\u{342}', r2: '\u{0}', r3: '\u{0}' });
    proof {
        assert(t@ =~= old(t)@ + (seq![fe2(0x1FF3, '\u{3C9}', '\u{3B9}')] + seq![fe2(0x1FF4, '\u{3CE}', '\u{3B9}')] + seq![fe2(0x1FF6, '\u{3C9}', '\u{342}')]));
    }
    t.push_entry(FoldEntry { key: 0x1FF7, count: 3, r0: '\u{3C9}', r1: '\u{342}', r2: '\u{3B9}', r3: '\u{0}' });
    proof {
        assert(t@ =~= old(t)@ + (seq![fe2(0x1FF3, '\u{3C9}', '\u{3B9}')] + seq![fe2(0x1FF4, '\u{3CE}', '\u{3B9}')] + seq![fe2(0x1FF6, '\u{3C9}', '\u{342}')] + seq![fe3(0x1FF7, '\u{3C9}', '\u{342}', '\u{3B9}')]));
    }
    t.push_entry(FoldEntry { key: 0x1FF8, count: 1, r0: '\u{1F78}', r1: '\u{0}', r2: '\u{0}', r3: '\u{0}' });
    proof {
        assert(t@ =~= old(t)@ + (seq![fe2(0x1FF3, '\u{3C9}', '\u{3B9}')] + seq![fe2(0x1FF4, '\u{3CE}', '\u{3B9}')] + seq![fe2(0x1FF6, '\u{3C9}', '\u{342}')] + seq![fe3(0x1FF7, '\u{3C9}', '\u{342}', '\u{3B9}')] + seq![fe1(0x1FF8, '\u{1F78}')]));
    }
    t.push_entry(FoldEntry { key: 0x1FF9, count: 1, r0: '\u{1F79}', r1: '\u{0}', r2: '\u{0}', r3: '\u{0}' });
    proof {
        assert(t@ =~= old(t)@ + (seq![fe2(0x1FF3, '\u{3C9}', '\u{3B9}')] + seq![fe2(0x1FF4, '\u{3CE}', '\u{3B9}')] + seq![fe2(0x1FF6, '\u{3C9}', '\u{342}')] + seq![fe3(0x1FF7, '\u{3C9}', '\u{342}', '\u{3B9}')] + seq![fe1(0x1FF8, '\u{1F78}')] + seq![fe1(0x1FF9, '\u{1F79}')]));
    }
    proof {
        assert(t@ =~= old(t)@ + cf_greek_extended_10());
    }
}

/// Appends the case-fold mappings for the Greek Extended block, part 12.
#[verifier::rlimit(100)]
fn push_cf_greek_extended_11(t: &mut FoldTable)
    requires
        old(t).wf(),
        old(t)@.len() > 0 ==> old(t)@.last().key < 0x1FFA,
    ensures
        final(t)@ == old(t)@ + cf_greek_extended_11(),
        final(t).wf(),
        final(t)@.last().key == 0x1FFC,
{
    t.push_entry(FoldEntry { key: 0x1FFA, count: 1, r0: '\u{1F7C}', r1: '\u{0}', r2: '\u{0}', r3: '\u{0}' });
    proof {
        assert(t@ =~= old(t)@ + (seq![fe1(0x1FFA, '\u{1F7C}')]));
    }
    t.push_entry(FoldEntry { key: 0x1FFB, count: 1, r0: '\u{1F7D}', r1: '\u{0}', r2: '\u{0}', r3: '\u{0}' });
    proof {
        assert(t@ =~= old(t)@ + (seq![fe1(0x1FFA, '\u{1F7C}')] + seq![fe1(0x1FFB, '\u{1F7D}')]));
    }
    t.push_entry(FoldEntry { key: 0x1FFC, count: 2, r0: '\u{3C9}', r1: '\u{3B9}', r2: '\u{0}', r3: '\u{0}' });
    proof {
        assert(t@ =~= old(t)@ + (seq![fe1(0x1FFA, '\u{1F7C}')] + seq![fe1(0x1FFB, '\u{1F7D}')] + seq![fe2(0x1FFC, '\u{3C9}', '\u{3B9}')]));
    }
    proof {
        assert(t@ =~= old(t)@ + cf_greek_extended_11());
    }
}

/// Appends the case-fold mappings for letterlike symbols, Roman numerals and circled letters, part 1.
#[verifier::rlimit(100)]
fn push_cf_letterlike_numeric_0(t: &mut FoldTable)
    requires
        old(t).wf(),
        old(t)@.len() > 0 ==> old(t)@.last().key < 0x20A8,
    ensures
        final(t)@ == old(t)@ + cf_letterlike_numeric_0(),
        final(t).wf(),
        final(t)@.last().key == 0x210B,
{
    t.push_entry(FoldEntry { key: 0x20A8, count: 2, r0: '\u{72}', r1: '\u{73}', r2: '\u{0}', r3: '\u{0}' });
    proof {
        assert(t@ =~= old(t)@ + (seq![fe2(0x20A8, '\u{72}', '\u{73}')]));
    }
    t.push_entry(FoldEntry { key: 0x2102, count: 1, r0: '\u{63}', r1: '\u{0}', r2: '\u{0}', r3: '\u{0}' });
    proof {
        assert(t@ =~= old(t)@ + (seq![fe2(0x20A8, '\u{72}', '\u{73}')] + seq![fe1(0x2102, '\u{63}')]));
    }
    t.push_entry(FoldEntry { key: 0x2103, count: 2, r0: '\u{B0}', r1: '\u{63}', r2: '\u{0}', r3: '\u{0}' });
    proof {
        assert(t@ =~= old(t)@ + (seq![fe2(0x20A8, '\u{72}', '\u{73}')] + seq![fe1(0x2102, '\u{63}')] + seq![fe2(0x2103, '\u{B0}', '\u{63}')]));
    }
    t.push_entry(FoldEntry { key: 0x2107, count: 1, r0: '\u{25B}', r1: '\u{0}', r2: '\u{0}', r3: '\u{0}' });
    proof {
        assert(t@ =~= old(t)@ + (seq![fe2(0x20A8, '\u{72}', '\u{73}')] + seq![fe1(0x2102, '\u{63}')] + seq![fe2(0x2103, '\u{B0}', '\u{63}')] + seq![fe1(0x2107, '\u{25B}')]));
    }
    t.push_entry(FoldEntry { key: 0x2109, count: 2, r0: '\u{B0}', r1: '\u{66}', r2: '\u{0}', r3: '\u{0}' });
    proof {
        assert(t@ =~= old(t)@ + (seq![fe2(0x20A8, '\u{72}', '\u{73}')] + seq![fe1(0x2102, '\u{63}')] + seq![fe2(0x2103, '\u{B0}', '\u{63}')] + seq![fe1(0x2107, '\u{25B}')] + seq![fe2(0x2109, '\u{B0}', '\u{66}')]));
    }
    t.push_entry(FoldEntry { key: 0x210B, count: 1, r0: '\u{68}', r1: '\u{0}', r2: '\u{0}', r3: '\u{0}' });
    proof {
        assert(t@ =~= old(t)@ + (seq![fe2(0x20A8, '\u{72}', '\u{73}')] + seq![fe1(0x2102, '\u{63}')] + seq![fe2(0x2103, '\u{B0}', '\u{63}')] + seq![fe1(0x2107, '\u{25B}')] + seq![fe2(0x2109, '\u{B0}', '\u{66}')] + seq![fe1(0x210B, '\u{68}')]));
    }
    proof {
        assert(t@ =~= old(t)@ + cf_letterlike_numeric_0());
    }
}

/// Appends the case-fold mappings for letterlike symbols, Roman numerals and circled letters, part 2.
#[verifier::rlimit(100)]
fn push_cf_letterlike_numeric_1(t: &mut FoldTable)
    requires
        old(t).wf(),
        old(t)@.len() > 0 ==> old(t)@.last().key < 0x210C,
    ensures
        final(t)@ == old(t)@ + cf_letterlike_numeric_1(),
        final(t).wf(),
        final(t)@.last().key == 0x2115,
{
    t.push_entry(FoldEntry { key: 0x210C, count: 1, r0: '\u{68}', r1: '\u{0}', r2: '\u{0}', r3: '\u{0}' });
    proof {
        assert(t@ =~= old(t)@ + (seq![fe1(0x210C, '\u{68}')]));
    }
    t.push_entry(FoldEntry { key: 0x210D, count: 1, r0: '\u{68}', r1: '\u{0}', r2: '\u{0}', r3: '\u{0}' });
    proof {
        assert(t@ =~= old(t)@ + (seq![fe1(0x210C, '\u{68}')] + seq![fe1(0x210D, '\u{68}')]));
    }
    t.push_entry(FoldEntry { key: 0x2110, count: 1, r0: '\u{69}', r1: '\u{0}', r2: '\u{0}', r3: '\u{0}' });
    proof {
        assert(t@ =~= old(t)@ + (seq![fe1(0x210C, '\u{68}')] + seq![fe1(0x210D, '\u{68}')] + seq![fe1(0x2110, '\u{69}')]));
    }
    t.push_entry(FoldEntry { key: 0x2111, count: 1, r0: '\u{69}', r1: '\u{0}', r2: '\u{0}', r3: '\u{0}' });
    proof {
        assert(t@ =~= old(t)@ + (seq![fe1(0x210C, '\u{68}')] + seq![fe1(0x210D, '\u{68}')] + seq![fe1(0x2110, '\u{69}')] + seq![fe1(0x2111, '\u{69}')]));
    }
    t.push_entry(FoldEntry { key: 0x2112, count: 1, r0: '\u{6C}', r1: '\u{0}', r2: '\u{0}', r3: '\u{0}' });
    proof {
        assert(t@ =~= old(t)@ + (seq![fe1(0x210C, '\u{68}')] + seq![fe1(0x210D, '\u{68}')] + seq![fe1(0x2110, '\u{69}')] + seq![fe1(0x2111, '\u{69}')] + seq![fe1(0x2112, '\u{6C}')]));
    }
    t.push_entry(FoldEntry { key: 0x2115, count: 1, r0: '\u{6E}', r1: '\u{0}', r2: '\u{0}', r3: '\u{0}' });
    proof {
        assert(t@ =~= old(t)@ + (seq![fe1(0x210C, '\u{68}')] + seq![fe1(0x210D, '\u{68}')] + seq![fe1(0x2110, '\u{69}')] + seq![fe1(0x2111, '\u{69}')] + seq![fe1(0x2112, '\u{6C}')] + seq![fe1(0x2115, '\u{6E}')]));
    }
    proof {
        assert(t@ =~= old(t)@ + cf_letterlike_numeric_1());
    }
}

/// Appends the case-fold mappings for letterlike symbols, Roman numerals and circled letters, part 3.
#[verifier::rlimit(100)]
fn push_cf_letterlike_numeric_2(t: &mut FoldTable)
    requires
        old(t).wf(),
        old(t)@.len() > 0 ==> old(t)@.last().key < 0x2116,
    ensures
        final(t)@ == old(t)@ + cf_letterlike_numeric_2(),
        final(t).wf(),
        final(t)@.last().key == 0x211D,
{
    t.push_entry(FoldEntry { key: 0x2116, count: 2, r0: '\u{6E}', r1: '\u{6F}', r2: '\u{0}', r3: '\u{0}' });
    proof {
        assert(t@ =~= old(t)@ + (seq![fe2(0x2116, '\u{6E}', '\u{6F}')]));
    }
    t.push_entry(FoldEntry { key: 0x2119, count: 1, r0: '\u{70}', r1: '\u{0}', r2: '\u{0}', r3: '\u{0}' });
    proof {
        assert(t@ =~= old(t)@ + (seq![fe2(0x2116, '\u{6E}', '\u{6F}')] + seq![fe1(0x2119, '\u{70}')]));
    }
    t.push_entry(FoldEntry { key: 0x211A, count: 1, r0: '\u{71}', r1: '\u{0}', r2: '\u{0}', r3: '\u{0}' });
    proof {
        assert(t@ =~= old(t)@ + (seq![fe2(0x2116, '\u{6E}', '\u{6F}')] + seq![fe1(0x2119, '\u{70}')] + seq![fe1(0x211A, '\u{71}')]));
    }
    t.push_entry(FoldEntry { key: 0x211B, count: 1, r0: '\u{72}', r1: '\u{0}', r2: '\u{0}', r3: '\u{0}' });
    proof {
        assert(t@ =~= old(t)@ + (seq![fe2(0x2116, '\u{6E}', '\u{6F}')] + seq![fe1(0x2119, '\u{70}')] + seq![fe1(0x211A, '\u{71}')] + seq![fe1(0x211B, '\u{72}')]));
    }
    t.push_entry(FoldEntry { key: 0x211C, count: 1, r0: '\u{72}', r1: '\u{0}', r2: '\u{0}', r3: '\u{0}' });
    proof {
        assert(t@ =~= old(t)@ + (seq![fe2(0x2116, '\u{6E}', '\u{6F}')] + seq![fe1(0x2119, '\u{70}')] + seq![fe1(0x211A, '\u{71}')] + seq![fe1(0x211B, '\u{72}')] + seq![fe1(0x211C, '\u{72}')]));
    }
    t.push_entry(FoldEntry { key: 0x211D, count: 1, r0: '\u{72}', r1: '\u{0}', r2: '\u{0}', r3: '\u{0}' });
    proof {
        assert(t@ =~= old(t)@ + (seq![fe2(0x2116, '\u{6E}', '\u{6F}')] + seq![fe1(0x2119, '\u{70}')] + seq![fe1(0x211A, '\u{71}')] + seq![fe1(0x211B, '\u{72}')] + seq![fe1(0x211C, '\u{72}')] + seq![fe1(0x211D, '\u{72}')]));
    }
    proof {
        assert(t@ =~= old(t)@ + cf_letterlike_numeric_2());
    }
}

/// Appends the case-fold mappings for letterlike symbols, Roman numerals and circled letters, part 4.
#[verifier::rlimit(100)]
fn push_cf_letterlike_numeric_3(t: &mut FoldTable)
    requires
        old(t).wf(),
        old(t)@.len() > 0 ==> old(t)@.last().key < 0x2120,
    ensures
        final(t)@ == old(t)@ + cf_letterlike_numeric_3(),
        final(t).wf(),
        final(t)@.last().key == 0x2128,
{
    t.push_entry(FoldEntry { key: 0x2120, count: 2, r0: '\u{73}', r1: '\u{6D}', r2: '\u{0}', r3: '\u{0}' });
    proof {
        assert(t@ =~= old(t)@ + (seq![fe2(0x2120, '\u{73}', '\u{6D}')]));
    }
    t.push_entry(FoldEntry { key: 0x2121, count: 3, r0: '\u{74}', r1: '\u{65}', r2: '\u{6C}', r3: '\u{0}' });
    proof {
        assert(t@ =~= old(t)@ + (seq![fe2(0x2120, '\u{73}', '\u{6D}')] + seq![fe3(0x2121, '\u{74}', '\u{65}', '\u{6C}')]));
    }
    t.push_entry(FoldEntry { key: 0x2122, count: 2, r0: '\u{74}', r1: '\u{6D}', r2: '\u{0}', r3: '\u{0}' });
    proof {
        assert(t@ =~= old(t)@ + (seq![fe2(0x2120, '\u{73}', '\u{6D}')] + seq![fe3(0x2121, '\u{74}', '\u{65}', '\u{6C}')] + seq![fe2(0x2122, '\u{74}', '\u{6D}')]));
    }
    t.push_entry(FoldEntry { key: 0x2124, count: 1, r0: '\u{7A}', r1: '\u{0}', r2: '\u{0}', r3: '\u{0}' });
    proof {
        assert(t@ =~= old(t)@ + (seq![fe2(0x2120, '\u{73}', '\u{6D}')] + seq![fe3(0x2121, '\u{74}', '\u{65}', '\u{6C}')] + seq![fe2(0x2122, '\u{74}', '\u{6D}')] + seq![fe1(0x2124, '\u{7A}')]));
    }
    t.push_entry(FoldEntry { key: 0x2126, count: 1, r0: '\u{3C9}', r1: '\u{0}', r2: '\u{0}', r3: '\u{0}' });
    proof {
        assert(t@ =~= old(t)@ + (seq![fe2(0x2120, '\u{73}', '\u{6D}')] + seq![fe3(0x2121, '\u{74}', '\u{65}', '\u{6C}')] + seq![fe2(0x2122, '\u{74}', '\u{6D}')] + seq![fe1(0x2124, '\u{7A}')] + seq![fe1(0x2126, '\u{3C9}')]));
    }
    t.push_entry(FoldEntry { key: 0x2128, count: 1, r0: '\u{7A}', r1: '\u{0}', r2: '\u{0}', r3: '\u{0}' });
    proof {
        assert(t@ =~= old(t)@ + (seq![fe2(0x2120, '\u{73}', '\u{6D}')] + seq![fe3(0x2121, '\u{74}', '\u{65}', '\u{6C}')] + seq![fe2(0x2122, '\u{74}', '\u{6D}')] + seq![fe1(0x2124, '\u{7A}')] + seq![fe1(0x2126, '\u{3C9}')] + seq![fe1(0x2128, '\u{7A}')]));
    }
    proof {
        assert(t@ =~= old(t)@ + cf_letterlike_numeric_3());
    }
}

/// Appends the case-fold mappings for letterlike symbols, Roman numerals and circled letters, part 5.
#[verifier::rlimit(100)]
fn push_cf_letterlike_numeric_4(t: &mut FoldTable)
    requires
        old(t).wf(),
        old(t)@.len() > 0 ==> old(t)@.last().key < 0x212A,
    ensures
        final(t)@ == old(t)@ + cf_letterlike_numeric_4(),
        final(t).wf(),
        final(t)@.last().key == 0x2131,
{
    t.push_entry(FoldEntry { key: 0x212A, count: 1, r0: '\u{6B}', r1: '\u{0}', r2: '\u{0}', r3: '\u{0}' });
    proof {
        assert(t@ =~= old(t)@ + (seq![fe1(0x212A, '\u{6B}')]));
    }
    t.push_entry(FoldEntry { key: 0x212B, count: 1, r0: '\u{E5}', r1: '\u{0}', r2: '\u{0}', r3: '\u{0}' });
    proof {
        assert(t@ =~= old(t)@ + (seq![fe1(0x212A, '\u{6B}')] + seq![fe1(0x212B, '\u{E5}')]));
    }
    t.push_entry(FoldEntry { key: 0x212C, count: 1, r0: '\u{62}', r1: '\u{0}', r2: '\u{0}', r3: '\u{0}' });
    proof {
        assert(t@ =~= old(t)@ + (seq![fe1(0x212A, '\u{6B}')] + seq![fe1(0x212B, '\u{E5}')] + seq![fe1(0x212C, '\u{62}')]));
    }
    t.push_entry(FoldEntry { key: 0x212D, count: 1, r0: '\u{63}', r1: '\u{0}', r2: '\u{0}', r3: '\u{0}' });
    proof {
        assert(t@ =~= old(t)@ + (seq![fe1(0x212A, '\u{6B}')] + seq![fe1(0x212B, '\u{E5}')] + seq![fe1(0x212C, '\u{62}')] + seq![fe1(0x212D, '\u{63}')]));
    }
    t.push_entry(FoldEntry { key: 0x2130, count: 1, r0: '\u{65}', r1: '\u{0}', r2: '\u{0}', r3: '\u{0}' });
    proof {
        assert(t@ =~= old(t)@ + (seq![fe1(0x212A, '\u{6B}')] + seq![fe1(0x212B, '\u{E5}')] + seq![fe1(0x212C, '\u{62}')] + seq![fe1(0x212D, '\u{63}')] + seq![fe1(0x2130, '\u{65}')]));
    }
    t.push_entry(FoldEntry { key: 0x2131, count: 1, r0: '\u{66}', r1: '\u{0}', r2: '\u{0}', r3: '\u{0}' });
    proof {
        assert(t@ =~= old(t)@ + (seq![fe1(0x212A, '\u{6B}')] + seq![fe1(0x212B, '\u{E5}')] + seq![fe1(0x212C, '\u{62}')] + seq![fe1(0x212D, '\u{63}')] + seq![fe1(0x2130, '\u{65}')] + seq![fe1(0x2131, '\u{66}')]));
    }
    proof {
        assert(t@ =~= old(t)@ + cf_letterlike_numeric_4());
    }
}

/// Appends the case-fold mappings for letterlike symbols, Roman numerals and circled letters, part 6.
#[verifier::rlimit(100)]
fn push_cf_letterlike_numeric_5(t: &mut FoldTable)
    requires
        old(t).wf(),
        old(t)@.len() > 0 ==> old(t)@.last().key < 0x2133,
    ensures
        final(t)@ == old(t)@ + cf_letterlike_numeric_5(),
        final(t).wf(),
        final(t)@.last().key == 0x24CF,
{
    t.push_entry(FoldEntry { key: 0x2133, count: 1, r0: '\u{6D}', r1: '\u{0}', r2: '\u{0}', r3: '\u{0}' });
    proof {
        assert(t@ =~= old(t)@ + (seq![fe1(0x2133, '\u{6D}')]));
    }
    t.push_entry(FoldEntry { key: 0x213E, count: 1, r0: '\u{3B3}', r1: '\u{0}', r2: '\u{0}', r3: '\u{0}' });
    proof {
        assert(t@ =~= old(t)@ + (seq![fe1(0x2133, '\u{6D}')] + seq![fe1(0x213E, '\u{3B3}')]));
    }
    t.push_entry(FoldEntry { key: 0x213F, count: 1, r0: '\u{3C0}', r1: '\u{0}', r2: '\u{0}', r3: '\u{0}' });
    proof {
        assert(t@ =~= old(t)@ + (seq![fe1(0x2133, '\u{6D}')] + seq![fe1(0x213E, '\u{3B3}')] + seq![fe1(0x213F, '\u{3C0}')]));
    }
    t.push_entry(FoldEntry { key: 0x2145, count: 1, r0: '\u{64}', r1: '\u{0}', r2: '\u{0}', r3: '\u{0}' });
    proof {
        assert(t@ =~= old(t)@ + (seq![fe1(0x2133, '\u{6D}')] + seq![fe1(0x213E, '\u{3B3}')] + seq![fe1(0x213F, '\u{3C0}')] + seq![fe1(0x2145, '\u{64}')]));
    }
    push_fold_run(t, 0x2160, 0x10, 16);
    proof {
        assert(t@ =~= old(t)@ + (seq![fe1(0x2133, '\u{6D}')] + seq![fe1(0x213E, '\u{3B3}')] + seq![fe1(0x213F, '\u{3C0}')] + seq![fe1(0x2145, '\u{64}')] + fold_run(0x2160, 0x10, 16)));
    }
    push_fold_run(t, 0x24B6, 0x1A, 26);
    proof {
        assert(t@ =~= old(t)@ + (seq![fe1(0x2133, '\u{6D}')] + seq![fe1(0x213E, '\u{3B3}')] + seq![fe1(0x213F, '\u{3C0}')] + seq![fe1(0x2145, '\u{64}')] + fold_run(0x2160, 0x10, 16) + fold_run(0x24B6, 0x1A, 26)));
    }
    proof {
        assert(t@ =~= old(t)@ + cf_letterlike_numeric_5());
    }
}

/// Appends the case-fold mappings for squared units whose expansions hold a capital, part 1.
#[verifier::rlimit(100)]
fn push_cf_squared_units_0(t: &mut FoldTable)
    requires
        old(t).wf(),
        old(t)@.len() > 0 ==> old(t)@.last().key < 0x3371,
    ensures
        final(t)@ == old(t)@ + cf_squared_units_0(),
        final(t).wf(),
        final(t)@.last().key == 0x3382,
{
    t.push_entry(FoldEntry { key: 0x3371, count: 3, r0: '\u{68}', r1: '\u{70}', r2: '\u{61}', r3: '\u{0}' });
    proof {
        assert(t@ =~= old(t)@ + (seq![fe3(0x3371, '\u{68}', '\u{70}', '\u{61}')]));
    }
    t.push_entry(FoldEntry { key: 0x3373, count: 2, r0: '\u{61}', r1: '\u{75}', r2: '\u{0}', r3: '\u{0}' });
    proof {
        assert(t@ =~= old(t)@ + (seq![fe3(0x3371, '\u{68}', '\u{70}', '\u{61}')] + seq![fe2(0x3373, '\u{61}', '\u{75}')]));
    }
    t.push_entry(FoldEntry { key: 0x3375, count: 2, r0: '\u{6F}', r1: '\u{76}', r2: '\u{0}', r3: '\u{0}' });
    proof {
        assert(t@ =~= old(t)@ + (seq![fe3(0x3371, '\u{68}', '\u{70}', '\u{61}')] + seq![fe2(0x3373, '\u{61}', '\u{75}')] + seq![fe2(0x3375, '\u{6F}', '\u{76}')]));
    }
    t.push_entry(FoldEntry { key: 0x3380, count: 2, r0: '\u{70}', r1: '\u{61}', r2: '\u{0}', r3: '\u{0}' });
    proof {
        assert(t@ =~= old(t)@ + (seq![fe3(0x3371, '\u{68}', '\u{70}', '\u{61}')] + seq![fe2(0x3373, '\u{61}', '\u{75}')] + seq![fe2(0x3375, '\u{6F}', '\u{76}')] + seq![fe2(0x3380, '\u{70}', '\u{61}')]));
    }
    t.push_entry(FoldEntry { key: 0x3381, count: 2, r0: '\u{6E}', r1: '\u{61}', r2: '\u{0}', r3: '\u{0}' });
    proof {
        assert(t@ =~= old(t)@ + (seq![fe3(0x3371, '\u{68}', '\u{70}', '\u{61}')] + seq![fe2(0x3373, '\u{61}', '\u{75}')] + seq![fe2(0x3375, '\u{6F}', '\u{76}')] + seq![fe2(0x3380, '\u{70}', '\u{61}')] + seq![fe2(0x3381, '\u{6E}', '\u{61}')]));
    }
    t.push_entry(FoldEntry { key: 0x3382, count: 2, r0: '\u{3BC}', r1: '\u{61}', r2: '\u{0}', r3: '\u{0}' });
    proof {
        assert(t@ =~= old(t)@ + (seq![fe3(0x3371, '\u{68}', '\u{70}', '\u{61}')] + seq![fe2(0x3373, '\u{61}', '\u{75}')] + seq![fe2(0x3375, '\u{6F}', '\u{76}')] + seq![fe2(0x3380, '\u{70}', '\u{61}')] + seq![fe2(0x3381, '\u{6E}', '\u{61}')] + seq![fe2(0x3382, '\u{3BC}', '\u{61}')]));
    }
    proof {
        assert(t@ =~= old(t)@ + cf_squared_units_0());
    }
}

/// Appends the case-fold mappings for squared units whose expansions hold a capital, part 2.
#[verifier::rlimit(100)]
fn push_cf_squared_units_1(t: &mut FoldTable)
    requires
        old(t).wf(),
        old(t)@.len() > 0 ==> old(t)@.last().key < 0x3383,
    ensures
        final(t)@ == old(t)@ + cf_squared_units_1(),
        final(t).wf(),
        final(t)@.last().key == 0x338A,
{
    t.push_entry(FoldEntry { key: 0x3383, count: 2, r0: '\u{6D}', r1: '\u{61}', r2: '\u{0}', r3: '\u{0}' });
    proof {
        assert(t@ =~= old(t)@ + (seq![fe2(0x3383, '\u{6D}', '\u{61}')]));
    }
    t.push_entry(FoldEntry { key: 0x3384, count: 2, r0: '\u{6B}', r1: '\u{61}', r2: '\u{0}', r3: '\u{0}' });
    proof {
        assert(t@ =~= old(t)@ + (seq![fe2(0x3383, '\u{6D}', '\u{61}')] + seq![fe2(0x3384, '\u{6B}', '\u{61}')]));
    }
    t.push_entry(FoldEntry { key: 0x3385, count: 2, r0: '\u{6B}', r1: '\u{62}', r2: '\u{0}', r3: '\u{0}' });
    proof {
        assert(t@ =~= old(t)@ + (seq![fe2(0x3383, '\u{6D}', '\u{61}')] + seq![fe2(0x3384, '\u{6B}', '\u{61}')] + seq![fe2(0x3385, '\u{6B}', '\u{62}')]));
    }
    t.push_entry(FoldEntry { key: 0x3386, count: 2, r0: '\u{6D}', r1: '\u{62}', r2: '\u{0}', r3: '\u{0}' });
    proof {
        assert(t@ =~= old(t)@ + (seq![fe2(0x3383, '\u{6D}', '\u{61}')] + seq![fe2(0x3384, '\u{6B}', '\u{61}')] + seq![fe2(0x3385, '\u{6B}', '\u{62}')] + seq![fe2(0x3386, '\u{6D}', '\u{62}')]));
    }
    t.push_entry(FoldEntry { key: 0x3387, count: 2, r0: '\u{67}', r1: '\u{62}', r2: '\u{0}', r3: '\u{0}' });
    proof {
        assert(t@ =~= old(t)@ + (seq![fe2(0x3383, '\u{6D}', '\u{61}')] + seq![fe2(0x3384, '\u{6B}', '\u{61}')] + seq![fe2(0x3385, '\u{6B}', '\u{62}')] + seq![fe2(0x3386, '\u{6D}', '\u{62}')] + seq![fe2(0x3387, '\u{67}', '\u{62}')]));
    }
    t.push_entry(FoldEntry { key: 0x338A, count: 2, r0: '\u{70}', r1: '\u{66}', r2: '\u{0}', r3: '\u{0}' });
    proof {
        assert(t@ =~= old(t)@ + (seq![fe2(0x3383, '\u{6D}', '\u{61}')] + seq![fe2(0x3384, '\u{6B}', '\u{61}')] + seq![fe2(0x3385, '\u{6B}', '\u{62}')] + seq![fe2(0x3386, '\u{6D}', '\u{62}')] + seq![fe2(0x3387, '\u{67}', '\u{62}')] + seq![fe2(0x338A, '\u{70}', '\u{66}')]));
    }
    proof {
        assert(t@ =~= old(t)@ + cf_squared_units_1());
    }
}

/// Appends the case-fold mappings for squared units whose expansions hold a capital, part 3.
#[verifier::rlimit(100)]
fn push_cf_squared_units_2(t: &mut FoldTable)
    requires
        old(t).wf(),
        old(t)@.len() > 0 ==> old(t)@.last().key < 0x338B,
    ensures
        final(t)@ == old(t)@ + cf_squared_units_2(),
        final(t).wf(),
        final(t)@.last().key == 0x3393,
{
    t.push_entry(FoldEntry { key: 0x338B, count: 2, r0: '\u{6E}', r1: '\u{66}', r2: '\u{0}', r3: '\u{0}' });
    proof {
        assert(t@ =~= old(t)@ + (seq![fe2(0x338B, '\u{6E}', '\u{66}')]));
    }
    t.push_entry(FoldEntry { key: 0x338C, count: 2, r0: '\u{3BC}', r1: '\u{66}', r2: '\u{0}', r3: '\u{0}' });
    proof {
        assert(t@ =~= old(t)@ + (seq![fe2(0x338B, '\u{6E}', '\u{66}')] + seq![fe2(0x338C, '\u{3BC}', '\u{66}')]));
    }
    t.push_entry(FoldEntry { key: 0x3390, count: 2, r0: '\u{68}', r1: '\u{7A}', r2: '\u{0}', r3: '\u{0}' });
    proof {
        assert(t@ =~= old(t)@ + (seq![fe2(0x338B, '\u{6E}', '\u{66}')] + seq![fe2(0x338C, '\u{3BC}', '\u{66}')] + seq![fe2(0x3390, '\u{68}', '\u{7A}')]));
    }
    t.push_entry(FoldEntry { key: 0x3391, count: 3, r0: '\u{6B}', r1: '\u{68}', r2: '\u{7A}', r3: '\u{0}' });
    proof {
        assert(t@ =~= old(t)@ + (seq![fe2(0x338B, '\u{6E}', '\u{66}')] + seq![fe2(0x338C, '\u{3BC}', '\u{66}')] + seq![fe2(0x3390, '\u{68}', '\u{7A}')] + seq![fe3(0x3391, '\u{6B}', '\u{68}', '\u{7A}')]));
    }
    t.push_entry(FoldEntry { key: 0x3392, count: 3, r0: '\u{6D}', r1: '\u{68}', r2: '\u{7A}', r3: '\u{0}' });
    proof {
        assert(t@ =~= old(t)@ + (seq![fe2(0x338B, '\u{6E}', '\u{66}')] + seq![fe2(0x338C, '\u{3BC}', '\u{66}')] + seq![fe2(0x3390, '\u{68}', '\u{7A}')] + seq![fe3(0x3391, '\u{6B}', '\u{68}', '\u{7A}')] + seq![fe3(0x3392, '\u{6D}', '\u{68}', '\u{7A}')]));
    }
    t.push_entry(FoldEntry { key: 0x3393, count: 3, r0: '\u{67}', r1: '\u{68}', r2: '\u{7A}', r3: '\u{0}' });
    proof {
        assert(t@ =~= old(t)@ + (seq![fe2(0x338B, '\u{6E}', '\u{66}')] + seq![fe2(0x338C, '\u{3BC}', '\u{66}')] + seq![fe2(0x3390, '\u{68}', '\u{7A}')] + seq![fe3(0x3391, '\u{6B}', '\u{68}', '\u{7A}')] + seq![fe3(0x3392, '\u{6D}', '\u{68}', '\u{7A}')] + seq![fe3(0x3393, '\u{67}', '\u{68}', '\u{7A}')]));
    }
    proof {
        assert(t@ =~= old(t)@ + cf_squared_units_2());
    }
}

/// Appends the case-fold mappings for squared units whose expansions hold a capital, part 4.
#[verifier::rlimit(100)]
fn push_cf_squared_units_3(t: &mut FoldTable)
    requires
        old(t).wf(),
        old(t)@.len() > 0 ==> old(t)@.last().key < 0x3394,
    ensures
        final(t)@ == old(t)@ + cf_squared_units_3(),
        final(t).wf(),
        final(t)@.last().key == 0x33B4,
{
    t.push_entry(FoldEntry { key: 0x3394, count: 3, r0: '\u{74}', r1: '\u{68}', r2: '\u{7A}', r3: '\u{0}' });
    proof {
        assert(t@ =~= old(t)@ + (seq![fe3(0x3394, '\u{74}', '\u{68}', '\u{7A}')]));
    }
    t.push_entry(FoldEntry { key: 0x33A9, count: 2, r0: '\u{70}', r1: '\u{61}', r2: '\u{0}', r3: '\u{0}' });
    proof {
        assert(t@ =~= old(t)@ + (seq![fe3(0x3394, '\u{74}', '\u{68}', '\u{7A}')] + seq![fe2(0x33A9, '\u{70}', '\u{61}')]));
    }
    t.push_entry(FoldEntry { key: 0x33AA, count: 3, r0: '\u{6B}', r1: '\u{70}', r2: '\u{61}', r3: '\u{0}' });
    proof {
        assert(t@ =~= old(t)@ + (seq![fe3(0x3394, '\u{74}', '\u{68}', '\u{7A}')] + seq![fe2(0x33A9, '\u{70}', '\u{61}')] + seq![fe3(0x33AA, '\u{6B}', '\u{70}', '\u{61}')]));
    }
    t.push_entry(FoldEntry { key: 0x33AB, count: 3, r0: '\u{6D}', r1: '\u{70}', r2: '\u{61}', r3: '\u{0}' });
    proof {
        assert(t@ =~= old(t)@ + (seq![fe3(0x3394, '\u{74}', '\u{68}', '\u{7A}')] + seq![fe2(0x33A9, '\u{70}', '\u{61}')] + seq![fe3(0x33AA, '\u{6B}', '\u{70}', '\u{61}')] + seq![fe3(0x33AB, '\u{6D}', '\u{70}', '\u{61}')]));
    }
    t.push_entry(FoldEntry { key: 0x33AC, count: 3, r0: '\u{67}', r1: '\u{70}', r2: '\u{61}', r3: '\u{0}' });
    proof {
        assert(t@ =~= old(t)@ + (seq![fe3(0x3394, '\u{74}', '\u{68}', '\u{7A}')] + seq![fe2(0x33A9, '\u{70}', '\u{61}')] + seq![fe3(0x33AA, '\u{6B}', '\u{70}', '\u{61}')] + seq![fe3(0x33AB, '\u{6D}', '\u{70}', '\u{61}')] + seq![fe3(0x33AC, '\u{67}', '\u{70}', '\u{61}')]));
    }
    t.push_entry(FoldEntry { key: 0x33B4, count: 2, r0: '\u{70}', r1: '\u{76}', r2: '\u{0}', r3: '\u{0}' });
    proof {
        assert(t@ =~= old(t)@ + (seq![fe3(0x3394, '\u{74}', '\u{68}', '\u{7A}')] + seq![fe2(0x33A9, '\u{70}', '\u{61}')] + seq![fe3(0x33AA, '\u{6B}', '\u{70}', '\u{61}')] + seq![fe3(0x33AB, '\u{6D}', '\u{70}', '\u{61}')] + seq![fe3(0x33AC, '\u{67}', '\u{70}', '\u{61}')] + seq![fe2(0x33B4, '\u{70}', '\u{76}')]));
    }
    proof {
        assert(t@ =~= old(t)@ + cf_squared_units_3());
    }
}

/// Appends the case-fold mappings for squared units whose expansions hold a capital, part 5.
#[verifier::rlimit(100)]
fn push_cf_squared_units_4(t: &mut FoldTable)
    requires
        old(t).wf(),
        old(t)@.len() > 0 ==> old(t)@.last().key < 0x33B5,
    ensures
        final(t)@ == old(t)@ + cf_squared_units_4(),
        final(t).wf(),
        final(t)@.last().key == 0x33BA,
{
    t.push_entry(FoldEntry { key: 0x33B5, count: 2, r0: '\u{6E}', r1: '\u{76}', r2: '\u{0}', r3: '\u{0}' });
    proof {
        assert(t@ =~= old(t)@ + (seq![fe2(0x33B5, '\u{6E}', '\u{76}')]));
    }
    t.push_entry(FoldEntry { key: 0x33B6, count: 2, r0: '\u{3BC}', r1: '\u{76}', r2: '\u{0}', r3: '\u{0}' });
    proof {
        assert(t@ =~= old(t)@ + (seq![fe2(0x33B5, '\u{6E}', '\u{76}')] + seq![fe2(0x33B6, '\u{3BC}', '\u{76}')]));
    }
    t.push_entry(FoldEntry { key: 0x33B7, count: 2, r0: '\u{6D}', r1: '\u{76}', r2: '\u{0}', r3: '\u{0}' });
    proof {
        assert(t@ =~= old(t)@ + (seq![fe2(0x33B5, '\u{6E}', '\u{76}')] + seq![fe2(0x33B6, '\u{3BC}', '\u{76}')] + seq![fe2(0x33B7, '\u{6D}', '\u{76}')]));
    }
    t.push_entry(FoldEntry { key: 0x33B8, count: 2, r0: '\u{6B}', r1: '\u{76}', r2: '\u{0}', r3: '\u{0}' });
    proof {
        assert(t@ =~= old(t)@ + (seq![fe2(0x33B5, '\u{6E}', '\u{76}')] + seq![fe2(0x33B6, '\u{3BC}', '\u{76}')] + seq![fe2(0x33B7, '\u{6D}', '\u{76}')] + seq![fe2(0x33B8, '\u{6B}', '\u{76}')]));
    }
    t.push_entry(FoldEntry { key: 0x33B9, count: 2, r0: '\u{6D}', r1: '\u{76}', r2: '\u{0}', r3: '\u{0}' });
    proof {
        assert(t@ =~= old(t)@ + (seq![fe2(0x33B5, '\u{6E}', '\u{76}')] + seq![fe2(0x33B6, '\u{3BC}', '\u{76}')] + seq![fe2(0x33B7, '\u{6D}', '\u{76}')] + seq![fe2(0x33B8, '\u{6B}', '\u{76}')] + seq![fe2(0x33B9, '\u{6D}', '\u{76}')]));
    }
    t.push_entry(FoldEntry { key: 0x33BA, count: 2, r0: '\u{70}', r1: '\u{77}', r2: '\u{0}', r3: '\u{0}' });
    proof {
        assert(t@ =~= old(t)@ + (seq![fe2(0x33B5, '\u{6E}', '\u{76}')] + seq![fe2(0x33B6, '\u{3BC}', '\u{76}')] + seq![fe2(0x33B7, '\u{6D}', '\u{76}')] + seq![fe2(0x33B8, '\u{6B}', '\u{76}')] + seq![fe2(0x33B9, '\u{6D}', '\u{76}')] + seq![fe2(0x33BA, '\u{70}', '\u{77}')]));
    }
    proof {
        assert(t@ =~= old(t)@ + cf_squared_units_4());
    }
}

/// Appends the case-fold mappings for squared units whose expansions hold a capital, part 6.
#[verifier::rlimit(100)]
fn push_cf_squared_units_5(t: &mut FoldTable)
    requires
        old(t).wf(),
        old(t)@.len() > 0 ==> old(t)@.last().key < 0x33BB,
    ensures
        final(t)@ == old(t)@ + cf_squared_units_5(),
        final(t).wf(),
        final(t)@.last().key == 0x33C0,
{
    t.push_entry(FoldEntry { key: 0x33BB, count: 2, r0: '\u{6E}', r1: '\u{77}', r2: '\u{0}', r3: '\u{0}' });
    proof {
        assert(t@ =~= old(t)@ + (seq![fe2(0x33BB, '\u{6E}', '\u{77}')]));
    }
    t.push_entry(FoldEntry { key: 0x33BC, count: 2, r0: '\u{3BC}', r1: '\u{77}', r2: '\u{0}', r3: '\u{0}' });
    proof {
        assert(t@ =~= old(t)@ + (seq![fe2(0x33BB, '\u{6E}', '\u{77}')] + seq![fe2(0x33BC, '\u{3BC}', '\u{77}')]));
    }
    t.push_entry(FoldEntry { key: 0x33BD, count: 2, r0: '\u{6D}', r1: '\u{77}', r2: '\u{0}', r3: '\u{0}' });
    proof {
        assert(t@ =~= old(t)@ + (seq![fe2(0x33BB, '\u{6E}', '\u{77}')] + seq![fe2(0x33BC, '\u{3BC}', '\u{77}')] + seq![fe2(0x33BD, '\u{6D}', '\u{77}')]));
    }
    t.push_entry(FoldEntry { key: 0x33BE, count: 2, r0: '\u{6B}', r1: '\u{77}', r2: '\u{0}', r3: '\u{0}' });
    proof {
        assert(t@ =~= old(t)@ + (seq![fe2(0x33BB, '\u{6E}', '\u{77}')] + seq![fe2(0x33BC, '\u{3BC}', '\u{77}')] + seq![fe2(0x33BD, '\u{6D}', '\u{77}')] + seq![fe2(0x33BE, '\u{6B}', '\u{77}')]));
    }
    t.push_entry(FoldEntry { key: 0x33BF, count: 2, r0: '\u{6D}', r1: '\u{77}', r2: '\u{0}', r3: '\u{0}' });
    proof {
        assert(t@ =~= old(t)@ + (seq![fe2(0x33BB, '\u{6E}', '\u{77}')] + seq![fe2(0x33BC, '\u{3BC}', '\u{77}')] + seq![fe2(0x33BD, '\u{6D}', '\u{77}')] + seq![fe2(0x33BE, '\u{6B}', '\u{77}')] + seq![fe2(0x33BF, '\u{6D}', '\u{77}')]));
    }
    t.push_entry(FoldEntry { key: 0x33C0, count: 2, r0: '\u{6B}', r1: '\u{3C9}', r2: '\u{0}', r3: '\u{0}' });
    proof {
        assert(t@ =~= old(t)@ + (seq![fe2(0x33BB, '\u{6E}', '\u{77}')] + seq![fe2(0x33BC, '\u{3BC}', '\u{77}')] + seq![fe2(0x33BD, '\u{6D}', '\u{77}')] + seq![fe2(0x33BE, '\u{6B}', '\u{77}')] + seq![fe2(0x33BF, '\u{6D}', '\u{77}')] + seq![fe2(0x33C0, '\u{6B}', '\u{3C9}')]));
    }
    proof {
        assert(t@ =~= old(t)@ + cf_squared_units_5());
    }
}

/// Appends the case-fold mappings for squared units whose expansions hold a capital, part 7.
#[verifier::rlimit(100)]
fn push_cf_squared_units_6(t: &mut FoldTable)
    requires
        old(t).wf(),
        old(t)@.len() > 0 ==> old(t)@.last().key < 0x33C1,
    ensures
        final(t)@ == old(t)@ + cf_squared_units_6(),
        final(t).wf(),
        final(t)@.last().key == 0x33C8,
{
    t.push_entry(FoldEntry { key: 0x33C1, count: 2, r0: '\u{6D}', r1: '\u{3C9}', r2: '\u{0}', r3: '\u{0}' });
    proof {
        assert(t@ =~= old(t)@ + (seq![fe2(0x33C1, '\u{6D}', '\u{3C9}')]));
    }
    t.push_entry(FoldEntry { key: 0x33C3, count: 2, r0: '\u{62}', r1: '\u{71}', r2: '\u{0}', r3: '\u{0}' });
    proof {
        assert(t@ =~= old(t)@ + (seq![fe2(0x33C1, '\u{6D}', '\u{3C9}')] + seq![fe2(0x33C3, '\u{62}', '\u{71}')]));
    }
    t.push_entry(FoldEntry { key: 0x33C5, count: 2, r0: '\u{63}', r1: '\u{64}', r2: '\u{0}', r3: '\u{0}' });
    proof {
        assert(t@ =~= old(t)@ + (seq![fe2(0x33C1, '\u{6D}', '\u{3C9}')] + seq![fe2(0x33C3, '\u{62}', '\u{71}')] + seq![fe2(0x33C5, '\u{63}', '\u{64}')]));
    }
    t.push_entry(FoldEntry { key: 0x33C6, count: 4, r0: '\u{63}', r1: '\u{2215}', r2: '\u{6B}', r3: '\u{67}' });
    proof {
        assert(t@ =~= old(t)@ + (seq![fe2(0x33C1, '\u{6D}', '\u{3C9}')] + seq![fe2(0x33C3, '\u{62}', '\u{71}')] + seq![fe2(0x33C5, '\u{63}', '\u{64}')] + seq![fe4(0x33C6, '\u{63}', '\u{2215}', '\u{6B}', '\u{67}')]));
    }
    t.push_entry(FoldEntry { key: 0x33C7, count: 3, r0: '\u{63}', r1: '\u{6F}', r2: '\u{2E}', r3: '\u{0}' });
    proof {
        assert(t@ =~= old(t)@ + (seq![fe2(0x33C1, '\u{6D}', '\u{3C9}')] + seq![fe2(0x33C3, '\u{62}', '\u{71}')] + seq![fe2(0x33C5, '\u{63}', '\u{64}')] + seq![fe4(0x33C6, '\u{63}', '\u{2215}', '\u{6B}', '\u{67}')] + seq![fe3(0x33C7, '\u{63}', '\u{6F}', '\u{2E}')]));
    }
    t.push_entry(FoldEntry { key: 0x33C8, count: 2, r0: '\u{64}', r1: '\u{62}', r2: '\u{0}', r3: '\u{0}' });
    proof {
        assert(t@ =~= old(t)@ + (seq![fe2(0x33C1, '\u{6D}', '\u{3C9}')] + seq![fe2(0x33C3, '\u{62}', '\u{71}')] + seq![fe2(0x33C5, '\u{63}', '\u{64}')] + seq![fe4(0x33C6, '\u{63}', '\u{2215}', '\u{6B}', '\u{67}')] + seq![fe3(0x33C7, '\u{63}', '\u{6F}', '\u{2E}')] + seq![fe2(0x33C8, '\u{64}', '\u{62}')]));
    }
    proof {
        assert(t@ =~= old(t)@ + cf_squared_units_6());
    }
}

/// Appends the case-fold mappings for squared units whose expansions hold a capital, part 8.
#[verifier::rlimit(100)]
fn push_cf_squared_units_7(t: &mut FoldTable)
    requires
        old(t).wf(),
        old(t)@.len() > 0 ==> old(t)@.last().key < 0x33C9,
    ensures
        final(t)@ == old(t)@ + cf_squared_units_7(),
        final(t).wf(),
        final(t)@.last().key == 0x33D9,
{
    t.push_entry(FoldEntry { key: 0x33C9, count: 2, r0: '\u{67}', r1: '\u{79}', r2: '\u{0}', r3: '\u{0}' });
    proof {
        assert(t@ =~= old(t)@ + (seq![fe2(0x33C9, '\u{67}', '\u{79}')]));
    }
    t.push_entry(FoldEntry { key: 0x33CB, count: 2, r0: '\u{68}', r1: '\u{70}', r2: '\u{0}', r3: '\u{0}' });
    proof {
        assert(t@ =~= old(t)@ + (seq![fe2(0x33C9, '\u{67}', '\u{79}')] + seq![fe2(0x33CB, '\u{68}', '\u{70}')]));
    }
    t.push_entry(FoldEntry { key: 0x33CD, count: 2, r0: '\u{6B}', r1: '\u{6B}', r2: '\u{0}', r3: '\u{0}' });
    proof {
        assert(t@ =~= old(t)@ + (seq![fe2(0x33C9, '\u{67}', '\u{79}')] + seq![fe2(0x33CB, '\u{68}', '\u{70}')] + seq![fe2(0x33CD, '\u{6B}', '\u{6B}')]));
    }
    t.push_entry(FoldEntry { key: 0x33CE, count: 2, r0: '\u{6B}', r1: '\u{6D}', r2: '\u{0}', r3: '\u{0}' });
    proof {
        assert(t@ =~= old(t)@ + (seq![fe2(0x33C9, '\u{67}', '\u{79}')] + seq![fe2(0x33CB, '\u{68}', '\u{70}')] + seq![fe2(0x33CD, '\u{6B}', '\u{6B}')] + seq![fe2(0x33CE, '\u{6B}', '\u{6D}')]));
    }
    t.push_entry(FoldEntry { key: 0x33D7, count: 2, r0: '\u{70}', r1: '\u{68}', r2: '\u{0}', r3: '\u{0}' });
    proof {
        assert(t@ =~= old(t)@ + (seq![fe2(0x33C9, '\u{67}', '\u{79}')] + seq![fe2(0x33CB, '\u{68}', '\u{70}')] + seq![fe2(0x33CD, '\u{6B}', '\u{6B}')] + seq![fe2(0x33CE, '\u{6B}', '\u{6D}')] + seq![fe2(0x33D7, '\u{70}', '\u{68}')]));
    }
    t.push_entry(FoldEntry { key: 0x33D9, count: 3, r0: '\u{70}', r1: '\u{70}', r2: '\u{6D}', r3: '\u{0}' });
    proof {
        assert(t@ =~= old(t)@ + (seq![fe2(0x33C9, '\u{67}', '\u{79}')] + seq![fe2(0x33CB, '\u{68}', '\u{70}')] + seq![fe2(0x33CD, '\u{6B}', '\u{6B}')] + seq![fe2(0x33CE, '\u{6B}', '\u{6D}')] + seq![fe2(0x33D7, '\u{70}', '\u{68}')] + seq![fe3(0x33D9, '\u{70}', '\u{70}', '\u{6D}')]));
    }
    proof {
        assert(t@ =~= old(t)@ + cf_squared_units_7());
    }
}

/// Appends the case-fold mappings for squared units whose expansions hold a capital, part 9.
#[verifier::rlimit(100)]
fn push_cf_squared_units_8(t: &mut FoldTable)
    requires
        old(t).wf(),
        old(t)@.len() > 0 ==> old(t)@.last().key < 0x33DA,
    ensures
        final(t)@ == old(t)@ + cf_squared_units_8(),
        final(t).wf(),
        final(t)@.last().key == 0x33DD,
{
    t.push_entry(FoldEntry { key: 0x33DA, count: 2, r0: '\u{70}', r1: '\u{72}', r2: '\u{0}', r3: '\u{0}' });
    proof {
        assert(t@ =~= old(t)@ + (seq![fe2(0x33DA, '\u{70}', '\u{72}')]));
    }
    t.push_entry(FoldEntry { key: 0x33DC, count: 2, r0: '\u{73}', r1: '\u{76}', r2: '\u{0}', r3: '\u{0}' });
    proof {
        assert(t@ =~= old(t)@ + (seq![fe2(0x33DA, '\u{70}', '\u{72}')] + seq![fe2(0x33DC, '\u{73}', '\u{76}')]));
    }
    t.push_entry(FoldEntry { key: 0x33DD, count: 2, r0: '\u{77}', r1: '\u{62}', r2: '\u{0}', r3: '\u{0}' });
    proof {
        assert(t@ =~= old(t)@ + (seq![fe2(0x33DA, '\u{70}', '\u{72}')] + seq![fe2(0x33DC, '\u{73}', '\u{76}')] + seq![fe2(0x33DD, '\u{77}', '\u{62}')]));
    }
    proof {
        assert(t@ =~= old(t)@ + cf_squared_units_8());
    }
}

/// Appends the case-fold mappings for the Latin and Armenian ligatures, part 1.
#[verifier::rlimit(100)]
fn push_cf_ligatures_0(t: &mut FoldTable)
    requires
        old(t).wf(),
        old(t)@.len() > 0 ==> old(t)@.last().key < 0xFB00,
    ensures
        final(t)@ == old(t)@ + cf_ligatures_0(),
        final(t).wf(),
        final(t)@.last().key == 0xFB05,
{
    t.push_entry(FoldEntry { key: 0xFB00, count: 2, r0: '\u{66}', r1: '\u{66}', r2: '\u{0}', r3: '\u{0}' });
    proof {
        assert(t@ =~= old(t)@ + (seq![fe2(0xFB00, '\u{66}', '\u{66}')]));
    }
    t.push_entry(FoldEntry { key: 0xFB01, count: 2, r0: '\u{66}', r1: '\u{69}', r2: '\u{0}', r3: '\u{0}' });
    proof {
        assert(t@ =~= old(t)@ + (seq![fe2(0xFB00, '\u{66}', '\u{66}')] + seq![fe2(0xFB01, '\u{66}', '\u{69}')]));
    }
    t.push_entry(FoldEntry { key: 0xFB02, count: 2, r0: '\u{66}', r1: '\u{6C}', r2: '\u{0}', r3: '\u{0}' });
    proof {
        assert(t@ =~= old(t)@ + (seq![fe2(0xFB00, '\u{66}', '\u{66}')] + seq![fe2(0xFB01, '\u{66}', '\u{69}')] + seq![fe2(0xFB02, '\u{66}', '\u{6C}')]));
    }
    t.push_entry(FoldEntry { key: 0xFB03, count: 3, r0: '\u{66}', r1: '\u{66}', r2: '\u{69}', r3: '\u{0}' });
    proof {
        assert(t@ =~= old(t)@ + (seq![fe2(0xFB00, '\u{66}', '\u{66}')] + seq![fe2(0xFB01, '\u{66}', '\u{69}')] + seq![fe2(0xFB02, '\u{66}', '\u{6C}')] + seq![fe3(0xFB03, '\u{66}', '\u{66}', '\u{69}')]));
    }
    t.push_entry(FoldEntry { key: 0xFB04, count: 3, r0: '\u{66}', r1: '\u{66}', r2: '\u{6C}', r3: '\u{0}' });
    proof {
        assert(t@ =~= old(t)@ + (seq![fe2(0xFB00, '\u{66}', '\u{66}')] + seq![fe2(0xFB01, '\u{66}', '\u{69}')] + seq![fe2(0xFB02, '\u{66}', '\u{6C}')] + seq![fe3(0xFB03, '\u{66}', '\u{66}', '\u{69}')] + seq![fe3(0xFB04, '\u{66}', '\u{66}', '\u{6C}')]));
    }
    t.push_entry(FoldEntry { key: 0xFB05, count: 2, r0: '\u{73}', r1: '\u{74}', r2: '\u{0}', r3: '\u{0}' });
    proof {
        assert(t@ =~= old(t)@ + (seq![fe2(0xFB00, '\u{66}', '\u{66}')] + seq![fe2(0xFB01, '\u{66}', '\u{69}')] + seq![fe2(0xFB02, '\u{66}', '\u{6C}')] + seq![fe3(0xFB03, '\u{66}', '\u{66}', '\u{69}')] + seq![fe3(0xFB04, '\u{66}', '\u{66}', '\u{6C}')] + seq![fe2(0xFB05, '\u{73}', '\u{74}')]));
    }
    proof {
        assert(t@ =~= old(t)@ + cf_ligatures_0());
    }
}

/// Appends the case-fold mappings for the Latin and Armenian ligatures, part 2.
#[verifier::rlimit(100)]
fn push_cf_ligatures_1(t: &mut FoldTable)
    requires
        old(t).wf(),
        old(t)@.len() > 0 ==> old(t)@.last().key < 0xFB06,
    ensures
        final(t)@ == old(t)@ + cf_ligatures_1(),
        final(t).wf(),
        final(t)@.last().key == 0xFB17,
{
    t.push_entry(FoldEntry { key: 0xFB06, count: 2, r0: '\u{73}', r1: '\u{74}', r2: '\u{0}', r3: '\u{0}' });
    proof {
        assert(t@ =~= old(t)@ + (seq![fe2(0xFB06, '\u{73}', '\u{74}')]));
    }
    t.push_entry(FoldEntry { key: 0xFB13, count: 2, r0: '\u{574}', r1: '\u{576}', r2: '\u{0}', r3: '\u{0}' });
    proof {
        assert(t@ =~= old(t)@ + (seq![fe2(0xFB06, '\u{73}', '\u{74}')] + seq![fe2(0xFB13, '\u{574}', '\u{576}')]));
    }
    t.push_entry(FoldEntry { key: 0xFB14, count: 2, r0: '\u{574}', r1: '\u{565}', r2: '\u{0}', r3: '\u{0}' });
    proof {
        assert(t@ =~= old(t)@ + (seq![fe2(0xFB06, '\u{73}', '\u{74}')] + seq![fe2(0xFB13, '\u{574}', '\u{576}')] + seq![fe2(0xFB14, '\u{574}', '\u{565}')]));
    }
    t.push_entry(FoldEntry { key: 0xFB15, count: 2, r0: '\u{574}', r1: '\u{56B}', r2: '\u{0}', r3: '\u{0}' });
    proof {
        assert(t@ =~= old(t)@ + (seq![fe2(0xFB06, '\u{73}', '\u{74}')] + seq![fe2(0xFB13, '\u{574}', '\u{576}')] + seq![fe2(0xFB14, '\u{574}', '\u{565}')] + seq![fe2(0xFB15, '\u{574}', '\u{56B}')]));
    }
    t.push_entry(FoldEntry { key: 0xFB16, count: 2, r0: '\u{57E}', r1: '\u{576}', r2: '\u{0}', r3: '\u{0}' });
    proof {
        assert(t@ =~= old(t)@ + (seq![fe2(0xFB06, '\u{73}', '\u{74}')] + seq![fe2(0xFB13, '\u{574}', '\u{576}')] + seq![fe2(0xFB14, '\u{574}', '\u{565}')] + seq![fe2(0xFB15, '\u{574}', '\u{56B}')] + seq![fe2(0xFB16, '\u{57E}', '\u{576}')]));
    }
    t.push_entry(FoldEntry { key: 0xFB17, count: 2, r0: '\u{574}', r1: '\u{56D}', r2: '\u{0}', r3: '\u{0}' });
    proof {
        assert(t@ =~= old(t)@ + (seq![fe2(0xFB06, '\u{73}', '\u{74}')] + seq![fe2(0xFB13, '\u{574}', '\u{576}')] + seq![fe2(0xFB14, '\u{574}', '\u{565}')] + seq![fe2(0xFB15, '\u{574}', '\u{56B}')] + seq![fe2(0xFB16, '\u{57E}', '\u{576}')] + seq![fe2(0xFB17, '\u{574}', '\u{56D}')]));
    }
    proof {
        assert(t@ =~= old(t)@ + cf_ligatures_1());
    }
}

/// Appends the case-fold mappings for fullwidth letters and the Deseret block.
#[verifier::rlimit(100)]
fn push_cf_wide_and_deseret(t: &mut FoldTable)
    requires
        old(t).wf(),
        old(t)@.len() > 0 ==> old(t)@.last().key < 0xFF21,
    ensures
        final(t)@ == old(t)@ + cf_wide_and_deseret(),
        final(t).wf(),
        final(t)@.last().key == 0x10425,
{
    push_fold_run(t, 0xFF21, 0x20, 26);
    proof {
        assert(t@ =~= old(t)@ + (fold_run(0xFF21, 0x20, 26)));
    }
    push_fold_run(t, 0x10400, 0x28, 38);
    proof {
        assert(t@ =~= old(t)@ + (fold_run(0xFF21, 0x20, 26) + fold_run(0x10400, 0x28, 38)));
    }
    proof {
        assert(t@ =~= old(t)@ + cf_wide_and_deseret());
    }
}

/// Appends the case-fold mappings for the mathematical Latin alphabets, part 1.
#[verifier::rlimit(100)]
fn push_cf_math_latin_0(t: &mut FoldTable)
    requires
        old(t).wf(),
        old(t)@.len() > 0 ==> old(t)@.last().key < 0x1D400,
    ensures
        final(t)@ == old(t)@ + cf_math_latin_0(),
        final(t).wf(),
        final(t)@.last().key == 0x1D49F,
{
    push_fold_run_down(t, 0x1D400, 0x1D39F, 26);
    proof {
        assert(t@ =~= old(t)@ + (fold_run(0x1D400, -0x1D39F, 26)));
    }
    push_fold_run_down(t, 0x1D434, 0x1D3D3, 26);
    proof {
        assert(t@ =~= old(t)@ + (fold_run(0x1D400, -0x1D39F, 26) + fold_run(0x1D434, -0x1D3D3, 26)));
    }
    push_fold_run_down(t, 0x1D468, 0x1D407, 26);
    proof {
        assert(t@ =~= old(t)@ + (fold_run(0x1D400, -0x1D39F, 26) + fold_run(0x1D434, -0x1D3D3, 26) + fold_run(0x1D468, -0x1D407, 26)));
    }
    t.push_entry(FoldEntry { key: 0x1D49C, count: 1, r0: '\u{61}', r1: '\u{0}', r2: '\u{0}', r3: '\u{0}' });
    proof {
        assert(t@ =~= old(t)@ + (fold_run(0x1D400, -0x1D39F, 26) + fold_run(0x1D434, -0x1D3D3, 26) + fold_run(0x1D468, -0x1D407, 26) + seq![fe1(0x1D49C, '\u{61}')]));
    }
    t.push_entry(FoldEntry { key: 0x1D49E, count: 1, r0: '\u{63}', r1: '\u{0}', r2: '\u{0}', r3: '\u{0}' });
    proof {
        assert(t@ =~= old(t)@ + (fold_run(0x1D400, -0x1D39F, 26) + fold_run(0x1D434, -0x1D3D3, 26) + fold_run(0x1D468, -0x1D407, 26) + seq![fe1(0x1D49C, '\u{61}')] + seq![fe1(0x1D49E, '\u{63}')]));
    }
    t.push_entry(FoldEntry { key: 0x1D49F, count: 1, r0: '\u{64}', r1: '\u{0}', r2: '\u{0}', r3: '\u{0}' });
    proof {
        assert(t@ =~= old(t)@ + (fold_run(0x1D400, -0x1D39F, 26) + fold_run(0x1D434, -0x1D3D3, 26) + fold_run(0x1D468, -0x1D407, 26) + seq![fe1(0x1D49C, '\u{61}')] + seq![fe1(0x1D49E, '\u{63}')] + seq![fe1(0x1D49F, '\u{64}')]));
    }
    proof {
        assert(t@ =~= old(t)@ + cf_math_latin_0());
    }
}

/// Appends the case-fold mappings for the mathematical Latin alphabets, part 2.
#[verifier::rlimit(100)]
fn push_cf_math_latin_1(t: &mut FoldTable)
    requires
        old(t).wf(),
        old(t)@.len() > 0 ==> old(t)@.last().key < 0x1D4A2,
    ensures
        final(t)@ == old(t)@ + cf_math_latin_1(),
        final(t).wf(),
        final(t)@.last().key == 0x1D4AB,
{
    t.push_entry(FoldEntry { key: 0x1D4A2, count: 1, r0: '\u{67}', r1: '\u{0}', r2: '\u{0}', r3: '\u{0}' });
    proof {
        assert(t@ =~= old(t)@ + (seq![fe1(0x1D4A2, '\u{67}')]));
    }
    t.push_entry(FoldEntry { key: 0x1D4A5, count: 1, r0: '\u{6A}', r1: '\u{0}', r2: '\u{0}', r3: '\u{0}' });
    proof {
        assert(t@ =~= old(t)@ + (seq![fe1(0x1D4A2, '\u{67}')] + seq![fe1(0x1D4A5, '\u{6A}')]));
    }
    t.push_entry(FoldEntry { key: 0x1D4A6, count: 1, r0: '\u{6B}', r1: '\u{0}', r2: '\u{0}', r3: '\u{0}' });
    proof {
        assert(t@ =~= old(t)@ + (seq![fe1(0x1D4A2, '\u{67}')] + seq![fe1(0x1D4A5, '\u{6A}')] + seq![fe1(0x1D4A6, '\u{6B}')]));
    }
    t.push_entry(FoldEntry { key: 0x1D4A9, count: 1, r0: '\u{6E}', r1: '\u{0}', r2: '\u{0}', r3: '\u{0}' });
    proof {
        assert(t@ =~= old(t)@ + (seq![fe1(0x1D4A2, '\u{67}')] + seq![fe1(0x1D4A5, '\u{6A}')] + seq![fe1(0x1D4A6, '\u{6B}')] + seq![fe1(0x1D4A9, '\u{6E}')]));
    }
    t.push_entry(FoldEntry { key: 0x1D4AA, count: 1, r0: '\u{6F}', r1: '\u{0}', r2: '\u{0}', r3: '\u{0}' });
    proof {
        assert(t@ =~= old(t)@ + (seq![fe1(0x1D4A2, '\u{67}')] + seq![fe1(0x1D4A5, '\u{6A}')] + seq![fe1(0x1D4A6, '\u{6B}')] + seq![fe1(0x1D4A9, '\u{6E}')] + seq![fe1(0x1D4AA, '\u{6F}')]));
    }
    t.push_entry(FoldEntry { key: 0x1D4AB, count: 1, r0: '\u{70}', r1: '\u{0}', r2: '\u{0}', r3: '\u{0}' });
    proof {
        assert(t@ =~= old(t)@ + (seq![fe1(0x1D4A2, '\u{67}')] + seq![fe1(0x1D4A5, '\u{6A}')] + seq![fe1(0x1D4A6, '\u{6B}')] + seq![fe1(0x1D4A9, '\u{6E}')] + seq![fe1(0x1D4AA, '\u{6F}')] + seq![fe1(0x1D4AB, '\u{70}')]));
    }
    proof {
        assert(t@ =~= old(t)@ + cf_math_latin_1());
    }
}

/// Appends the case-fold mappings for the mathematical Latin alphabets, part 3.
#[verifier::rlimit(100)]
fn push_cf_math_latin_2(t: &mut FoldTable)
    requires
        old(t).wf(),
        old(t)@.len() > 0 ==> old(t)@.last().key < 0x1D4AC,
    ensures
        final(t)@ == old(t)@ + cf_math_latin_2(),
        final(t).wf(),
        final(t)@.last().key == 0x1D4B2,
{
    t.push_entry(FoldEntry { key: 0x1D4AC, count: 1, r0: '\u{71}', r1: '\u{0}', r2: '\u{0}', r3: '\u{0}' });
    proof {
        assert(t@ =~= old(t)@ + (seq![fe1(0x1D4AC, '\u{71}')]));
    }
    t.push_entry(FoldEntry { key: 0x1D4AE, count: 1, r0: '\u{73}', r1: '\u{0}', r2: '\u{0}', r3: '\u{0}' });
    proof {
        assert(t@ =~= old(t)@ + (seq![fe1(0x1D4AC, '\u{71}')] + seq![fe1(0x1D4AE, '\u{73}')]));
    }
    t.push_entry(FoldEntry { key: 0x1D4AF, count: 1, r0: '\u{74}', r1: '\u{0}', r2: '\u{0}', r3: '\u{0}' });
    proof {
        assert(t@ =~= old(t)@ + (seq![fe1(0x1D4AC, '\u{71}')] + seq![fe1(0x1D4AE, '\u{73}')] + seq![fe1(0x1D4AF, '\u{74}')]));
    }
    t.push_entry(FoldEntry { key: 0x1D4B0, count: 1, r0: '\u{75}', r1: '\u{0}', r2: '\u{0}', r3: '\u{0}' });
    proof {
        assert(t@ =~= old(t)@ + (seq![fe1(0x1D4AC, '\u{71}')] + seq![fe1(0x1D4AE, '\u{73}')] + seq![fe1(0x1D4AF, '\u{74}')] + seq![fe1(0x1D4B0, '\u{75}')]));
    }
    t.push_entry(FoldEntry { key: 0x1D4B1, count: 1, r0: '\u{76}', r1: '\u{0}', r2: '\u{0}', r3: '\u{0}' });
    proof {
        assert(t@ =~= old(t)@ + (seq![fe1(0x1D4AC, '\u{71}')] + seq![fe1(0x1D4AE, '\u{73}')] + seq![fe1(0x1D4AF, '\u{74}')] + seq![fe1(0x1D4B0, '\u{75}')] + seq![fe1(0x1D4B1, '\u{76}')]));
    }
    t.push_entry(FoldEntry { key: 0x1D4B2, count: 1, r0: '\u{77}', r1: '\u{0}', r2: '\u{0}', r3: '\u{0}' });
    proof {
        assert(t@ =~= old(t)@ + (seq![fe1(0x1D4AC, '\u{71}')] + seq![fe1(0x1D4AE, '\u{73}')] + seq![fe1(0x1D4AF, '\u{74}')] + seq![fe1(0x1D4B0, '\u{75}')] + seq![fe1(0x1D4B1, '\u{76}')] + seq![fe1(0x1D4B2, '\u{77}')]));
    }
    proof {
        assert(t@ =~= old(t)@ + cf_math_latin_2());
    }
}

/// Appends the case-fold mappings for the mathematical Latin alphabets, part 4.
#[verifier::rlimit(100)]
fn push_cf_math_latin_3(t: &mut FoldTable)
    requires
        old(t).wf(),
        old(t)@.len() > 0 ==> old(t)@.last().key < 0x1D4B3,
    ensures
        final(t)@ == old(t)@ + cf_math_latin_3(),
        final(t).wf(),
        final(t)@.last().key == 0x1D505,
{
    t.push_entry(FoldEntry { key: 0x1D4B3, count: 1, r0: '\u{78}', r1: '\u{0}', r2: '\u{0}', r3: '\u{0}' });
    proof {
        assert(t@ =~= old(t)@ + (seq![fe1(0x1D4B3, '\u{78}')]));
    }
    t.push_entry(FoldEntry { key: 0x1D4B4, count: 1, r0: '\u{79}', r1: '\u{0}', r2: '\u{0}', r3: '\u{0}' });
    proof {
        assert(t@ =~= old(t)@ + (seq![fe1(0x1D4B3, '\u{78}')] + seq![fe1(0x1D4B4, '\u{79}')]));
    }
    t.push_entry(FoldEntry { key: 0x1D4B5, count: 1, r0: '\u{7A}', r1: '\u{0}', r2: '\u{0}', r3: '\u{0}' });
    proof {
        assert(t@ =~= old(t)@ + (seq![fe1(0x1D4B3, '\u{78}')] + seq![fe1(0x1D4B4, '\u{79}')] + seq![fe1(0x1D4B5, '\u{7A}')]));
    }
    push_fold_run_down(t, 0x1D4D0, 0x1D46F, 26);
    proof {
        assert(t@ =~= old(t)@ + (seq![fe1(0x1D4B3, '\u{78}')] + seq![fe1(0x1D4B4, '\u{79}')] + seq![fe1(0x1D4B5, '\u{7A}')] + fold_run(0x1D4D0, -0x1D46F, 26)));
    }
    t.push_entry(FoldEntry { key: 0x1D504, count: 1, r0: '\u{61}', r1: '\u{0}', r2: '\u{0}', r3: '\u{0}' });
    proof {
        assert(t@ =~= old(t)@ + (seq![fe1(0x1D4B3, '\u{78}')] + seq![fe1(0x1D4B4, '\u{79}')] + seq![fe1(0x1D4B5, '\u{7A}')] + fold_run(0x1D4D0, -0x1D46F, 26) + seq![fe1(0x1D504, '\u{61}')]));
    }
    t.push_entry(FoldEntry { key: 0x1D505, count: 1, r0: '\u{62}', r1: '\u{0}', r2: '\u{0}', r3: '\u{0}' });
    proof {
        assert(t@ =~= old(t)@ + (seq![fe1(0x1D4B3, '\u{78}')] + seq![fe1(0x1D4B4, '\u{79}')] + seq![fe1(0x1D4B5, '\u{7A}')] + fold_run(0x1D4D0, -0x1D46F, 26) + seq![fe1(0x1D504, '\u{61}')] + seq![fe1(0x1D505, '\u{62}')]));
    }
    proof {
        assert(t@ =~= old(t)@ + cf_math_latin_3());
    }
}

/// Appends the case-fold mappings for the mathematical Latin alphabets, part 5.
#[verifier::rlimit(100)]
fn push_cf_math_latin_4(t: &mut FoldTable)
    requires
        old(t).wf(),
        old(t)@.len() > 0 ==> old(t)@.last().key < 0x1D507,
    ensures
        final(t)@ == old(t)@ + cf_math_latin_4(),
        final(t).wf(),
        final(t)@.last().key == 0x1D50E,
{
    t.push_entry(FoldEntry { key: 0x1D507, count: 1, r0: '\u{64}', r1: '\u{0}', r2: '\u{0}', r3: '\u{0}' });
    proof {
        assert(t@ =~= old(t)@ + (seq![fe1(0x1D507, '\u{64}')]));
    }
    t.push_entry(FoldEntry { key: 0x1D508, count: 1, r0: '\u{65}', r1: '\u{0}', r2: '\u{0}', r3: '\u{0}' });
    proof {
        assert(t@ =~= old(t)@ + (seq![fe1(0x1D507, '\u{64}')] + seq![fe1(0x1D508, '\u{65}')]));
    }
    t.push_entry(FoldEntry { key: 0x1D509, count: 1, r0: '\u{66}', r1: '\u{0}', r2: '\u{0}', r3: '\u{0}' });
    proof {
        assert(t@ =~= old(t)@ + (seq![fe1(0x1D507, '\u{64}')] + seq![fe1(0x1D508, '\u{65}')] + seq![fe1(0x1D509, '\u{66}')]));
    }
    t.push_entry(FoldEntry { key: 0x1D50A, count: 1, r0: '\u{67}', r1: '\u{0}', r2: '\u{0}', r3: '\u{0}' });
    proof {
        assert(t@ =~= old(t)@ + (seq![fe1(0x1D507, '\u{64}')] + seq![fe1(0x1D508, '\u{65}')] + seq![fe1(0x1D509, '\u{66}')] + seq![fe1(0x1D50A, '\u{67}')]));
    }
    t.push_entry(FoldEntry { key: 0x1D50D, count: 1, r0: '\u{6A}', r1: '\u{0}', r2: '\u{0}', r3: '\u{0}' });
    proof {
        assert(t@ =~= old(t)@ + (seq![fe1(0x1D507, '\u{64}')] + seq![fe1(0x1D508, '\u{65}')] + seq![fe1(0x1D509, '\u{66}')] + seq![fe1(0x1D50A, '\u{67}')] + seq![fe1(0x1D50D, '\u{6A}')]));
    }
    t.push_entry(FoldEntry { key: 0x1D50E, count: 1, r0: '\u{6B}', r1: '\u{0}', r2: '\u{0}', r3: '\u{0}' });
    proof {
        assert(t@ =~= old(t)@ + (seq![fe1(0x1D507, '\u{64}')] + seq![fe1(0x1D508, '\u{65}')] + seq![fe1(0x1D509, '\u{66}')] + seq![fe1(0x1D50A, '\u{67}')] + seq![fe1(0x1D50D, '\u{6A}')] + seq![fe1(0x1D50E, '\u{6B}')]));
    }
    proof {
        assert(t@ =~= old(t)@ + cf_math_latin_4());
    }
}

/// Appends the case-fold mappings for the mathematical Latin alphabets, part 6.
#[verifier::rlimit(100)]
fn push_cf_math_latin_5(t: &mut FoldTable)
    requires
        old(t).wf(),
        old(t)@.len() > 0 ==> old(t)@.last().key < 0x1D50F,
    ensures
        final(t)@ == old(t)@ + cf_math_latin_5(),
        final(t).wf(),
        final(t)@.last().key == 0x1D514,
{
    t.push_entry(FoldEntry { key: 0x1D50F, count: 1, r0: '\u{6C}', r1: '\u{0}', r2: '\u{0}', r3: '\u{0}' });
    proof {
        assert(t@ =~= old(t)@ + (seq![fe1(0x1D50F, '\u{6C}')]));
    }
    t.push_entry(FoldEntry { key: 0x1D510, count: 1, r0: '\u{6D}', r1: '\u{0}', r2: '\u{0}', r3: '\u{0}' });
    proof {
        assert(t@ =~= old(t)@ + (seq![fe1(0x1D50F, '\u{6C}')] + seq![fe1(0x1D510, '\u{6D}')]));
    }
    t.push_entry(FoldEntry { key: 0x1D511, count: 1, r0: '\u{6E}', r1: '\u{0}', r2: '\u{0}', r3: '\u{0}' });
    proof {
        assert(t@ =~= old(t)@ + (seq![fe1(0x1D50F, '\u{6C}')] + seq![fe1(0x1D510, '\u{6D}')] + seq![fe1(0x1D511, '\u{6E}')]));
    }
    t.push_entry(FoldEntry { key: 0x1D512, count: 1, r0: '\u{6F}', r1: '\u{0}', r2: '\u{0}', r3: '\u{0}' });
    proof {
        assert(t@ =~= old(t)@ + (seq![fe1(0x1D50F, '\u{6C}')] + seq![fe1(0x1D510, '\u{6D}')] + seq![fe1(0x1D511, '\u{6E}')] + seq![fe1(0x1D512, '\u{6F}')]));
    }
    t.push_entry(FoldEntry { key: 0x1D513, count: 1, r0: '\u{70}', r1: '\u{0}', r2: '\u{0}', r3: '\u{0}' });
    proof {
        assert(t@ =~= old(t)@ + (seq![fe1(0x1D50F, '\u{6C}')] + seq![fe1(0x1D510, '\u{6D}')] + seq![fe1(0x1D511, '\u{6E}')] + seq![fe1(0x1D512, '\u{6F}')] + seq![fe1(0x1D513, '\u{70}')]));
    }
    t.push_entry(FoldEntry { key: 0x1D514, count: 1, r0: '\u{71}', r1: '\u{0}', r2: '\u{0}', r3: '\u{0}' });
    proof {
        assert(t@ =~= old(t)@ + (seq![fe1(0x1D50F, '\u{6C}')] + seq![fe1(0x1D510, '\u{6D}')] + seq![fe1(0x1D511, '\u{6E}')] + seq![fe1(0x1D512, '\u{6F}')] + seq![fe1(0x1D513, '\u{70}')] + seq![fe1(0x1D514, '\u{71}')]));
    }
    proof {
        assert(t@ =~= old(t)@ + cf_math_latin_5());
    }
}

/// Appends the case-fold mappings for the mathematical Latin alphabets, part 7.
#[verifier::rlimit(100)]
fn push_cf_math_latin_6(t: &mut FoldTable)
    requires
        old(t).wf(),
        old(t)@.len() > 0 ==> old(t)@.last().key < 0x1D516,
    ensures
        final(t)@ == old(t)@ + cf_math_latin_6(),
        final(t).wf(),
        final(t)@.last().key == 0x1D51B,
{
    t.push_entry(FoldEntry { key: 0x1D516, count: 1, r0: '\u{73}', r1: '\u{0}', r2: '\u{0}', r3: '\u{0}' });
    proof {
        assert(t@ =~= old(t)@ + (seq![fe1(0x1D516, '\u{73}')]));
    }
    t.push_entry(FoldEntry { key: 0x1D517, count: 1, r0: '\u{74}', r1: '\u{0}', r2: '\u{0}', r3: '\u{0}' });
    proof {
        assert(t@ =~= old(t)@ + (seq![fe1(0x1D516, '\u{73}')] + seq![fe1(0x1D517, '\u{74}')]));
    }
    t.push_entry(FoldEntry { key: 0x1D518, count: 1, r0: '\u{75}', r1: '\u{0}', r2: '\u{0}', r3: '\u{0}' });
    proof {
        assert(t@ =~= old(t)@ + (seq![fe1(0x1D516, '\u{73}')] + seq![fe1(0x1D517, '\u{74}')] + seq![fe1(0x1D518, '\u{75}')]));
    }
    t.push_entry(FoldEntry { key: 0x1D519, count: 1, r0: '\u{76}', r1: '\u{0}', r2: '\u{0}', r3: '\u{0}' });
    proof {
        assert(t@ =~= old(t)@ + (seq![fe1(0x1D516, '\u{73}')] + seq![fe1(0x1D517, '\u{74}')] + seq![fe1(0x1D518, '\u{75}')] + seq![fe1(0x1D519, '\u{76}')]));
    }
    t.push_entry(FoldEntry { key: 0x1D51A, count: 1, r0: '\u{77}', r1: '\u{0}', r2: '\u{0}', r3: '\u{0}' });
    proof {
        assert(t@ =~= old(t)@ + (seq![fe1(0x1D516, '\u{73}')] + seq![fe1(0x1D517, '\u{74}')] + seq![fe1(0x1D518, '\u{75}')] + seq![fe1(0x1D519, '\u{76}')] + seq![fe1(0x1D51A, '\u{77}')]));
    }
    t.push_entry(FoldEntry { key: 0x1D51B, count: 1, r0: '\u{78}', r1: '\u{0}', r2: '\u{0}', r3: '\u{0}' });
    proof {
        assert(t@ =~= old(t)@ + (seq![fe1(0x1D516, '\u{73}')] + seq![fe1(0x1D517, '\u{74}')] + seq![fe1(0x1D518, '\u{75}')] + seq![fe1(0x1D519, '\u{76}')] + seq![fe1(0x1D51A, '\u{77}')] + seq![fe1(0x1D51B, '\u{78}')]));
    }
    proof {
        assert(t@ =~= old(t)@ + cf_math_latin_6());
    }
}

/// Appends the case-fold mappings for the mathematical Latin alphabets, part 8.
#[verifier::rlimit(100)]
fn push_cf_math_latin_7(t: &mut FoldTable)
    requires
        old(t).wf(),
        old(t)@.len() > 0 ==> old(t)@.last().key < 0x1D51C,
    ensures
        final(t)@ == old(t)@ + cf_math_latin_7(),
        final(t).wf(),
        final(t)@.last().key == 0x1D53D,
{
    t.push_entry(FoldEntry { key: 0x1D51C, count: 1, r0: '\u{79}', r1: '\u{0}', r2: '\u{0}', r3: '\u{0}' });
    proof {
        assert(t@ =~= old(t)@ + (seq![fe1(0x1D51C, '\u{79}')]));
    }
    t.push_entry(FoldEntry { key: 0x1D538, count: 1, r0: '\u{61}', r1: '\u{0}', r2: '\u{0}', r3: '\u{0}' });
    proof {
        assert(t@ =~= old(t)@ + (seq![fe1(0x1D51C, '\u{79}')] + seq![fe1(0x1D538, '\u{61}')]));
    }
    t.push_entry(FoldEntry { key: 0x1D539, count: 1, r0: '\u{62}', r1: '\u{0}', r2: '\u{0}', r3: '\u{0}' });
    proof {
        assert(t@ =~= old(t)@ + (seq![fe1(0x1D51C, '\u{79}')] + seq![fe1(0x1D538, '\u{61}')] + seq![fe1(0x1D539, '\u{62}')]));
    }
    t.push_entry(FoldEntry { key: 0x1D53B, count: 1, r0: '\u{64}', r1: '\u{0}', r2: '\u{0}', r3: '\u{0}' });
    proof {
        assert(t@ =~= old(t)@ + (seq![fe1(0x1D51C, '\u{79}')] + seq![fe1(0x1D538, '\u{61}')] + seq![fe1(0x1D539, '\u{62}')] + seq![fe1(0x1D53B, '\u{64}')]));
    }
    t.push_entry(FoldEntry { key: 0x1D53C, count: 1, r0: '\u{65}', r1: '\u{0}', r2: '\u{0}', r3: '\u{0}' });
    proof {
        assert(t@ =~= old(t)@ + (seq![fe1(0x1D51C, '\u{79}')] + seq![fe1(0x1D538, '\u{61}')] + seq![fe1(0x1D539, '\u{62}')] + seq![fe1(0x1D53B, '\u{64}')] + seq![fe1(0x1D53C, '\u{65}')]));
    }
    t.push_entry(FoldEntry { key: 0x1D53D, count: 1, r0: '\u{66}', r1: '\u{0}', r2: '\u{0}', r3: '\u{0}' });
    proof {
        assert(t@ =~= old(t)@ + (seq![fe1(0x1D51C, '\u{79}')] + seq![fe1(0x1D538, '\u{61}')] + seq![fe1(0x1D539, '\u{62}')] + seq![fe1(0x1D53B, '\u{64}')] + seq![fe1(0x1D53C, '\u{65}')] + seq![fe1(0x1D53D, '\u{66}')]));
    }
    proof {
        assert(t@ =~= old(t)@ + cf_math_latin_7());
    }
}

/// Appends the case-fold mappings for the mathematical Latin alphabets, part 9.
#[verifier::rlimit(100)]
fn push_cf_math_latin_8(t: &mut FoldTable)
    requires
        old(t).wf(),
        old(t)@.len() > 0 ==> old(t)@.last().key < 0x1D53E,
    ensures
        final(t)@ == old(t)@ + cf_math_latin_8(),
        final(t).wf(),
        final(t)@.last().key == 0x1D544,
{
    t.push_entry(FoldEntry { key: 0x1D53E, count: 1, r0: '\u{67}', r1: '\u{0}', r2: '\u{0}', r3: '\u{0}' });
    proof {
        assert(t@ =~= old(t)@ + (seq![fe1(0x1D53E, '\u{67}')]));
    }
    t.push_entry(FoldEntry { key: 0x1D540, count: 1, r0: '\u{69}', r1: '\u{0}', r2: '\u{0}', r3: '\u{0}' });
    proof {
        assert(t@ =~= old(t)@ + (seq![fe1(0x1D53E, '\u{67}')] + seq![fe1(0x1D540, '\u{69}')]));
    }
    t.push_entry(FoldEntry { key: 0x1D541, count: 1, r0: '\u{6A}', r1: '\u{0}', r2: '\u{0}', r3: '\u{0}' });
    proof {
        assert(t@ =~= old(t)@ + (seq![fe1(0x1D53E, '\u{67}')] + seq![fe1(0x1D540, '\u{69}')] + seq![fe1(0x1D541, '\u{6A}')]));
    }
    t.push_entry(FoldEntry { key: 0x1D542, count: 1, r0: '\u{6B}', r1: '\u{0}', r2: '\u{0}', r3: '\u{0}' });
    proof {
        assert(t@ =~= old(t)@ + (seq![fe1(0x1D53E, '\u{67}')] + seq![fe1(0x1D540, '\u{69}')] + seq![fe1(0x1D541, '\u{6A}')] + seq![fe1(0x1D542, '\u{6B}')]));
    }
    t.push_entry(FoldEntry { key: 0x1D543, count: 1, r0: '\u{6C}', r1: '\u{0}', r2: '\u{0}', r3: '\u{0}' });
    proof {
        assert(t@ =~= old(t)@ + (seq![fe1(0x1D53E, '\u{67}')] + seq![fe1(0x1D540, '\u{69}')] + seq![fe1(0x1D541, '\u{6A}')] + seq![fe1(0x1D542, '\u{6B}')] + seq![fe1(0x1D543, '\u{6C}')]));
    }
    t.push_entry(FoldEntry { key: 0x1D544, count: 1, r0: '\u{6D}', r1: '\u{0}', r2: '\u{0}', r3: '\u{0}' });
    proof {
        assert(t@ =~= old(t)@ + (seq![fe1(0x1D53E, '\u{67}')] + seq![fe1(0x1D540, '\u{69}')] + seq![fe1(0x1D541, '\u{6A}')] + seq![fe1(0x1D542, '\u{6B}')] + seq![fe1(0x1D543, '\u{6C}')] + seq![fe1(0x1D544, '\u{6D}')]));
    }
    proof {
        assert(t@ =~= old(t)@ + cf_math_latin_8());
    }
}

/// Appends the case-fold mappings for the mathematical Latin alphabets, part 10.
#[verifier::rlimit(100)]
fn push_cf_math_latin_9(t: &mut FoldTable)
    requires
        old(t).wf(),
        old(t)@.len() > 0 ==> old(t)@.last().key < 0x1D546,
    ensures
        final(t)@ == old(t)@ + cf_math_latin_9(),
        final(t).wf(),
        final(t)@.last().key == 0x1D54E,
{
    t.push_entry(FoldEntry { key: 0x1D546, count: 1, r0: '\u{6F}', r1: '\u{0}', r2: '\u{0}', r3: '\u{0}' });
    proof {
        assert(t@ =~= old(t)@ + (seq![fe1(0x1D546, '\u{6F}')]));
    }
    t.push_entry(FoldEntry { key: 0x1D54A, count: 1, r0: '\u{73}', r1: '\u{0}', r2: '\u{0}', r3: '\u{0}' });
    proof {
        assert(t@ =~= old(t)@ + (seq![fe1(0x1D546, '\u{6F}')] + seq![fe1(0x1D54A, '\u{73}')]));
    }
    t.push_entry(FoldEntry { key: 0x1D54B, count: 1, r0: '\u{74}', r1: '\u{0}', r2: '\u{0}', r3: '\u{0}' });
    proof {
        assert(t@ =~= old(t)@ + (seq![fe1(0x1D546, '\u{6F}')] + seq![fe1(0x1D54A, '\u{73}')] + seq![fe1(0x1D54B, '\u{74}')]));
    }
    t.push_entry(FoldEntry { key: 0x1D54C, count: 1, r0: '\u{75}', r1: '\u{0}', r2: '\u{0}', r3: '\u{0}' });
    proof {
        assert(t@ =~= old(t)@ + (seq![fe1(0x1D546, '\u{6F}')] + seq![fe1(0x1D54A, '\u{73}')] + seq![fe1(0x1D54B, '\u{74}')] + seq![fe1(0x1D54C, '\u{75}')]));
    }
    t.push_entry(FoldEntry { key: 0x1D54D, count: 1, r0: '\u{76}', r1: '\u{0}', r2: '\u{0}', r3: '\u{0}' });
    proof {
        assert(t@ =~= old(t)@ + (seq![fe1(0x1D546, '\u{6F}')] + seq![fe1(0x1D54A, '\u{73}')] + seq![fe1(0x1D54B, '\u{74}')] + seq![fe1(0x1D54C, '\u{75}')] + seq![fe1(0x1D54D, '\u{76}')]));
    }
    t.push_entry(FoldEntry { key: 0x1D54E, count: 1, r0: '\u{77}', r1: '\u{0}', r2: '\u{0}', r3: '\u{0}' });
    proof {
        assert(t@ =~= old(t)@ + (seq![fe1(0x1D546, '\u{6F}')] + seq![fe1(0x1D54A, '\u{73}')] + seq![fe1(0x1D54B, '\u{74}')] + seq![fe1(0x1D54C, '\u{75}')] + seq![fe1(0x1D54D, '\u{76}')] + seq![fe1(0x1D54E, '\u{77}')]));
    }
    proof {
        assert(t@ =~= old(t)@ + cf_math_latin_9());
    }
}

/// Appends the case-fold mappings for the mathematical Latin alphabets, part 11.
#[verifier::rlimit(100)]
fn push_cf_math_latin_10(t: &mut FoldTable)
    requires
        old(t).wf(),
        old(t)@.len() > 0 ==> old(t)@.last().key < 0x1D54F,
    ensures
        final(t)@ == old(t)@ + cf_math_latin_10(),
        final(t).wf(),
        final(t)@.last().key == 0x1D621,
{
    t.push_entry(FoldEntry { key: 0x1D54F, count: 1, r0: '\u{78}', r1: '\u{0}', r2: '\u{0}', r3: '\u{0}' });
    proof {
        assert(t@ =~= old(t)@ + (seq![fe1(0x1D54F, '\u{78}')]));
    }
    t.push_entry(FoldEntry { key: 0x1D550, count: 1, r0: '\u{79}', r1: '\u{0}', r2: '\u{0}', r3: '\u{0}' });
    proof {
        assert(t@ =~= old(t)@ + (seq![fe1(0x1D54F, '\u{78}')] + seq![fe1(0x1D550, '\u{79}')]));
    }
    push_fold_run_down(t, 0x1D56C, 0x1D50B, 26);
    proof {
        assert(t@ =~= old(t)@ + (seq![fe1(0x1D54F, '\u{78}')] + seq![fe1(0x1D550, '\u{79}')] + fold_run(0x1D56C, -0x1D50B, 26)));
    }
    push_fold_run_down(t, 0x1D5A0, 0x1D53F, 26);
    proof {
        assert(t@ =~= old(t)@ + (seq![fe1(0x1D54F, '\u{78}')] + seq![fe1(0x1D550, '\u{79}')] + fold_run(0x1D56C, -0x1D50B, 26) + fold_run(0x1D5A0, -0x1D53F, 26)));
    }
    push_fold_run_down(t, 0x1D5D4, 0x1D573, 26);
    proof {
        assert(t@ =~= old(t)@ + (seq![fe1(0x1D54F, '\u{78}')] + seq![fe1(0x1D550, '\u{79}')] + fold_run(0x1D56C, -0x1D50B, 26) + fold_run(0x1D5A0, -0x1D53F, 26) + fold_run(0x1D5D4, -0x1D573, 26)));
    }
    push_fold_run_down(t, 0x1D608, 0x1D5A7, 26);
    proof {
        assert(t@ =~= old(t)@ + (seq![fe1(0x1D54F, '\u{78}')] + seq![fe1(0x1D550, '\u{79}')] + fold_run(0x1D56C, -0x1D50B, 26) + fold_run(0x1D5A0, -0x1D53F, 26) + fold_run(0x1D5D4, -0x1D573, 26) + fold_run(0x1D608, -0x1D5A7, 26)));
    }
    proof {
        assert(t@ =~= old(t)@ + cf_math_latin_10());
    }
}

/// Appends the case-fold mappings for the mathematical Latin alphabets, part 12.
#[verifier::rlimit(100)]
fn push_cf_math_latin_11(t: &mut FoldTable)
    requires
        old(t).wf(),
        old(t)@.len() > 0 ==> old(t)@.last().key < 0x1D63C,
    ensures
        final(t)@ == old(t)@ + cf_math_latin_11(),
        final(t).wf(),
        final(t)@.last().key == 0x1D689,
{
    push_fold_run_down(t, 0x1D63C, 0x1D5DB, 26);
    proof {
        assert(t@ =~= old(t)@ + (fold_run(0x1D63C, -0x1D5DB, 26)));
    }
    push_fold_run_down(t, 0x1D670, 0x1D60F, 26);
    proof {
        assert(t@ =~= old(t)@ + (fold_run(0x1D63C, -0x1D5DB, 26) + fold_run(0x1D670, -0x1D60F, 26)));
    }
    proof {
        assert(t@ =~= old(t)@ + cf_math_latin_11());
    }
}

/// Appends the case-fold mappings for the mathematical Greek alphabets, part 1.
#[verifier::rlimit(100)]
fn push_cf_math_greek_0(t: &mut FoldTable)
    requires
        old(t).wf(),
        old(t)@.len() > 0 ==> old(t)@.last().key < 0x1D6A8,
    ensures
        final(t)@ == old(t)@ + cf_math_greek_0(),
        final(t).wf(),
        final(t)@.last().key == 0x1D6DD,
{
    push_fold_run_down(t, 0x1D6A8, 0x1D2F7, 17);
    proof {
        assert(t@ =~= old(t)@ + (fold_run(0x1D6A8, -0x1D2F7, 17)));
    }
    t.push_entry(FoldEntry { key: 0x1D6B9, count: 1, r0: '\u{3B8}', r1: '\u{0}', r2: '\u{0}', r3: '\u{0}' });
    proof {
        assert(t@ =~= old(t)@ + (fold_run(0x1D6A8, -0x1D2F7, 17) + seq![fe1(0x1D6B9, '\u{3B8}')]));
    }
    t.push_entry(FoldEntry { key: 0x1D6BA, count: 1, r0: '\u{3C3}', r1: '\u{0}', r2: '\u{0}', r3: '\u{0}' });
    proof {
        assert(t@ =~= old(t)@ + (fold_run(0x1D6A8, -0x1D2F7, 17) + seq![fe1(0x1D6B9, '\u{3B8}')] + seq![fe1(0x1D6BA, '\u{3C3}')]));
    }
    push_fold_run_down(t, 0x1D6BB, 0x1D2F7, 6);
    proof {
        assert(t@ =~= old(t)@ + (fold_run(0x1D6A8, -0x1D2F7, 17) + seq![fe1(0x1D6B9, '\u{3B8}')] + seq![fe1(0x1D6BA, '\u{3C3}')] + fold_run(0x1D6BB, -0x1D2F7, 6)));
    }
    t.push_entry(FoldEntry { key: 0x1D6DC, count: 1, r0: '\u{3B5}', r1: '\u{0}', r2: '\u{0}', r3: '\u{0}' });
    proof {
        assert(t@ =~= old(t)@ + (fold_run(0x1D6A8, -0x1D2F7, 17) + seq![fe1(0x1D6B9, '\u{3B8}')] + seq![fe1(0x1D6BA, '\u{3C3}')] + fold_run(0x1D6BB, -0x1D2F7, 6) + seq![fe1(0x1D6DC, '\u{3B5}')]));
    }
    t.push_entry(FoldEntry { key: 0x1D6DD, count: 1, r0: '\u{3B8}', r1: '\u{0}', r2: '\u{0}', r3: '\u{0}' });
    proof {
        assert(t@ =~= old(t)@ + (fold_run(0x1D6A8, -0x1D2F7, 17) + seq![fe1(0x1D6B9, '\u{3B8}')] + seq![fe1(0x1D6BA, '\u{3C3}')] + fold_run(0x1D6BB, -0x1D2F7, 6) + seq![fe1(0x1D6DC, '\u{3B5}')] + seq![fe1(0x1D6DD, '\u{3B8}')]));
    }
    proof {
        assert(t@ =~= old(t)@ + cf_math_greek_0());
    }
}

/// Appends the case-fold mappings for the mathematical Greek alphabets, part 2.
#[verifier::rlimit(100)]
fn push_cf_math_greek_1(t: &mut FoldTable)
    requires
        old(t).wf(),
        old(t)@.len() > 0 ==> old(t)@.last().key < 0x1D6DE,
    ensures
        final(t)@ == old(t)@ + cf_math_greek_1(),
        final(t).wf(),
        final(t)@.last().key == 0x1D6F3,
{
    t.push_entry(FoldEntry { key: 0x1D6DE, count: 1, r0: '\u{3BA}', r1: '\u{0}', r2: '\u{0}', r3: '\u{0}' });
    proof {
        assert(t@ =~= old(t)@ + (seq![fe1(0x1D6DE, '\u{3BA}')]));
    }
    t.push_entry(FoldEntry { key: 0x1D6DF, count: 1, r0: '\u{3C6}', r1: '\u{0}', r2: '\u{0}', r3: '\u{0}' });
    proof {
        assert(t@ =~= old(t)@ + (seq![fe1(0x1D6DE, '\u{3BA}')] + seq![fe1(0x1D6DF, '\u{3C6}')]));
    }
    t.push_entry(FoldEntry { key: 0x1D6E0, count: 1, r0: '\u{3C1}', r1: '\u{0}', r2: '\u{0}', r3: '\u{0}' });
    proof {
        assert(t@ =~= old(t)@ + (seq![fe1(0x1D6DE, '\u{3BA}')] + seq![fe1(0x1D6DF, '\u{3C6}')] + seq![fe1(0x1D6E0, '\u{3C1}')]));
    }
    t.push_entry(FoldEntry { key: 0x1D6E1, count: 1, r0: '\u{3C0}', r1: '\u{0}', r2: '\u{0}', r3: '\u{0}' });
    proof {
        assert(t@ =~= old(t)@ + (seq![fe1(0x1D6DE, '\u{3BA}')] + seq![fe1(0x1D6DF, '\u{3C6}')] + seq![fe1(0x1D6E0, '\u{3C1}')] + seq![fe1(0x1D6E1, '\u{3C0}')]));
    }
    push_fold_run_down(t, 0x1D6E2, 0x1D331, 17);
    proof {
        assert(t@ =~= old(t)@ + (seq![fe1(0x1D6DE, '\u{3BA}')] + seq![fe1(0x1D6DF, '\u{3C6}')] + seq![fe1(0x1D6E0, '\u{3C1}')] + seq![fe1(0x1D6E1, '\u{3C0}')] + fold_run(0x1D6E2, -0x1D331, 17)));
    }
    t.push_entry(FoldEntry { key: 0x1D6F3, count: 1, r0: '\u{3B8}', r1: '\u{0}', r2: '\u{0}', r3: '\u{0}' });
    proof {
        assert(t@ =~= old(t)@ + (seq![fe1(0x1D6DE, '\u{3BA}')] + seq![fe1(0x1D6DF, '\u{3C6}')] + seq![fe1(0x1D6E0, '\u{3C1}')] + seq![fe1(0x1D6E1, '\u{3C0}')] + fold_run(0x1D6E2, -0x1D331, 17) + seq![fe1(0x1D6F3, '\u{3B8}')]));
    }
    proof {
        assert(t@ =~= old(t)@ + cf_math_greek_1());
    }
}

/// Appends the case-fold mappings for the mathematical Greek alphabets, part 3.
#[verifier::rlimit(100)]
fn push_cf_math_greek_2(t: &mut FoldTable)
    requires
        old(t).wf(),
        old(t)@.len() > 0 ==> old(t)@.last().key < 0x1D6F4,
    ensures
        final(t)@ == old(t)@ + cf_math_greek_2(),
        final(t).wf(),
        final(t)@.last().key == 0x1D719,
{
    t.push_entry(FoldEntry { key: 0x1D6F4, count: 1, r0: '\u{3C3}', r1: '\u{0}', r2: '\u{0}', r3: '\u{0}' });
    proof {
        assert(t@ =~= old(t)@ + (seq![fe1(0x1D6F4, '\u{3C3}')]));
    }
    push_fold_run_down(t, 0x1D6F5, 0x1D331, 6);
    proof {
        assert(t@ =~= old(t)@ + (seq![fe1(0x1D6F4, '\u{3C3}')] + fold_run(0x1D6F5, -0x1D331, 6)));
    }
    t.push_entry(FoldEntry { key: 0x1D716, count: 1, r0: '\u{3B5}', r1: '\u{0}', r2: '\u{0}', r3: '\u{0}' });
    proof {
        assert(t@ =~= old(t)@ + (seq![fe1(0x1D6F4, '\u{3C3}')] + fold_run(0x1D6F5, -0x1D331, 6) + seq![fe1(0x1D716, '\u{3B5}')]));
    }
    t.push_entry(FoldEntry { key: 0x1D717, count: 1, r0: '\u{3B8}', r1: '\u{0}', r2: '\u{0}', r3: '\u{0}' });
    proof {
        assert(t@ =~= old(t)@ + (seq![fe1(0x1D6F4, '\u{3C3}')] + fold_run(0x1D6F5, -0x1D331, 6) + seq![fe1(0x1D716, '\u{3B5}')] + seq![fe1(0x1D717, '\u{3B8}')]));
    }
    t.push_entry(FoldEntry { key: 0x1D718, count: 1, r0: '\u{3BA}', r1: '\u{0}', r2: '\u{0}', r3: '\u{0}' });
    proof {
        assert(t@ =~= old(t)@ + (seq![fe1(0x1D6F4, '\u{3C3}')] + fold_run(0x1D6F5, -0x1D331, 6) + seq![fe1(0x1D716, '\u{3B5}')] + seq![fe1(0x1D717, '\u{3B8}')] + seq![fe1(0x1D718, '\u{3BA}')]));
    }
    t.push_entry(FoldEntry { key: 0x1D719, count: 1, r0: '\u{3C6}', r1: '\u{0}', r2: '\u{0}', r3: '\u{0}' });
    proof {
        assert(t@ =~= old(t)@ + (seq![fe1(0x1D6F4, '\u{3C3}')] + fold_run(0x1D6F5, -0x1D331, 6) + seq![fe1(0x1D716, '\u{3B5}')] + seq![fe1(0x1D717, '\u{3B8}')] + seq![fe1(0x1D718, '\u{3BA}')] + seq![fe1(0x1D719, '\u{3C6}')]));
    }
    proof {
        assert(t@ =~= old(t)@ + cf_math_greek_2());
    }
}

/// Appends the case-fold mappings for the mathematical Greek alphabets, part 4.
#[verifier::rlimit(100)]
fn push_cf_math_greek_3(t: &mut FoldTable)
    requires
        old(t).wf(),
        old(t)@.len() > 0 ==> old(t)@.last().key < 0x1D71A,
    ensures
        final(t)@ == old(t)@ + cf_math_greek_3(),
        final(t).wf(),
        final(t)@.last().key == 0x1D734,
{
    t.push_entry(FoldEntry { key: 0x1D71A, count: 1, r0: '\u{3C1}', r1: '\u{0}', r2: '\u{0}', r3: '\u{0}' });
    proof {
        assert(t@ =~= old(t)@ + (seq![fe1(0x1D71A, '\u{3C1}')]));
    }
    t.push_entry(FoldEntry { key: 0x1D71B, count: 1, r0: '\u{3C0}', r1: '\u{0}', r2: '\u{0}', r3: '\u{0}' });
    proof {
        assert(t@ =~= old(t)@ + (seq![fe1(0x1D71A, '\u{3C1}')] + seq![fe1(0x1D71B, '\u{3C0}')]));
    }
    push_fold_run_down(t, 0x1D71C, 0x1D36B, 17);
    proof {
        assert(t@ =~= old(t)@ + (seq![fe1(0x1D71A, '\u{3C1}')] + seq![fe1(0x1D71B, '\u{3C0}')] + fold_run(0x1D71C, -0x1D36B, 17)));
    }
    t.push_entry(FoldEntry { key: 0x1D72D, count: 1, r0: '\u{3B8}', r1: '\u{0}', r2: '\u{0}', r3: '\u{0}' });
    proof {
        assert(t@ =~= old(t)@ + (seq![fe1(0x1D71A, '\u{3C1}')] + seq![fe1(0x1D71B, '\u{3C0}')] + fold_run(0x1D71C, -0x1D36B, 17) + seq![fe1(0x1D72D, '\u{3B8}')]));
    }
    t.push_entry(FoldEntry { key: 0x1D72E, count: 1, r0: '\u{3C3}', r1: '\u{0}', r2: '\u{0}', r3: '\u{0}' });
    proof {
        assert(t@ =~= old(t)@ + (seq![fe1(0x1D71A, '\u{3C1}')] + seq![fe1(0x1D71B, '\u{3C0}')] + fold_run(0x1D71C, -0x1D36B, 17) + seq![fe1(0x1D72D, '\u{3B8}')] + seq![fe1(0x1D72E, '\u{3C3}')]));
    }
    push_fold_run_down(t, 0x1D72F, 0x1D36B, 6);
    proof {
        assert(t@ =~= old(t)@ + (seq![fe1(0x1D71A, '\u{3C1}')] + seq![fe1(0x1D71B, '\u{3C0}')] + fold_run(0x1D71C, -0x1D36B, 17) + seq![fe1(0x1D72D, '\u{3B8}')] + seq![fe1(0x1D72E, '\u{3C3}')] + fold_run(0x1D72F, -0x1D36B, 6)));
    }
    proof {
        assert(t@ =~= old(t)@ + cf_math_greek_3());
    }
}

/// Appends the case-fold mappings for the mathematical Greek alphabets, part 5.
#[verifier::rlimit(100)]
fn push_cf_math_greek_4(t: &mut FoldTable)
    requires
        old(t).wf(),
        old(t)@.len() > 0 ==> old(t)@.last().key < 0x1D750,
    ensures
        final(t)@ == old(t)@ + cf_math_greek_4(),
        final(t).wf(),
        final(t)@.last().key == 0x1D755,
{
    t.push_entry(FoldEntry { key: 0x1D750, count: 1, r0: '\u{3B5}', r1: '\u{0}', r2: '\u{0}', r3: '\u{0}' });
    proof {
        assert(t@ =~= old(t)@ + (seq![fe1(0x1D750, '\u{3B5}')]));
    }
    t.push_entry(FoldEntry { key: 0x1D751, count: 1, r0: '\u{3B8}', r1: '\u{0}', r2: '\u{0}', r3: '\u{0}' });
    proof {
        assert(t@ =~= old(t)@ + (seq![fe1(0x1D750, '\u{3B5}')] + seq![fe1(0x1D751, '\u{3B8}')]));
    }
    t.push_entry(FoldEntry { key: 0x1D752, count: 1, r0: '\u{3BA}', r1: '\u{0}', r2: '\u{0}', r3: '\u{0}' });
    proof {
        assert(t@ =~= old(t)@ + (seq![fe1(0x1D750, '\u{3B5}')] + seq![fe1(0x1D751, '\u{3B8}')] + seq![fe1(0x1D752, '\u{3BA}')]));
    }
    t.push_entry(FoldEntry { key: 0x1D753, count: 1, r0: '\u{3C6}', r1: '\u{0}', r2: '\u{0}', r3: '\u{0}' });
    proof {
        assert(t@ =~= old(t)@ + (seq![fe1(0x1D750, '\u{3B5}')] + seq![fe1(0x1D751, '\u{3B8}')] + seq![fe1(0x1D752, '\u{3BA}')] + seq![fe1(0x1D753, '\u{3C6}')]));
    }
    t.push_entry(FoldEntry { key: 0x1D754, count: 1, r0: '\u{3C1}', r1: '\u{0}', r2: '\u{0}', r3: '\u{0}' });
    proof {
        assert(t@ =~= old(t)@ + (seq![fe1(0x1D750, '\u{3B5}')] + seq![fe1(0x1D751, '\u{3B8}')] + seq![fe1(0x1D752, '\u{3BA}')] + seq![fe1(0x1D753, '\u{3C6}')] + seq![fe1(0x1D754, '\u{3C1}')]));
    }
    t.push_entry(FoldEntry { key: 0x1D755, count: 1, r0: '\u{3C0}', r1: '\u{0}', r2: '\u{0}', r3: '\u{0}' });
    proof {
        assert(t@ =~= old(t)@ + (seq![fe1(0x1D750, '\u{3B5}')] + seq![fe1(0x1D751, '\u{3B8}')] + seq![fe1(0x1D752, '\u{3BA}')] + seq![fe1(0x1D753, '\u{3C6}')] + seq![fe1(0x1D754, '\u{3C1}')] + seq![fe1(0x1D755, '\u{3C0}')]));
    }
    proof {
        assert(t@ =~= old(t)@ + cf_math_greek_4());
    }
}

/// Appends the case-fold mappings for the mathematical Greek alphabets, part 6.
#[verifier::rlimit(100)]
fn push_cf_math_greek_5(t: &mut FoldTable)
    requires
        old(t).wf(),
        old(t)@.len() > 0 ==> old(t)@.last().key < 0x1D756,
    ensures
        final(t)@ == old(t)@ + cf_math_greek_5(),
        final(t).wf(),
        final(t)@.last().key == 0x1D78B,
{
    push_fold_run_down(t, 0x1D756, 0x1D3A5, 17);
    proof {
        assert(t@ =~= old(t)@ + (fold_run(0x1D756, -0x1D3A5, 17)));
    }
    t.push_entry(FoldEntry { key: 0x1D767, count: 1, r0: '\u{3B8}', r1: '\u{0}', r2: '\u{0}', r3: '\u{0}' });
    proof {
        assert(t@ =~= old(t)@ + (fold_run(0x1D756, -0x1D3A5, 17) + seq![fe1(0x1D767, '\u{3B8}')]));
    }
    t.push_entry(FoldEntry { key: 0x1D768, count: 1, r0: '\u{3C3}', r1: '\u{0}', r2: '\u{0}', r3: '\u{0}' });
    proof {
        assert(t@ =~= old(t)@ + (fold_run(0x1D756, -0x1D3A5, 17) + seq![fe1(0x1D767, '\u{3B8}')] + seq![fe1(0x1D768, '\u{3C3}')]));
    }
    push_fold_run_down(t, 0x1D769, 0x1D3A5, 6);
    proof {
        assert(t@ =~= old(t)@ + (fold_run(0x1D756, -0x1D3A5, 17) + seq![fe1(0x1D767, '\u{3B8}')] + seq![fe1(0x1D768, '\u{3C3}')] + fold_run(0x1D769, -0x1D3A5, 6)));
    }
    t.push_entry(FoldEntry { key: 0x1D78A, count: 1, r0: '\u{3B5}', r1: '\u{0}', r2: '\u{0}', r3: '\u{0}' });
    proof {
        assert(t@ =~= old(t)@ + (fold_run(0x1D756, -0x1D3A5, 17) + seq![fe1(0x1D767, '\u{3B8}')] + seq![fe1(0x1D768, '\u{3C3}')] + fold_run(0x1D769, -0x1D3A5, 6) + seq![fe1(0x1D78A, '\u{3B5}')]));
    }
    t.push_entry(FoldEntry { key: 0x1D78B, count: 1, r0: '\u{3B8}', r1: '\u{0}', r2: '\u{0}', r3: '\u{0}' });
    proof {
        assert(t@ =~= old(t)@ + (fold_run(0x1D756, -0x1D3A5, 17) + seq![fe1(0x1D767, '\u{3B8}')] + seq![fe1(0x1D768, '\u{3C3}')] + fold_run(0x1D769, -0x1D3A5, 6) + seq![fe1(0x1D78A, '\u{3B5}')] + seq![fe1(0x1D78B, '\u{3B8}')]));
    }
    proof {
        assert(t@ =~= old(t)@ + cf_math_greek_5());
    }
}

/// Appends the case-fold mappings for the mathematical Greek alphabets, part 7.
#[verifier::rlimit(100)]
fn push_cf_math_greek_6(t: &mut FoldTable)
    requires
        old(t).wf(),
        old(t)@.len() > 0 ==> old(t)@.last().key < 0x1D78C,
    ensures
        final(t)@ == old(t)@ + cf_math_greek_6(),
        final(t).wf(),
        final(t)@.last().key == 0x1D7A1,
{
    t.push_entry(FoldEntry { key: 0x1D78C, count: 1, r0: '\u{3BA}', r1: '\u{0}', r2: '\u{0}', r3: '\u{0}' });
    proof {
        assert(t@ =~= old(t)@ + (seq![fe1(0x1D78C, '\u{3BA}')]));
    }
    t.push_entry(FoldEntry { key: 0x1D78D, count: 1, r0: '\u{3C6}', r1: '\u{0}', r2: '\u{0}', r3: '\u{0}' });
    proof {
        assert(t@ =~= old(t)@ + (seq![fe1(0x1D78C, '\u{3BA}')] + seq![fe1(0x1D78D, '\u{3C6}')]));
    }
    t.push_entry(FoldEntry { key: 0x1D78E, count: 1, r0: '\u{3C1}', r1: '\u{0}', r2: '\u{0}', r3: '\u{0}' });
    proof {
        assert(t@ =~= old(t)@ + (seq![fe1(0x1D78C, '\u{3BA}')] + seq![fe1(0x1D78D, '\u{3C6}')] + seq![fe1(0x1D78E, '\u{3C1}')]));
    }
    t.push_entry(FoldEntry { key: 0x1D78F, count: 1, r0: '\u{3C0}', r1: '\u{0}', r2: '\u{0}', r3: '\u{0}' });
    proof {
        assert(t@ =~= old(t)@ + (seq![fe1(0x1D78C, '\u{3BA}')] + seq![fe1(0x1D78D, '\u{3C6}')] + seq![fe1(0x1D78E, '\u{3C1}')] + seq![fe1(0x1D78F, '\u{3C0}')]));
    }
    push_fold_run_down(t, 0x1D790, 0x1D3DF, 17);
    proof {
        assert(t@ =~= old(t)@ + (seq![fe1(0x1D78C, '\u{3BA}')] + seq![fe1(0x1D78D, '\u{3C6}')] + seq![fe1(0x1D78E, '\u{3C1}')] + seq![fe1(0x1D78F, '\u{3C0}')] + fold_run(0x1D790, -0x1D3DF, 17)));
    }
    t.push_entry(FoldEntry { key: 0x1D7A1, count: 1, r0: '\u{3B8}', r1: '\u{0}', r2: '\u{0}', r3: '\u{0}' });
    proof {
        assert(t@ =~= old(t)@ + (seq![fe1(0x1D78C, '\u{3BA}')] + seq![fe1(0x1D78D, '\u{3C6}')] + seq![fe1(0x1D78E, '\u{3C1}')] + seq![fe1(0x1D78F, '\u{3C0}')] + fold_run(0x1D790, -0x1D3DF, 17) + seq![fe1(0x1D7A1, '\u{3B8}')]));
    }
    proof {
        assert(t@ =~= old(t)@ + cf_math_greek_6());
    }
}

/// Appends the case-fold mappings for the mathematical Greek alphabets, part 8.
#[verifier::rlimit(100)]
fn push_cf_math_greek_7(t: &mut FoldTable)
    requires
        old(t).wf(),
        old(t)@.len() > 0 ==> old(t)@.last().key < 0x1D7A2,
    ensures
        final(t)@ == old(t)@ + cf_math_greek_7(),
        final(t).wf(),
        final(t)@.last().key == 0x1D7C7,
{
    t.push_entry(FoldEntry { key: 0x1D7A2, count: 1, r0: '\u{3C3}', r1: '\u{0}', r2: '\u{0}', r3: '\u{0}' });
    proof {
        assert(t@ =~= old(t)@ + (seq![fe1(0x1D7A2, '\u{3C3}')]));
    }
    push_fold_run_down(t, 0x1D7A3, 0x1D3DF, 6);
    proof {
        assert(t@ =~= old(t)@ + (seq![fe1(0x1D7A2, '\u{3C3}')] + fold_run(0x1D7A3, -0x1D3DF, 6)));
    }
    t.push_entry(FoldEntry { key: 0x1D7C4, count: 1, r0: '\u{3B5}', r1: '\u{0}', r2: '\u{0}', r3: '\u{0}' });
    proof {
        assert(t@ =~= old(t)@ + (seq![fe1(0x1D7A2, '\u{3C3}')] + fold_run(0x1D7A3, -0x1D3DF, 6) + seq![fe1(0x1D7C4, '\u{3B5}')]));
    }
    t.push_entry(FoldEntry { key: 0x1D7C5, count: 1, r0: '\u{3B8}', r1: '\u{0}', r2: '\u{0}', r3: '\u{0}' });
    proof {
        assert(t@ =~= old(t)@ + (seq![fe1(0x1D7A2, '\u{3C3}')] + fold_run(0x1D7A3, -0x1D3DF, 6) + seq![fe1(0x1D7C4, '\u{3B5}')] + seq![fe1(0x1D7C5, '\u{3B8}')]));
    }
    t.push_entry(FoldEntry { key: 0x1D7C6, count: 1, r0: '\u{3BA}', r1: '\u{0}', r2: '\u{0}', r3: '\u{0}' });
    proof {
        assert(t@ =~= old(t)@ + (seq![fe1(0x1D7A2, '\u{3C3}')] + fold_run(0x1D7A3, -0x1D3DF, 6) + seq![fe1(0x1D7C4, '\u{3B5}')] + seq![fe1(0x1D7C5, '\u{3B8}')] + seq![fe1(0x1D7C6, '\u{3BA}')]));
    }
    t.push_entry(FoldEntry { key: 0x1D7C7, count: 1, r0: '\u{3C6}', r1: '\u{0}', r2: '\u{0}', r3: '\u{0}' });
    proof {
        assert(t@ =~= old(t)@ + (seq![fe1(0x1D7A2, '\u{3C3}')] + fold_run(0x1D7A3, -0x1D3DF, 6) + seq![fe1(0x1D7C4, '\u{3B5}')] + seq![fe1(0x1D7C5, '\u{3B8}')] + seq![fe1(0x1D7C6, '\u{3BA}')] + seq![fe1(0x1D7C7, '\u{3C6}')]));
    }
    proof {
        assert(t@ =~= old(t)@ + cf_math_greek_7());
    }
}

/// Appends the case-fold mappings for the mathematical Greek alphabets, part 9.
#[verifier::rlimit(100)]
fn push_cf_math_greek_8(t: &mut FoldTable)
    requires
        old(t).wf(),
        old(t)@.len() > 0 ==> old(t)@.last().key < 0x1D7C8,
    ensures
        final(t)@ == old(t)@ + cf_math_greek_8(),
        final(t).wf(),
        final(t)@.last().key == 0x1D7C9,
{
    t.push_entry(FoldEntry { key: 0x1D7C8, count: 1, r0: '\u{3C1}', r1: '\u{0}', r2: '\u{0}', r3: '\u{0}' });
    proof {
        assert(t@ =~= old(t)@ + (seq![fe1(0x1D7C8, '\u{3C1}')]));
    }
    t.push_entry(FoldEntry { key: 0x1D7C9, count: 1, r0: '\u{3C0}', r1: '\u{0}', r2: '\u{0}', r3: '\u{0}' });
    proof {
        assert(t@ =~= old(t)@ + (seq![fe1(0x1D7C8, '\u{3C1}')] + seq![fe1(0x1D7C9, '\u{3C0}')]));
    }
    proof {
        assert(t@ =~= old(t)@ + cf_math_greek_8());
    }
}

/// Builds the case-fold table.
#[verifier::rlimit(100)]
pub fn build_case_fold() -> (t: FoldTable)
    ensures
        t@ == case_fold_entries(),
        t.wf(),
{
    let mut t = FoldTable::new();
    push_cf_latin_basic(&mut t);
    proof {
        assert(t@ =~= cf_latin_basic());
    }
    push_cf_latin_extended_0(&mut t);
    push_cf_latin_extended_1(&mut t);
    push_cf_latin_extended_2(&mut t);
    push_cf_latin_extended_3(&mut t);
    push_cf_latin_extended_4(&mut t);
    push_cf_latin_extended_5(&mut t);
    push_cf_latin_extended_6(&mut t);
    push_cf_latin_extended_7(&mut t);
    push_cf_latin_extended_8(&mut t);
    push_cf_latin_extended_9(&mut t);
    push_cf_latin_extended_10(&mut t);
    push_cf_greek_0(&mut t);
    push_cf_greek_1(&mut t);
    push_cf_greek_2(&mut t);
    push_cf_greek_3(&mut t);
    push_cf_greek_4(&mut t);
    push_cf_cyrillic_0(&mut t);
    push_cf_cyrillic_1(&mut t);
    push_cf_armenian(&mut t);
    push_cf_latin_additional_0(&mut t);
    push_cf_latin_additional_1(&mut t);
    push_cf_greek_extended_0(&mut t);
    push_cf_greek_extended_1(&mut t);
    push_cf_greek_extended_2(&mut t);
    push_cf_greek_extended_3(&mut t);
    push_cf_greek_extended_4(&mut t);
    push_cf_greek_extended_5(&mut t);
    push_cf_greek_extended_6(&mut t);
    push_cf_greek_extended_7(&mut t);
    push_cf_greek_extended_8(&mut t);
    push_cf_greek_extended_9(&mut t);
    push_cf_greek_extended_10(&mut t);
    push_cf_greek_extended_11(&mut t);
    push_cf_letterlike_numeric_0(&mut t);
    push_cf_letterlike_numeric_1(&mut t);
    push_cf_letterlike_numeric_2(&mut t);
    push_cf_letterlike_numeric_3(&mut t);
    push_cf_letterlike_numeric_4(&mut t);
    push_cf_letterlike_numeric_5(&mut t);
    push_cf_squared_units_0(&mut t);
    push_cf_squared_units_1(&mut t);
    push_cf_squared_units_2(&mut t);
    push_cf_squared_units_3(&mut t);
    push_cf_squared_units_4(&mut t);
    push_cf_squared_units_5(&mut t);
    push_cf_squared_units_6(&mut t);
    push_cf_squared_units_7(&mut t);
    push_cf_squared_units_8(&mut t);
    push_cf_ligatures_0(&mut t);
    push_cf_ligatures_1(&mut t);
    push_cf_wide_and_deseret(&mut t);
    push_cf_math_latin_0(&mut t);
    push_cf_math_latin_1(&mut t);
    push_cf_math_latin_2(&mut t);
    push_cf_math_latin_3(&mut t);
    push_cf_math_latin_4(&mut t);
    push_cf_math_latin_5(&mut t);
    push_cf_math_latin_6(&mut t);
    push_cf_math_latin_7(&mut t);
    push_cf_math_latin_8(&mut t);
    push_cf_math_latin_9(&mut t);
    push_cf_math_latin_10(&mut t);
    push_cf_math_latin_11(&mut t);
    push_cf_math_greek_0(&mut t);
    push_cf_math_greek_1(&mut t);
    push_cf_math_greek_2(&mut t);
    push_cf_math_greek_3(&mut t);
    push_cf_math_greek_4(&mut t);
    push_cf_math_greek_5(&mut t);
    push_cf_math_greek_6(&mut t);
    push_cf_math_greek_7(&mut t);
    push_cf_math_greek_8(&mut t);
    proof {
        reveal(case_fold_entries);
        assert(t@ == case_fold_entries());
    }
    t
}

} // verus!
