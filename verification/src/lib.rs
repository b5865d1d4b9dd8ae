//! String preparation for protocol identifiers and passwords.
//!
//! Untrusted Unicode input is mapped, compatibility-normalized, scanned for
//! prohibited characters, and checked against the rules for bidirectional
//! text; the result is either the canonical string or a classified failure.
//! Two profiles are provided: [`saslprep`], which folds non-ASCII spaces,
//! and [`nameprep`], which applies the full case-fold.
use vstd::prelude::*;

pub mod data;
pub mod laws;
pub mod parse;
pub mod range_table;
pub mod tables;
pub mod unicode;

use crate::tables::{
    ascii_control_character, bidi_class_l, bidi_class_r_or_al, bidi_l, bidi_r_or_al,
    change_display_properties_or_deprecated, commonly_mapped_to_nothing,
    inappropriate_for_canonical_representation, inappropriate_for_plain_text, is_ascii_control,
    is_change_display, is_inappropriate_for_canonical, is_inappropriate_for_plain_text,
    is_mapped_to_nothing, is_non_ascii_control, is_non_ascii_space, is_non_character,
    is_private_use, is_surrogate, is_tagging, non_ascii_control_character,
    non_ascii_space_character, non_character_code_point, private_use, surrogate_code,
    tagging_character,
};
use crate::unicode::{chars_of, is_ascii_char, nfkc, nfkc_of, push_char, string_from};

verus! {

/// Describes why a string failed the preparation algorithm.
#[derive(Clone, Copy, Debug, PartialEq, Eq, Structural)]
pub enum ErrorCause {
    /// The prepared string holds this prohibited character.
    ProhibitedCharacter(char),
    /// The prepared string violates the rules for bidirectional text.
    ProhibitedBidirectionalText,
}

/// An error performing the preparation algorithm.
#[derive(Clone, Copy, Debug, PartialEq, Eq, Structural)]
pub struct Error(pub ErrorCause);

impl Error {
    /// A short description of the failure, naming the offending character
    /// when one is known.
    pub fn message(&self) -> (r: String)
        ensures
            match self.0 {
                ErrorCause::ProhibitedCharacter(c) => r@ == "prohibited character `"@.push(c).push(
                    '`',
                ),
                ErrorCause::ProhibitedBidirectionalText => r@ == "prohibited bidirectional text"@,
            },
    {
        match self.0 {
            ErrorCause::ProhibitedCharacter(c) => {
                let mut m = "prohibited character `".to_owned();
                push_char(&mut m, c);
                push_char(&mut m, '`');
                m
            },
            ErrorCause::ProhibitedBidirectionalText => "prohibited bidirectional text".to_owned(),
        }
    }
}

/// One character's image under the saslprep mapping stage: characters
/// commonly mapped to nothing disappear, remaining non-ASCII spaces become
/// a space, and everything else passes through. The deletion is tested
/// first, so a character in both sets (the zero-width space) is dropped.
pub open spec fn map_a_char(c: char) -> Seq<char> {
    if is_mapped_to_nothing(c) {
        Seq::empty()
    } else if is_non_ascii_space(c) {
        seq![' ']
    } else {
        seq![c]
    }
}

/// The saslprep mapping stage over a whole sequence.
pub open spec fn map_a(s: Seq<char>) -> Seq<char>
    decreases s.len(),
{
    if s.len() == 0 {
        Seq::empty()
    } else {
        map_a(s.drop_last()) + map_a_char(s.last())
    }
}

/// One character's image under the nameprep mapping stage: characters
/// commonly mapped to nothing disappear and every other character is
/// replaced by its case-fold.
pub open spec fn map_b_char(c: char) -> Seq<char> {
    if is_mapped_to_nothing(c) {
        Seq::empty()
    } else {
        crate::tables::case_fold_of(c)
    }
}

/// The nameprep mapping stage over a whole sequence.
pub open spec fn map_b(s: Seq<char>) -> Seq<char>
    decreases s.len(),
{
    if s.len() == 0 {
        Seq::empty()
    } else {
        map_b(s.drop_last()) + map_b_char(s.last())
    }
}

/// Membership in the active profile's prohibition set. Profile A
/// (`saslprep`) bans ASCII control characters; profile B (`nameprep`) lets
/// them pass, an asymmetry the profiles themselves prescribe.
pub open spec fn is_prohibited(c: char, ban_ascii_control: bool) -> bool {
    is_non_ascii_space(c) || (ban_ascii_control && is_ascii_control(c)) || is_non_ascii_control(c)
        || is_private_use(c) || is_non_character(c) || is_surrogate(c)
        || is_inappropriate_for_plain_text(c) || is_inappropriate_for_canonical(c)
        || is_change_display(c) || is_tagging(c)
}

/// The first prohibited character of a sequence, in string order.
pub open spec fn first_prohibited(s: Seq<char>, ban_ascii_control: bool) -> Option<char>
    decreases s.len(),
{
    if s.len() == 0 {
        None
    } else if is_prohibited(s[0], ban_ascii_control) {
        Some(s[0])
    } else {
        first_prohibited(s.drop_first(), ban_ascii_control)
    }
}

/// Whether some character has bidirectional class R or AL.
pub open spec fn has_r_or_al(s: Seq<char>) -> bool {
    exists|i: int| 0 <= i < s.len() && bidi_class_r_or_al(#[trigger] s[i])
}

/// Whether some character has bidirectional class L.
pub open spec fn has_l(s: Seq<char>) -> bool {
    exists|i: int| 0 <= i < s.len() && bidi_class_l(#[trigger] s[i])
}

/// The invariant for bidirectional text: if any character is of class R or
/// AL, then no character is of class L, and both the first and the last
/// character are of class R or AL.
pub open spec fn bidi_ok(s: Seq<char>) -> bool {
    has_r_or_al(s) ==> !has_l(s) && bidi_class_r_or_al(s[0]) && bidi_class_r_or_al(
        s[s.len() - 1],
    )
}

/// The checking stages applied to a normalized sequence: the first
/// prohibited character fails it, then a violated bidirectional invariant,
/// and otherwise the sequence is accepted as it stands.
pub open spec fn check_prepared(n: Seq<char>, ban_ascii_control: bool) -> Result<Seq<char>, Error> {
    match first_prohibited(n, ban_ascii_control) {
        Some(c) => Err(Error(ErrorCause::ProhibitedCharacter(c))),
        None => if !bidi_ok(n) {
            Err(Error(ErrorCause::ProhibitedBidirectionalText))
        } else {
            Ok(n)
        },
    }
}

/// The fast-path condition: every character is ASCII and none is an ASCII
/// control character.
pub open spec fn ascii_fast_path(s: Seq<char>) -> bool {
    forall|i: int| 0 <= i < s.len() ==> is_ascii_char(#[trigger] s[i]) && !is_ascii_control(s[i])
}

/// The staged saslprep pipeline: map, normalize, then check.
pub open spec fn staged_saslprep(s: Seq<char>) -> Result<Seq<char>, Error> {
    check_prepared(nfkc_of(map_a(s)), true)
}

/// What `saslprep` returns, over sequences of characters.
pub open spec fn saslprep_spec(s: Seq<char>) -> Result<Seq<char>, Error> {
    if ascii_fast_path(s) {
        Ok(s)
    } else {
        staged_saslprep(s)
    }
}

/// What `nameprep` returns, over sequences of characters: delete and
/// case-fold each character, normalize, then check.
pub open spec fn nameprep_spec(s: Seq<char>) -> Result<Seq<char>, Error> {
    check_prepared(nfkc_of(map_b(s)), false)
}

/// A prepared result with the string replaced by its characters.
pub open spec fn prep_view(r: Result<String, Error>) -> Result<Seq<char>, Error> {
    match r {
        Ok(s) => Ok(s@),
        Err(e) => Err(e),
    }
}

/// Decides the fast-path condition.
fn check_ascii_fast(v: &Vec<char>) -> (r: bool)
    ensures
        r == ascii_fast_path(v@),
{
    let mut i: usize = 0;
    while i < v.len()
        invariant
            0 <= i <= v@.len(),
            forall|j: int|
                0 <= j < i ==> is_ascii_char(#[trigger] v@[j]) && !is_ascii_control(v@[j]),
        decreases v@.len() - i,
    {
        let c = v[i];
        if !((c as u32) < 0x80) || ascii_control_character(c) {
            assert(!(is_ascii_char(v@[i as int]) && !is_ascii_control(v@[i as int])));
            return false;
        }
        i = i + 1;
    }
    true
}

/// Runs the saslprep mapping stage.
fn map_saslprep(v: &Vec<char>) -> (r: Vec<char>)
    ensures
        r@ == map_a(v@),
{
    let mut r: Vec<char> = Vec::new();
    let mut i: usize = 0;
    while i < v.len()
        invariant
            0 <= i <= v@.len(),
            r@ == map_a(v@.take(i as int)),
        decreases v@.len() - i,
    {
        let c = v[i];
        if commonly_mapped_to_nothing(c) {
        } else if non_ascii_space_character(c) {
            r.push(' ');
        } else {
            r.push(c);
        }
        proof {
            assert(v@.take(i + 1).drop_last() =~= v@.take(i as int));
            assert(v@.take(i + 1).last() == v@[i as int]);
            assert(r@ =~= map_a(v@.take(i as int)) + map_a_char(v@[i as int]));
        }
        i = i + 1;
    }
    proof {
        assert(v@.take(v@.len() as int) =~= v@);
    }
    r
}

/// Runs the nameprep mapping stage: deletion, then the per-character
/// case-fold, against the fold table built once for the whole pass.
fn map_nameprep(v: &Vec<char>) -> (r: Vec<char>)
    ensures
        r@ == map_b(v@),
{
    let t = crate::data::build_case_fold();
    let mut r: Vec<char> = Vec::new();
    let mut i: usize = 0;
    while i < v.len()
        invariant
            0 <= i <= v@.len(),
            r@ == map_b(v@.take(i as int)),
            t.wf(),
            t@ == crate::data::case_fold_entries(),
        decreases v@.len() - i,
    {
        let c = v[i];
        if !commonly_mapped_to_nothing(c) {
            match t.lookup(c as u32) {
                Some(e) => {
                    proof {
                        let s = t@;
                        let w = choose|q: int|
                            0 <= q < s.len() && (#[trigger] s[q]).key == c as u32;
                        assert(s[w].count <= 4);
                    }
                    if e.count >= 1 {
                        r.push(e.r0);
                    }
                    if e.count >= 2 {
                        r.push(e.r1);
                    }
                    if e.count >= 3 {
                        r.push(e.r2);
                    }
                    if e.count >= 4 {
                        r.push(e.r3);
                    }
                    proof {
                        assert(r@ =~= map_b(v@.take(i as int)) + e.repl());
                    }
                },
                None => {
                    r.push(c);
                },
            }
        }
        proof {
            assert(v@.take(i + 1).drop_last() =~= v@.take(i as int));
            assert(v@.take(i + 1).last() == v@[i as int]);
            assert(r@ =~= map_b(v@.take(i as int)) + map_b_char(v@[i as int]));
        }
        i = i + 1;
    }
    proof {
        assert(v@.take(v@.len() as int) =~= v@);
    }
    r
}

/// Decides membership in the active profile's prohibition set.
fn prohibited_character(c: char, ban_ascii_control: bool) -> (r: bool)
    ensures
        r == is_prohibited(c, ban_ascii_control),
{
    non_ascii_space_character(c) || (ban_ascii_control && ascii_control_character(c))
        || non_ascii_control_character(c) || private_use(c) || non_character_code_point(c)
        || surrogate_code(c) || inappropriate_for_plain_text(c)
        || inappropriate_for_canonical_representation(c)
        || change_display_properties_or_deprecated(c) || tagging_character(c)
}

/// Scans left to right for the first prohibited character.
fn scan_prohibited(v: &Vec<char>, ban_ascii_control: bool) -> (r: Option<char>)
    ensures
        r == first_prohibited(v@, ban_ascii_control),
{
    let mut i: usize = 0;
    proof {
        assert(v@.skip(0) =~= v@);
    }
    while i < v.len()
        invariant
            0 <= i <= v@.len(),
            first_prohibited(v@, ban_ascii_control) == first_prohibited(
                v@.skip(i as int),
                ban_ascii_control,
            ),
        decreases v@.len() - i,
    {
        let c = v[i];
        if prohibited_character(c, ban_ascii_control) {
            assert(v@.skip(i as int)[0] == v@[i as int]);
            return Some(c);
        }
        proof {
            assert(v@.skip(i as int).drop_first() =~= v@.skip(i + 1));
            assert(v@.skip(i as int)[0] == v@[i as int]);
        }
        i = i + 1;
    }
    proof {
        assert(v@.skip(v@.len() as int) =~= Seq::<char>::empty());
    }
    None
}

/// Decides the bidirectional invariant.
fn check_bidi(v: &Vec<char>) -> (r: bool)
    ensures
        r == bidi_ok(v@),
{
    let mut any_r_al = false;
    let mut any_l = false;
    let mut i: usize = 0;
    while i < v.len()
        invariant
            0 <= i <= v@.len(),
            any_r_al == exists|j: int| 0 <= j < i && bidi_class_r_or_al(#[trigger] v@[j]),
            any_l == exists|j: int| 0 <= j < i && bidi_class_l(#[trigger] v@[j]),
        decreases v@.len() - i,
    {
        let c = v[i];
        let c_r_al = bidi_r_or_al(c);
        let c_l = bidi_l(c);
        proof {
            if c_r_al {
                assert(bidi_class_r_or_al(v@[i as int]));
            }
            if c_l {
                assert(bidi_class_l(v@[i as int]));
            }
        }
        any_r_al = any_r_al || c_r_al;
        any_l = any_l || c_l;
        i = i + 1;
    }
    if !any_r_al {
        return true;
    }
    if any_l {
        return false;
    }
    let first = v[0];
    let last = v[v.len() - 1];
    bidi_r_or_al(first) && bidi_r_or_al(last)
}

/// Prepares a string with the password/identifier-safe profile: characters
/// mapped to nothing disappear, other non-ASCII spaces fold to a space, the
/// result is compatibility-normalized, and prohibited characters (ASCII
/// controls among them) and mixed bidirectional text are rejected. A pure
/// ASCII string free of control characters is returned unchanged.
/// Unassigned code points are not rejected: that stage of the underlying
/// algorithm is a known, deliberate gap of both profiles.
pub fn saslprep(s: &str) -> (r: Result<String, Error>)
    ensures
        prep_view(r) == saslprep_spec(s@),
        r is Ok && !ascii_fast_path(s@) ==> nfkc_of(prep_view(r)->Ok_0) == prep_view(r)->Ok_0,
{
    let v = chars_of(s);
    if check_ascii_fast(&v) {
        return Ok(s.to_owned());
    }
    let mapped = map_saslprep(&v);
    let normalized = nfkc(&mapped);
    match scan_prohibited(&normalized, true) {
        Some(c) => Err(Error(ErrorCause::ProhibitedCharacter(c))),
        None => {
            if !check_bidi(&normalized) {
                Err(Error(ErrorCause::ProhibitedBidirectionalText))
            } else {
                Ok(string_from(&normalized))
            }
        },
    }
}

/// Prepares a string with the case-folding identifier profile: characters
/// mapped to nothing disappear, each remaining character is case-folded,
/// the result is compatibility-normalized, and prohibited characters (ASCII controls
/// excepted) and mixed bidirectional text are rejected. Unassigned code
/// points are not rejected: that stage of the underlying algorithm is a
/// known, deliberate gap of both profiles.
pub fn nameprep(s: &str) -> (r: Result<String, Error>)
    ensures
        prep_view(r) == nameprep_spec(s@),
        r is Ok ==> nfkc_of(prep_view(r)->Ok_0) == prep_view(r)->Ok_0,
{
    let v = chars_of(s);
    let mapped = map_nameprep(&v);
    let normalized = nfkc(&mapped);
    match scan_prohibited(&normalized, false) {
        Some(c) => Err(Error(ErrorCause::ProhibitedCharacter(c))),
        None => {
            if !check_bidi(&normalized) {
                Err(Error(ErrorCause::ProhibitedBidirectionalText))
            } else {
                Ok(string_from(&normalized))
            }
        },
    }
}

} // verus!
