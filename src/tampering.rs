//! Clipboard text transformations and the per-action cooldown scheduler.
use vstd::prelude::*;
use crate::random::random_in_range;
use crate::schedule::{is_due, rearm, rearm_time, DAY, HOUR, MINUTE, WEEK};
use crate::text::{
    char_is_uppercase, char_lowercase_first, char_uppercase_first, chars_of, is_uppercase_char,
    lowercase_first, string_of, uppercase_first,
};

verus! {

/// A draw below this value (out of `ROLL_RANGE`) skips an action for the pass.
pub const SKIP_THRESHOLD: u32 = 70;

/// Rolls are drawn uniformly from `0..ROLL_RANGE`.
pub const ROLL_RANGE: u32 = 100;

/// Bounds of the random delay before a fresh action first becomes eligible.
pub const INITIAL_DELAY_MIN: u32 = 5 * MINUTE;
pub const INITIAL_DELAY_MAX: u32 = 4 * HOUR;

/// The look-alike that replaces a semicolon: GREEK QUESTION MARK.
pub const GREEK_QUESTION_MARK: char = '\u{37e}';

/// The closed set of clipboard transformations.
#[derive(Clone, Copy, Debug, PartialEq, Eq, Structural)]
pub enum TamperKind {
    ToUppercase,
    ToLowercase,
    ReverseString,
    SwapCase,
    SemicolonToGreekQuestionMark,
}

/// One registered transformation with its own cooldown.
#[derive(Clone, Copy, Debug, PartialEq, Eq, Structural)]
pub struct ClipboardTampering {
    pub tamper: TamperKind,
    /// The time from which the action is eligible again.
    pub trigger: u64,
    pub enabled: bool,
    /// Seconds the action rests after it has been applied.
    pub cooldown: u32,
}

pub open spec fn ascii_upper(c: char) -> char {
    if 'a' <= c && c <= 'z' {
        ((c as u32) - 32) as char
    } else {
        c
    }
}

pub open spec fn ascii_lower(c: char) -> char {
    if 'A' <= c && c <= 'Z' {
        ((c as u32) + 32) as char
    } else {
        c
    }
}

/// Upper case characters become lower case, all others upper case.
pub open spec fn swapped_case(c: char) -> char {
    if char_is_uppercase(c) {
        char_lowercase_first(c)
    } else {
        char_uppercase_first(c)
    }
}

pub open spec fn greek_substituted(c: char) -> char {
    if c == ';' {
        GREEK_QUESTION_MARK
    } else {
        c
    }
}

pub open spec fn reversed(s: Seq<char>) -> Seq<char> {
    Seq::new(s.len(), |i: int| s[s.len() - 1 - i])
}

/// What a transformation makes of a text.
pub open spec fn tampered(kind: TamperKind, s: Seq<char>) -> Seq<char> {
    match kind {
        TamperKind::ToUppercase => s.map_values(|c: char| ascii_upper(c)),
        TamperKind::ToLowercase => s.map_values(|c: char| ascii_lower(c)),
        TamperKind::ReverseString => reversed(s),
        TamperKind::SwapCase => s.map_values(|c: char| swapped_case(c)),
        TamperKind::SemicolonToGreekQuestionMark => s.map_values(|c: char| greek_substituted(c)),
    }
}

fn upper_ascii_char(c: char) -> (r: char)
    ensures
        r == ascii_upper(c),
{
    if 'a' <= c && c <= 'z' {
        ((c as u8) - 32) as char
    } else {
        c
    }
}

fn lower_ascii_char(c: char) -> (r: char)
    ensures
        r == ascii_lower(c),
{
    if 'A' <= c && c <= 'Z' {
        ((c as u8) + 32) as char
    } else {
        c
    }
}

fn swap_char(c: char) -> (r: char)
    ensures
        r == swapped_case(c),
{
    if is_uppercase_char(c) {
        lowercase_first(c)
    } else {
        uppercase_first(c)
    }
}

fn greek_char(c: char) -> (r: char)
    ensures
        r == greek_substituted(c),
{
    if c == ';' {
        GREEK_QUESTION_MARK
    } else {
        c
    }
}

/// Applies one transformation to a character sequence.
fn tampered_chars(kind: TamperKind, cs: &Vec<char>) -> (r: Vec<char>)
    ensures
        r@ == tampered(kind, cs@),
{
    let n = cs.len();
    let mut out: Vec<char> = Vec::with_capacity(n);
    let mut i: usize = 0;
    while i < n
        invariant
            n == cs@.len(),
            i <= n,
            out@.len() == i,
            forall|j: int|
                0 <= j < i ==> out@[j] == #[trigger] tampered(kind, cs@)[j],
        decreases n - i,
    {
        let c = match kind {
            TamperKind::ToUppercase => upper_ascii_char(cs[i]),
            TamperKind::ToLowercase => lower_ascii_char(cs[i]),
            TamperKind::ReverseString => cs[n - 1 - i],
            TamperKind::SwapCase => swap_char(cs[i]),
            TamperKind::SemicolonToGreekQuestionMark => greek_char(cs[i]),
        };
        out.push(c);
        i += 1;
    }
    assert(out@ =~= tampered(kind, cs@));
    out
}

/// Replaces the text with its transformation.
pub fn apply_tampering(kind: TamperKind, s: &mut String)
    ensures
        final(s)@ == tampered(kind, old(s)@),
{
    let cs = chars_of(s.as_str());
    let out = tampered_chars(kind, &cs);
    *s = string_of(&out);
}

/// Replaces every `;` with a Greek question mark.
pub fn semicolon_to_greek_question_mark(s: &mut String)
    ensures
        final(s)@ == old(s)@.map_values(|c: char| greek_substituted(c)),
{
    apply_tampering(TamperKind::SemicolonToGreekQuestionMark, s);
}

/// Lowers upper case characters and raises all others.
pub fn swap_case(s: &mut String)
    ensures
        final(s)@ == old(s)@.map_values(|c: char| swapped_case(c)),
{
    apply_tampering(TamperKind::SwapCase, s);
}

/// Raises the ASCII letters; other characters are kept.
pub fn to_uppercase(s: &mut String)
    ensures
        final(s)@ == old(s)@.map_values(|c: char| ascii_upper(c)),
{
    apply_tampering(TamperKind::ToUppercase, s);
}

/// Lowers the ASCII letters; other characters are kept.
pub fn to_lowercase(s: &mut String)
    ensures
        final(s)@ == old(s)@.map_values(|c: char| ascii_lower(c)),
{
    apply_tampering(TamperKind::ToLowercase, s);
}

/// Reverses the order of the characters.
pub fn reverse_string(s: &mut String)
    ensures
        final(s)@ == reversed(old(s)@),
{
    apply_tampering(TamperKind::ReverseString, s);
}

/// Whether an action is applied in a pass at `now` for which `roll` was drawn:
/// it is enabled, the roll does not skip it, and its cooldown has elapsed.
pub open spec fn applies(t: ClipboardTampering, roll: u32, now: u64) -> bool {
    t.enabled && roll >= SKIP_THRESHOLD && is_due(now, t.trigger)
}

/// The text after the first `n` actions of a pass have been considered, in order.
pub open spec fn pass_text(
    ts: Seq<ClipboardTampering>,
    rolls: Seq<u32>,
    now: u64,
    text: Seq<char>,
    n: nat,
) -> Seq<char>
    decreases n,
{
    if n == 0 {
        text
    } else {
        let prev = pass_text(ts, rolls, now, text, (n - 1) as nat);
        if applies(ts[n - 1], rolls[n - 1], now) {
            tampered(ts[n - 1].tamper, prev)
        } else {
            prev
        }
    }
}

/// An action after the pass: re-armed by its cooldown where it was applied.
pub open spec fn after_pass(t: ClipboardTampering, roll: u32, now: u64) -> ClipboardTampering {
    if applies(t, roll, now) {
        ClipboardTampering { trigger: rearm_time(now, t.cooldown as u64), ..t }
    } else {
        t
    }
}

pub open spec fn pass_tamperings(
    ts: Seq<ClipboardTampering>,
    rolls: Seq<u32>,
    now: u64,
) -> Seq<ClipboardTampering> {
    Seq::new(ts.len(), |i: int| after_pass(ts[i], rolls[i], now))
}

pub open spec fn any_applies(ts: Seq<ClipboardTampering>, rolls: Seq<u32>, now: u64) -> bool {
    exists|i: int| 0 <= i < ts.len() && applies(ts[i], rolls[i], now)
}

/// One pass of the sub-scheduler with the rolls already drawn, one per action.
/// The transformations of the applied actions compose in order, each applied
/// action is re-armed, and the result tells whether any was applied.
pub fn tamper_pass(
    tamperings: &mut Vec<ClipboardTampering>,
    content: &mut String,
    rolls: &Vec<u32>,
    now: u64,
) -> (fired: bool)
    requires
        old(tamperings)@.len() == rolls@.len(),
    ensures
        final(tamperings)@ == pass_tamperings(old(tamperings)@, rolls@, now),
        final(content)@ == pass_text(old(tamperings)@, rolls@, now, old(content)@, rolls@.len()),
        fired == any_applies(old(tamperings)@, rolls@, now),
{
    let ghost ts0 = tamperings@;
    let ghost text0 = content@;
    let n = tamperings.len();
    let mut fired = false;
    let mut i: usize = 0;
    while i < n
        invariant
            n == ts0.len(),
            n == rolls@.len(),
            i <= n,
            tamperings@.len() == n,
            forall|j: int| 0 <= j < i ==> tamperings@[j] == after_pass(ts0[j], rolls@[j], now),
            forall|j: int| i <= j < n ==> tamperings@[j] == ts0[j],
            content@ == pass_text(ts0, rolls@, now, text0, i as nat),
            fired == exists|j: int| 0 <= j < i && applies(ts0[j], rolls@[j], now),
        decreases n - i,
    {
        let t = tamperings[i];
        if t.enabled && rolls[i] >= SKIP_THRESHOLD && now >= t.trigger {
            apply_tampering(t.tamper, content);
            let next = rearm(now, t.cooldown as u64);
            tamperings.set(i, ClipboardTampering { trigger: next, ..t });
            fired = true;
        }
        i += 1;
    }
    assert(tamperings@ =~= pass_tamperings(ts0, rolls@, now));
    fired
}

/// An action whose cooldown has not elapsed is neither applied nor re-armed,
/// whatever roll was drawn for it.
pub proof fn lemma_ineligible_never_applied(
    ts: Seq<ClipboardTampering>,
    rolls: Seq<u32>,
    now: u64,
    i: int,
)
    requires
        ts.len() == rolls.len(),
        0 <= i < ts.len(),
        now < ts[i].trigger,
    ensures
        !applies(ts[i], rolls[i], now),
        pass_tamperings(ts, rolls, now)[i] == ts[i],
{
}

/// How many of the rolls `0..n` let an action through at `now`.
pub open spec fn applying_rolls(t: ClipboardTampering, now: u64, n: nat) -> nat
    decreases n,
{
    if n == 0 {
        0
    } else {
        applying_rolls(t, now, (n - 1) as nat) + if applies(t, (n - 1) as u32, now) {
            1nat
        } else {
            0nat
        }
    }
}

proof fn lemma_applying_rolls_count(t: ClipboardTampering, now: u64, n: nat)
    requires
        t.enabled,
        is_due(now, t.trigger),
        n <= ROLL_RANGE,
    ensures
        applying_rolls(t, now, n) == if n <= SKIP_THRESHOLD {
            0
        } else {
            n - SKIP_THRESHOLD
        },
    decreases n,
{
    if n > 0 {
        lemma_applying_rolls_count(t, now, (n - 1) as nat);
    }
}

/// For an enabled action whose cooldown has elapsed, exactly 30 of the 100
/// equally likely rolls apply it: with uniform rolls it is applied in 30% of
/// the passes.
pub proof fn lemma_apply_rate(t: ClipboardTampering, now: u64)
    requires
        t.enabled,
        is_due(now, t.trigger),
    ensures
        applying_rolls(t, now, ROLL_RANGE as nat) == 30,
        ROLL_RANGE == 100,
{
    lemma_applying_rolls_count(t, now, ROLL_RANGE as nat);
}

/// The transformations in the order in which they are registered.
pub open spec fn default_kinds() -> Seq<TamperKind> {
    seq![
        TamperKind::ToUppercase,
        TamperKind::ToLowercase,
        TamperKind::ReverseString,
        TamperKind::SwapCase,
        TamperKind::SemicolonToGreekQuestionMark,
    ]
}

/// The cooldown each transformation is registered with.
pub open spec fn default_cooldown(kind: TamperKind) -> u32 {
    match kind {
        TamperKind::ToUppercase => (3 * DAY) as u32,
        TamperKind::ToLowercase => (5 * DAY) as u32,
        TamperKind::ReverseString => (10 * DAY) as u32,
        TamperKind::SwapCase => WEEK,
        TamperKind::SemicolonToGreekQuestionMark => DAY,
    }
}

/// A first eligibility time drawn at `now`: a delay in
/// `INITIAL_DELAY_MIN..INITIAL_DELAY_MAX` after it.
pub open spec fn is_initial_trigger(now: u64, trigger: u64) -> bool {
    exists|d: u32|
        INITIAL_DELAY_MIN <= d < INITIAL_DELAY_MAX && trigger == #[trigger] rearm_time(now, d as u64)
}

/// Draws the first eligibility time of a fresh action.
pub fn get_initial_tampering_trigger(now: u64) -> (r: u64)
    ensures
        is_initial_trigger(now, r),
{
    let d = random_in_range(INITIAL_DELAY_MIN, INITIAL_DELAY_MAX);
    rearm(now, d as u64)
}

fn new_tampering(kind: TamperKind, cooldown: u32, now: u64) -> (r: ClipboardTampering)
    ensures
        r.tamper == kind,
        r.cooldown == cooldown,
        r.enabled,
        is_initial_trigger(now, r.trigger),
{
    ClipboardTampering {
        tamper: kind,
        trigger: get_initial_tampering_trigger(now),
        enabled: true,
        cooldown,
    }
}

/// The default registry drawn at `now`: every transformation once, enabled,
/// in registration order, with its own cooldown and its own random first
/// eligibility time.
pub open spec fn is_default_registry(ts: Seq<ClipboardTampering>, now: u64) -> bool {
    &&& ts.len() == default_kinds().len()
    &&& forall|i: int|
        0 <= i < ts.len() ==> {
            &&& (#[trigger] ts[i]).tamper == default_kinds()[i]
            &&& ts[i].cooldown == default_cooldown(default_kinds()[i])
            &&& ts[i].enabled
            &&& is_initial_trigger(now, ts[i].trigger)
        }
}

/// Registers the default transformations at `now`.
pub fn get_tampering_functions(now: u64) -> (r: Vec<ClipboardTampering>)
    ensures
        is_default_registry(r@, now),
{
    let mut v: Vec<ClipboardTampering> = Vec::new();
    v.push(new_tampering(TamperKind::ToUppercase, 3 * DAY, now));
    v.push(new_tampering(TamperKind::ToLowercase, 5 * DAY, now));
    v.push(new_tampering(TamperKind::ReverseString, 10 * DAY, now));
    v.push(new_tampering(TamperKind::SwapCase, WEEK, now));
    v.push(new_tampering(TamperKind::SemicolonToGreekQuestionMark, DAY, now));
    v
}

} // verus!
