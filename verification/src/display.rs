//! What the command line shows: numbers with thousands separators, the budget
//! bar, the colours of presets and roles, and the choices of the setup wizard.
use vstd::prelude::*;
use crate::discover::FileRole;
use crate::text::{
    append_chars, chars_eq, chars_of, decimal, decimal_chars, repeat, repeat_char, string_from,
    string_of, sub_chars,
};

verus! {

broadcast use vstd::string::group_string_axioms;

/// Digits grouped in threes from the right with `,` between groups.
pub open spec fn with_commas(s: Seq<char>) -> Seq<char>
    decreases s.len(),
{
    if s.len() <= 3 {
        s
    } else {
        with_commas(s.take(s.len() - 3)) + seq![','] + s.skip(s.len() - 3)
    }
}

fn commas(s: &[char]) -> (v: Vec<char>)
    ensures
        v@ == with_commas(s@),
    decreases s.len(),
{
    if s.len() <= 3 {
        sub_chars_all(s)
    } else {
        let head = vstd::slice::slice_subrange(s, 0, s.len() - 3);
        let mut v = commas(head);
        v.push(',');
        let tail = sub_chars(s, s.len() - 3, s.len());
        append_chars(&mut v, tail.as_slice());
        assert(s@.subrange(0, s@.len() - 3) =~= s@.take(s@.len() - 3));
        assert(s@.subrange(s@.len() - 3, s@.len() as int) =~= s@.skip(s@.len() - 3));
        v
    }
}

fn sub_chars_all(s: &[char]) -> (v: Vec<char>)
    ensures
        v@ == s@,
{
    let v = sub_chars(s, 0, s.len());
    assert(s@.subrange(0, s@.len() as int) =~= s@);
    v
}

/// `n` in decimal with `,` between groups of three digits, e.g. `50,000`.
pub fn format_number(n: usize) -> (r: String)
    ensures
        r@ == with_commas(decimal(n as nat)),
{
    let d = decimal_chars(n);
    let v = commas(d.as_slice());
    string_of(v.as_slice())
}

/// The escape sequence that colours the budget bar: green below 50 percent,
/// yellow below 80, red from there.
pub open spec fn bar_color(percent: u8) -> Seq<char> {
    if percent < 50 {
        "\x1b[32m"@
    } else if percent < 80 {
        "\x1b[33m"@
    } else {
        "\x1b[31m"@
    }
}

/// The filled cells of the bar: one per five percent, at most 20.
pub open spec fn bar_filled(percent: u8) -> nat {
    if percent / 5 < 20 {
        (percent / 5) as nat
    } else {
        20
    }
}

/// The budget bar for a percentage: 20 cells, filled for each five percent,
/// coloured by how full it is, with the colour reset after it.
pub open spec fn bar(percent: u8) -> Seq<char> {
    bar_color(percent) + repeat('\u{2588}', bar_filled(percent)) + repeat(
        '\u{2591}',
        (20 - bar_filled(percent)) as nat,
    ) + "\x1b[0m"@
}

/// The coloured budget bar for a percentage.
pub fn render_bar(percent: u8) -> (r: String)
    ensures
        r@ == bar(percent),
{
    let filled = (percent as usize) / 5;
    let cells = if filled < 20 {
        filled
    } else {
        20
    };
    let empty = 20 - cells;
    let color = if percent < 50 {
        "\x1b[32m"
    } else if percent < 80 {
        "\x1b[33m"
    } else {
        "\x1b[31m"
    };
    let mut out = chars_of(color);
    let full = repeat_char('\u{2588}', cells);
    append_chars(&mut out, full.as_slice());
    let rest = repeat_char('\u{2591}', empty);
    append_chars(&mut out, rest.as_slice());
    let reset = chars_of("\x1b[0m");
    append_chars(&mut out, reset.as_slice());
    string_of(out.as_slice())
}

/// A colour of the terminal output.
#[derive(Debug, Clone, Copy, PartialEq, Eq, Structural)]
pub enum Tint {
    Green,
    Yellow,
    Red,
    Magenta,
    Blue,
    White,
    DarkGrey,
}

/// The colour of a preset level: light green, medium yellow, aggressive red,
/// ultra magenta, anything else white.
pub open spec fn spec_preset_tint(level: u8) -> Tint {
    if level == 1 {
        Tint::Green
    } else if level == 2 {
        Tint::Yellow
    } else if level == 3 {
        Tint::Red
    } else if level == 4 {
        Tint::Magenta
    } else {
        Tint::White
    }
}

/// The colour in which a preset level is shown.
pub fn preset_tint(level: u8) -> (t: Tint)
    ensures
        t == spec_preset_tint(level),
{
    match level {
        1 => Tint::Green,
        2 => Tint::Yellow,
        3 => Tint::Red,
        4 => Tint::Magenta,
        _ => Tint::White,
    }
}

/// The colour of a role in the file listing: code green, configuration
/// yellow, tests magenta, documentation blue, anything else dark grey.
pub open spec fn spec_role_tint(role: FileRole) -> Tint {
    match role {
        FileRole::CoreLogic => Tint::Green,
        FileRole::Config => Tint::Yellow,
        FileRole::Test => Tint::Magenta,
        FileRole::Documentation => Tint::Blue,
        _ => Tint::DarkGrey,
    }
}

/// The colour in which a role is shown.
pub fn role_tint(role: FileRole) -> (t: Tint)
    ensures
        t == spec_role_tint(role),
{
    match role {
        FileRole::CoreLogic => Tint::Green,
        FileRole::Config => Tint::Yellow,
        FileRole::Test => Tint::Magenta,
        FileRole::Documentation => Tint::Blue,
        _ => Tint::DarkGrey,
    }
}

/// The preset the wizard's choice selects: light, medium, aggressive, ultra
/// in that order, medium for any other choice.
pub open spec fn spec_wizard_preset(choice: usize) -> Seq<char> {
    if choice == 0 {
        "light"@
    } else if choice == 1 {
        "medium"@
    } else if choice == 2 {
        "aggressive"@
    } else if choice == 3 {
        "ultra"@
    } else {
        "medium"@
    }
}

/// The preset name for the wizard's preset choice.
pub fn wizard_preset(choice: usize) -> (name: &'static str)
    ensures
        name@ == spec_wizard_preset(choice),
{
    match choice {
        0 => "light",
        1 => "medium",
        2 => "aggressive",
        3 => "ultra",
        _ => "medium",
    }
}

/// The token budget the wizard's choice selects: 20,000, 50,000, 100,000 or
/// 200,000, and 50,000 for any other choice.
pub open spec fn spec_wizard_budget(choice: usize) -> usize {
    if choice == 0 {
        20_000
    } else if choice == 1 {
        50_000
    } else if choice == 2 {
        100_000
    } else if choice == 3 {
        200_000
    } else {
        50_000
    }
}

/// The token budget for the wizard's budget choice.
pub fn wizard_budget(choice: usize) -> (budget: usize)
    ensures
        budget == spec_wizard_budget(choice),
{
    match choice {
        0 => 20_000,
        1 => 50_000,
        2 => 100_000,
        3 => 200_000,
        _ => 50_000,
    }
}

/// The version to announce: the remote one when it differs from the local one.
pub fn update_notice(remote: &str, local: &str) -> (r: Option<String>)
    ensures
        r matches Some(v) ==> v@ == remote@ && remote@ != local@,
        r is None ==> remote@ == local@,
{
    let a = chars_of(remote);
    let b = chars_of(local);
    if chars_eq(a.as_slice(), b.as_slice()) {
        None
    } else {
        Some(string_from(remote))
    }
}

/// A rough token count of a text: a quarter of its length in bytes.
pub fn approximate_tokens(text: &str) -> (n: usize)
    ensures
        n == vstd::utf8::encode_utf8(text@).len() / 4,
{
    text.as_bytes().len() / 4
}

/// `s` without its commas.
pub open spec fn without_commas(s: Seq<char>) -> Seq<char>
    decreases s.len(),
{
    if s.len() == 0 {
        s
    } else if s.last() == ',' {
        without_commas(s.drop_last())
    } else {
        without_commas(s.drop_last()).push(s.last())
    }
}

proof fn lemma_without_commas_concat(a: Seq<char>, b: Seq<char>)
    ensures
        without_commas(a + b) == without_commas(a) + without_commas(b),
    decreases b.len(),
{
    if b.len() == 0 {
        assert(a + b =~= a);
        assert(without_commas(a) + without_commas(b) =~= without_commas(a));
    } else {
        lemma_without_commas_concat(a, b.drop_last());
        assert((a + b).drop_last() =~= a + b.drop_last());
        assert((a + b).last() == b.last());
    }
}

proof fn lemma_digits_without_commas(n: nat)
    ensures
        without_commas(decimal(n)) == decimal(n),
        forall|i: int| 0 <= i < decimal(n).len() ==> decimal(n)[i] != ',',
    decreases n,
{
    if n >= 10 {
        lemma_digits_without_commas(n / 10);
    }
    assert(decimal(n).drop_last() =~= if n < 10 {
        Seq::<char>::empty()
    } else {
        decimal(n / 10)
    });
    assert(without_commas(Seq::<char>::empty()) =~= Seq::<char>::empty());
}

proof fn lemma_comma_free(s: Seq<char>)
    requires
        forall|i: int| 0 <= i < s.len() ==> s[i] != ',',
    ensures
        without_commas(s) == s,
    decreases s.len(),
{
    if s.len() > 0 {
        lemma_comma_free(s.drop_last());
        assert(s.drop_last().push(s.last()) =~= s);
    }
}

proof fn lemma_with_commas_strips(s: Seq<char>)
    requires
        forall|i: int| 0 <= i < s.len() ==> s[i] != ',',
    ensures
        without_commas(with_commas(s)) == s,
    decreases s.len(),
{
    if s.len() <= 3 {
        lemma_comma_free(s);
    } else {
        let head = s.take(s.len() - 3);
        let tail = s.skip(s.len() - 3);
        lemma_with_commas_strips(head);
        lemma_without_commas_concat(with_commas(head) + seq![','], tail);
        lemma_without_commas_concat(with_commas(head), seq![',']);
        lemma_comma_free(tail);
        assert(without_commas(seq![',']) =~= Seq::<char>::empty()) by {
            let one = seq![','];
            assert(one.len() == 1);
            assert(one.last() == ',');
            assert(one.drop_last() =~= Seq::<char>::empty());
            assert(without_commas(one.drop_last()) =~= Seq::<char>::empty());
        }
        assert(head + tail =~= s);
    }
}

/// A formatted number read without its separators is the plain decimal number.
pub proof fn law_separators_only_added(n: nat)
    ensures
        without_commas(with_commas(decimal(n))) == decimal(n),
{
    lemma_digits_without_commas(n);
    lemma_with_commas_strips(decimal(n));
}

/// The budget bar always has twenty cells between its colour and its reset,
/// and at most twenty of them are filled.
pub proof fn law_bar_has_twenty_cells(percent: u8)
    ensures
        bar(percent) == bar_color(percent) + (repeat('\u{2588}', bar_filled(percent)) + repeat(
            '\u{2591}',
            (20 - bar_filled(percent)) as nat,
        )) + "\x1b[0m"@,
        (repeat('\u{2588}', bar_filled(percent)) + repeat('\u{2591}', (20 - bar_filled(percent)) as nat)).len()
            == 20,
        bar_filled(percent) <= 20,
        percent >= 100 ==> bar_filled(percent) == 20,
{
    let a = bar_color(percent);
    let b = repeat('\u{2588}', bar_filled(percent));
    let c = repeat('\u{2591}', (20 - bar_filled(percent)) as nat);
    assert(a + b + c + "\x1b[0m"@ =~= a + (b + c) + "\x1b[0m"@);
}

/// The wizard's preset choices are the four presets in order: the name of
/// choice `i` is the name of level `i + 1`, and it selects that level.
pub proof fn law_wizard_presets_are_levels(choice: usize)
    requires
        choice < 4,
    ensures
        spec_wizard_preset(choice) == crate::spec_preset_name((choice + 1) as u8),
        crate::spec_preset_level(Some(spec_wizard_preset(choice))) == choice + 1,
{
    crate::law_preset_names_round_trip((choice + 1) as u8);
}

/// The wizard's budgets grow with the choice, and any other choice gives the
/// default budget of 50,000 tokens.
pub proof fn law_wizard_budgets_grow(a: usize, b: usize)
    ensures
        a < b < 4 ==> spec_wizard_budget(a) < spec_wizard_budget(b),
        a >= 4 ==> spec_wizard_budget(a) == 50_000,
{
}

/// The four presets have four different colours, none of them the colour of
/// other levels.
pub proof fn law_preset_tints_differ(a: u8, b: u8)
    requires
        1 <= a <= 4,
        1 <= b <= 4,
        a != b,
    ensures
        spec_preset_tint(a) != spec_preset_tint(b),
        spec_preset_tint(a) != Tint::White,
{
}

} // verus!
