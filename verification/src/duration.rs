//! Elapsed time and its human-readable rendering, plain and in colour.

use colored::Colorize;
use vstd::prelude::*;

use crate::decimal::{decimal_digits, decimal_text, is_digit, lemma_decimal_digits_are_digits};
use crate::text::{join, joined};

verus! {

/// Nanoseconds in one second.
pub const NANOS_PER_SECOND: u32 = 1_000_000_000;

/// A span of wall-clock time: whole seconds and the nanoseconds of the
/// second that has begun. Its view is the total number of nanoseconds.
#[derive(Clone, Copy, Debug)]
pub struct Elapsed {
    seconds: u64,
    subsec_nanos: u32,
}

impl View for Elapsed {
    type V = nat;

    closed spec fn view(&self) -> nat {
        self.seconds as nat * 1_000_000_000 + self.subsec_nanos as nat
    }
}

impl Elapsed {
    #[verifier::type_invariant]
    spec fn well_formed(self) -> bool {
        self.subsec_nanos < NANOS_PER_SECOND
    }

    /// A span of `seconds` seconds and `subsec_nanos` nanoseconds; `None`
    /// unless the nanoseconds are less than one second.
    pub fn new(seconds: u64, subsec_nanos: u32) -> (elapsed: Option<Elapsed>)
        ensures
            elapsed is Some <==> subsec_nanos < NANOS_PER_SECOND,
            elapsed matches Some(e) ==> e@ == seconds as nat * 1_000_000_000 + subsec_nanos as nat,
    {
        if subsec_nanos < NANOS_PER_SECOND {
            Some(Elapsed { seconds, subsec_nanos })
        } else {
            None
        }
    }

    /// A span of whole seconds.
    pub fn from_secs(seconds: u64) -> (elapsed: Elapsed)
        ensures
            elapsed@ == seconds as nat * 1_000_000_000,
    {
        Elapsed { seconds, subsec_nanos: 0 }
    }

    /// The whole seconds of the span.
    pub fn as_secs(&self) -> (seconds: u64)
        ensures
            seconds == self@ / 1_000_000_000,
    {
        proof {
            use_type_invariant(self);
            vstd::arithmetic::div_mod::lemma_fundamental_div_mod_converse(
                self@ as int,
                1_000_000_000,
                self.seconds as int,
                self.subsec_nanos as int,
            );
        }
        self.seconds
    }

    /// The nanoseconds beyond the whole seconds.
    pub fn subsec_nanos(&self) -> (nanos: u32)
        ensures
            nanos == self@ % 1_000_000_000,
    {
        proof {
            use_type_invariant(self);
            vstd::arithmetic::div_mod::lemma_fundamental_div_mod_converse(
                self@ as int,
                1_000_000_000,
                self.seconds as int,
                self.subsec_nanos as int,
            );
        }
        self.subsec_nanos
    }
}

/// The colours in which amounts are shown.
#[derive(Clone, Copy, Debug, PartialEq, Eq, Structural)]
pub enum Tint {
    Red,
    Magenta,
    Yellow,
    Green,
    Cyan,
    Blue,
}

/// The units a span is broken into, largest first.
#[derive(Clone, Copy, Debug, PartialEq, Eq, Structural)]
pub enum Unit {
    Days,
    Hours,
    Minutes,
    Seconds,
    Millis,
    Micros,
    Nanos,
}

impl Unit {
    /// How many of this unit a span of `total` nanoseconds shows: whole days
    /// without bound, every smaller unit below one of the next larger.
    pub open spec fn amount(self, total: nat) -> nat {
        match self {
            Unit::Days => total / 86_400_000_000_000,
            Unit::Hours => (total / 3_600_000_000_000) % 24,
            Unit::Minutes => (total / 60_000_000_000) % 60,
            Unit::Seconds => (total / 1_000_000_000) % 60,
            Unit::Millis => (total / 1_000_000) % 1_000,
            Unit::Micros => (total / 1_000) % 1_000,
            Unit::Nanos => total % 1_000,
        }
    }

    /// The letters written after the amount.
    pub open spec fn suffix(self) -> Seq<char> {
        match self {
            Unit::Days => "d"@,
            Unit::Hours => "h"@,
            Unit::Minutes => "m"@,
            Unit::Seconds => "s"@,
            Unit::Millis => "ms"@,
            Unit::Micros => "µs"@,
            Unit::Nanos => "ns"@,
        }
    }

    /// The colour in which the unit is shown. Nanoseconds are purple, which
    /// a terminal shows as magenta.
    pub open spec fn tint(self) -> Tint {
        match self {
            Unit::Days => Tint::Red,
            Unit::Hours => Tint::Magenta,
            Unit::Minutes => Tint::Yellow,
            Unit::Seconds => Tint::Green,
            Unit::Millis => Tint::Cyan,
            Unit::Micros => Tint::Blue,
            Unit::Nanos => Tint::Magenta,
        }
    }

    /// The length of one unit in nanoseconds.
    pub open spec fn nanos(self) -> nat {
        match self {
            Unit::Days => 86_400_000_000_000,
            Unit::Hours => 3_600_000_000_000,
            Unit::Minutes => 60_000_000_000,
            Unit::Seconds => 1_000_000_000,
            Unit::Millis => 1_000_000,
            Unit::Micros => 1_000,
            Unit::Nanos => 1,
        }
    }
}

/// The unit with its amount, if the amount is not zero.
pub open spec fn part(unit: Unit, total: nat) -> Seq<(Unit, nat)> {
    if unit.amount(total) == 0 {
        seq![]
    } else {
        seq![(unit, unit.amount(total))]
    }
}

/// The units of a span of `total` nanoseconds whose amount is not zero,
/// largest unit first, each with its amount.
pub open spec fn parts(total: nat) -> Seq<(Unit, nat)> {
    part(Unit::Days, total) + part(Unit::Hours, total) + part(Unit::Minutes, total) + part(
        Unit::Seconds,
        total,
    ) + part(Unit::Millis, total) + part(Unit::Micros, total) + part(Unit::Nanos, total)
}

/// Executable parts seen as their mathematical counterparts.
pub open spec fn lifted(parts: Seq<(Unit, u64)>) -> Seq<(Unit, nat)> {
    parts.map_values(|p: (Unit, u64)| (p.0, p.1 as nat))
}

/// Dividing the remainder by `a * b` by `a` gives the quotient by `a`
/// taken modulo `b`.
proof fn lemma_middle(x: int, a: int, b: int)
    requires
        0 <= x,
        0 < a,
        0 < b,
    ensures
        (x % (a * b)) / a == (x / a) % b,
{
    vstd::arithmetic::div_mod::lemma_breakdown(x, a, b);
    vstd::arithmetic::div_mod::lemma_mod_bound(x, a);
    vstd::arithmetic::mul::lemma_mul_is_commutative(a, (x / a) % b);
    vstd::arithmetic::div_mod::lemma_fundamental_div_mod_converse(
        x % (a * b),
        a,
        (x / a) % b,
        x % a,
    );
}

/// The amounts of a span, computed from its whole seconds and from the
/// nanoseconds beyond them.
proof fn lemma_amounts_from_seconds(total: nat)
    ensures
        Unit::Days.amount(total) == (total / 1_000_000_000) / 86_400,
        Unit::Hours.amount(total) == ((total / 1_000_000_000) % 86_400) / 3_600,
        Unit::Minutes.amount(total) == ((total / 1_000_000_000) % 3_600) / 60,
        Unit::Seconds.amount(total) == (total / 1_000_000_000) % 60,
        Unit::Millis.amount(total) == (total % 1_000_000_000) / 1_000_000,
        Unit::Micros.amount(total) == ((total % 1_000_000_000) / 1_000) % 1_000,
        Unit::Nanos.amount(total) == (total % 1_000_000_000) % 1_000,
{
    let t = total as int;
    let secs = t / 1_000_000_000;
    assert(t / 86_400_000_000_000 == secs / 86_400) by {
        vstd::arithmetic::div_mod::lemma_div_denominator(t, 1_000_000_000, 86_400);
    }
    assert((t / 3_600_000_000_000) % 24 == (secs % 86_400) / 3_600) by {
        vstd::arithmetic::div_mod::lemma_div_denominator(t, 1_000_000_000, 3_600);
        lemma_middle(secs, 3_600, 24);
    }
    assert((t / 60_000_000_000) % 60 == (secs % 3_600) / 60) by {
        vstd::arithmetic::div_mod::lemma_div_denominator(t, 1_000_000_000, 60);
        lemma_middle(secs, 60, 60);
    }
    assert((t / 1_000_000) % 1_000 == (t % 1_000_000_000) / 1_000_000) by {
        lemma_middle(t, 1_000_000, 1_000);
    }
    assert((t / 1_000) % 1_000 == ((t % 1_000_000_000) / 1_000) % 1_000) by {
        lemma_middle(t, 1_000, 1_000_000);
        vstd::arithmetic::div_mod::lemma_mod_mod(t / 1_000, 1_000, 1_000);
    }
    assert(t % 1_000 == (t % 1_000_000_000) % 1_000) by {
        vstd::arithmetic::div_mod::lemma_mod_mod(t, 1_000, 1_000_000);
    }
}

/// The amounts of the seven units add up to the span, so the breakdown
/// loses nothing.
pub proof fn lemma_amounts_add_up(total: nat)
    ensures
        Unit::Days.amount(total) * Unit::Days.nanos() + Unit::Hours.amount(total)
            * Unit::Hours.nanos() + Unit::Minutes.amount(total) * Unit::Minutes.nanos()
            + Unit::Seconds.amount(total) * Unit::Seconds.nanos() + Unit::Millis.amount(total)
            * Unit::Millis.nanos() + Unit::Micros.amount(total) * Unit::Micros.nanos()
            + Unit::Nanos.amount(total) * Unit::Nanos.nanos() == total,
{
    let t = total as int;
    let q1 = t / 1_000;
    let q2 = q1 / 1_000;
    let q3 = q2 / 1_000;
    let q4 = q3 / 60;
    let q5 = q4 / 60;
    let q6 = q5 / 24;
    assert(q2 == t / 1_000_000) by {
        vstd::arithmetic::div_mod::lemma_div_denominator(t, 1_000, 1_000);
    }
    assert(q3 == t / 1_000_000_000) by {
        vstd::arithmetic::div_mod::lemma_div_denominator(t, 1_000_000, 1_000);
    }
    assert(q4 == t / 60_000_000_000) by {
        vstd::arithmetic::div_mod::lemma_div_denominator(t, 1_000_000_000, 60);
    }
    assert(q5 == t / 3_600_000_000_000) by {
        vstd::arithmetic::div_mod::lemma_div_denominator(t, 60_000_000_000, 60);
    }
    assert(q6 == t / 86_400_000_000_000) by {
        vstd::arithmetic::div_mod::lemma_div_denominator(t, 3_600_000_000_000, 24);
    }
}

/// Appends the unit with its amount, unless the amount is zero.
fn push_part(list: &mut Vec<(Unit, u64)>, unit: Unit, amount: u64)
    ensures
        lifted(final(list)@) == lifted(old(list)@) + (if amount == 0 {
            Seq::<(Unit, nat)>::empty()
        } else {
            seq![(unit, amount as nat)]
        }),
{
    if amount > 0 {
        list.push((unit, amount));
    }
}

impl Elapsed {
    /// Breaks the span into its units and keeps those that are not zero,
    /// largest unit first.
    pub fn parts(&self) -> (list: Vec<(Unit, u64)>)
        ensures
            lifted(list@) == parts(self@),
    {
        proof {
            use_type_invariant(self);
        }
        let seconds: u64 = self.seconds;
        let nanos: u64 = self.subsec_nanos as u64;
        let ghost total = self@;
        proof {
            vstd::arithmetic::div_mod::lemma_fundamental_div_mod_converse(
                total as int,
                1_000_000_000,
                seconds as int,
                nanos as int,
            );
            lemma_amounts_from_seconds(total);
        }
        let mut list: Vec<(Unit, u64)> = Vec::new();
        push_part(&mut list, Unit::Days, seconds / 86_400);
        push_part(&mut list, Unit::Hours, (seconds % 86_400) / 3_600);
        push_part(&mut list, Unit::Minutes, (seconds % 3_600) / 60);
        push_part(&mut list, Unit::Seconds, seconds % 60);
        push_part(&mut list, Unit::Millis, nanos / 1_000_000);
        push_part(&mut list, Unit::Micros, (nanos / 1_000) % 1_000);
        push_part(&mut list, Unit::Nanos, nanos % 1_000);
        list
    }
}

impl Unit {
    /// The letters written after the amount.
    fn suffix_text(self) -> (text: &'static str)
        ensures
            text@ == self.suffix(),
            no_escape(text@),
    {
        proof {
            reveal_strlit("d");
            reveal_strlit("h");
            reveal_strlit("m");
            reveal_strlit("s");
            reveal_strlit("ms");
            reveal_strlit("µs");
            reveal_strlit("ns");
        }
        match self {
            Unit::Days => "d",
            Unit::Hours => "h",
            Unit::Minutes => "m",
            Unit::Seconds => "s",
            Unit::Millis => "ms",
            Unit::Micros => "µs",
            Unit::Nanos => "ns",
        }
    }

    /// The colour in which the unit is shown.
    fn pick_tint(self) -> (tint: Tint)
        ensures
            tint == self.tint(),
    {
        match self {
            Unit::Days => Tint::Red,
            Unit::Hours => Tint::Magenta,
            Unit::Minutes => Tint::Yellow,
            Unit::Seconds => Tint::Green,
            Unit::Millis => Tint::Cyan,
            Unit::Micros => Tint::Blue,
            Unit::Nanos => Tint::Magenta,
        }
    }
}

/// One part in plain text: the amount in decimal, then the unit's letters.
pub open spec fn plain_word(part: (Unit, nat)) -> Seq<char> {
    decimal_digits(part.1) + part.0.suffix()
}

/// The plain rendering of a span of `total` nanoseconds: the parts that are
/// not zero, largest unit first, separated by single spaces; `0s` when
/// every part is zero.
pub open spec fn human_text(total: nat) -> Seq<char> {
    let words = parts(total).map_values(|p: (Unit, nat)| plain_word(p));
    if words.len() == 0 {
        "0s"@
    } else {
        joined(words)
    }
}

/// A span shown in plain text.
pub struct HumanDuration(pub Elapsed);

impl HumanDuration {
    /// Renders the span in plain text.
    pub fn to_text(&self) -> (text: String)
        ensures
            text@ == human_text(self.0@),
    {
        let list = self.0.parts();
        let ghost all = parts(self.0@);
        let ghost target = all.map_values(|p: (Unit, nat)| plain_word(p));
        let mut words: Vec<String> = Vec::new();
        let n: usize = list.len();
        let mut i: usize = 0;
        while i < n
            invariant
                i <= n,
                n == list@.len(),
                lifted(list@) == all,
                target == all.map_values(|p: (Unit, nat)| plain_word(p)),
                words@.len() == i,
                forall|k: int| 0 <= k < i ==> (#[trigger] words@[k])@ == target[k],
            decreases n - i,
        {
            let unit = list[i].0;
            let amount: u64 = list[i].1;
            let mut word = decimal_text(amount);
            word.append(unit.suffix_text());
            words.push(word);
            i = i + 1;
        }
        assert(words.deep_view() =~= target);
        if words.len() == 0 {
            String::from_str("0s")
        } else {
            join(&words)
        }
    }
}

/// The escape character that opens a terminal control sequence.
pub open spec fn is_escape(c: char) -> bool {
    c == '\u{1b}'
}

/// Whether the text is free of escape characters.
pub open spec fn no_escape(text: Seq<char>) -> bool {
    forall|i: int| 0 <= i < text.len() ==> !is_escape(#[trigger] text[i])
}

/// The number by which a terminal selects the colour for text.
pub open spec fn color_code(tint: Tint) -> Seq<char> {
    match tint {
        Tint::Red => "31"@,
        Tint::Green => "32"@,
        Tint::Yellow => "33"@,
        Tint::Blue => "34"@,
        Tint::Magenta => "35"@,
        Tint::Cyan => "36"@,
    }
}

/// The text between the control sequence that switches the colour on,
/// with bold type if asked for, and the one that resets the terminal.
pub open spec fn styled(text: Seq<char>, tint: Tint, bold: bool) -> Seq<char> {
    "\u{1b}["@ + (if bold {
        "1;"@
    } else {
        Seq::<char>::empty()
    }) + color_code(tint) + "m"@ + text + "\u{1b}[0m"@
}

/// What painting a text gives: the styled text where colour is switched
/// on, the text itself where it is not.
pub open spec fn painted(text: Seq<char>, tint: Tint, bold: bool, on: bool) -> Seq<char> {
    if on {
        styled(text, tint, bold)
    } else {
        text
    }
}

/// Whether `out` is `text` painted, with colour switched on or off.
pub open spec fn is_painted(out: Seq<char>, text: Seq<char>, tint: Tint, bold: bool) -> bool {
    out == painted(text, tint, bold, false) || out == painted(text, tint, bold, true)
}

/// Paints a text in a colour with `colored`'s `Colorize::color` and renders
/// it with the `Display` of `ColoredString`. Whether colour is switched on
/// is decided by the environment of the process, so the contract admits
/// both outcomes: the text unchanged, or the text between the colour's
/// control sequence and the reset sequence. The switch is taken not to
/// change while one text is rendered. Text that holds an escape character
/// is left out, because an embedded reset sequence is rewritten.
#[verifier::external_body]
fn paint(text: &str, tint: Tint) -> (out: String)
    requires
        no_escape(text@),
    ensures
        is_painted(out@, text@, tint, false),
{
    let color = match tint {
        Tint::Red => colored::Color::Red,
        Tint::Magenta => colored::Color::Magenta,
        Tint::Yellow => colored::Color::Yellow,
        Tint::Green => colored::Color::Green,
        Tint::Cyan => colored::Color::Cyan,
        Tint::Blue => colored::Color::Blue,
    };
    text.color(color).to_string()
}

/// Paints a text in bold type and in a colour with `colored`'s
/// `Colorize::bold` and `Colorize::color`, rendered as by `paint`. The
/// contract admits the text unchanged, or the text between the control
/// sequence for bold and the colour and the reset sequence.
#[verifier::external_body]
fn paint_bold(text: &str, tint: Tint) -> (out: String)
    requires
        no_escape(text@),
    ensures
        is_painted(out@, text@, tint, true),
{
    let color = match tint {
        Tint::Red => colored::Color::Red,
        Tint::Magenta => colored::Color::Magenta,
        Tint::Yellow => colored::Color::Yellow,
        Tint::Green => colored::Color::Green,
        Tint::Cyan => colored::Color::Cyan,
        Tint::Blue => colored::Color::Blue,
    };
    text.bold().color(color).to_string()
}

/// Whether `word` shows one part in colour: the amount painted bold in the
/// unit's colour, then the unit's letters painted in the same colour.
pub open spec fn is_colored_word(word: Seq<char>, part: (Unit, nat)) -> bool {
    exists|amount_on: bool, suffix_on: bool|
        word == #[trigger] painted(decimal_digits(part.1), part.0.tint(), true, amount_on)
            + #[trigger] painted(part.0.suffix(), part.0.tint(), false, suffix_on)
}

/// Whether `text` is a rendering in colour of a span of `total`
/// nanoseconds: the parts that are not zero, largest unit first, each shown
/// in colour, separated by single spaces; a green `0s` when every part is
/// zero.
pub open spec fn is_colored_text(text: Seq<char>, total: nat) -> bool {
    let all = parts(total);
    if all.len() == 0 {
        is_painted(text, "0s"@, Tint::Green, false)
    } else {
        exists|words: Seq<Seq<char>>|
            {
                &&& words.len() == all.len()
                &&& forall|k: int|
                    0 <= k < all.len() ==> is_colored_word(#[trigger] words[k], all[k])
                &&& text == #[trigger] joined(words)
            }
    }
}

/// Where colour is switched off throughout, the rendering in colour is the
/// plain one.
pub proof fn lemma_plain_text_is_colored_text(total: nat)
    ensures
        is_colored_text(human_text(total), total),
{
    let all = parts(total);
    if all.len() > 0 {
        let words = all.map_values(|p: (Unit, nat)| plain_word(p));
        assert forall|k: int| 0 <= k < all.len() implies is_colored_word(
            #[trigger] words[k],
            all[k],
        ) by {
            assert(words[k] == painted(decimal_digits(all[k].1), all[k].0.tint(), true, false)
                + painted(all[k].0.suffix(), all[k].0.tint(), false, false));
        }
    }
}

/// The digits of a number hold no escape character.
proof fn lemma_digits_no_escape(n: nat)
    ensures
        no_escape(decimal_digits(n)),
{
    lemma_decimal_digits_are_digits(n);
    assert forall|i: int| 0 <= i < decimal_digits(n).len() implies !is_escape(
        #[trigger] decimal_digits(n)[i],
    ) by {
        assert(is_digit(decimal_digits(n)[i]));
    }
}

/// A span shown in colour.
pub struct ColoredDuration(pub Elapsed);

impl ColoredDuration {
    /// Renders the span with each part in the colour of its unit.
    pub fn to_text(&self) -> (text: String)
        ensures
            is_colored_text(text@, self.0@),
    {
        let list = self.0.parts();
        let ghost all = parts(self.0@);
        let mut words: Vec<String> = Vec::new();
        let n: usize = list.len();
        let mut i: usize = 0;
        while i < n
            invariant
                i <= n,
                n == list@.len(),
                lifted(list@) == all,
                words@.len() == i,
                forall|k: int| 0 <= k < i ==> is_colored_word((#[trigger] words@[k])@, all[k]),
            decreases n - i,
        {
            let unit = list[i].0;
            let amount: u64 = list[i].1;
            let digits = decimal_text(amount);
            proof {
                lemma_digits_no_escape(amount as nat);
            }
            let mut word = paint_bold(digits.as_str(), unit.pick_tint());
            let letters = paint(unit.suffix_text(), unit.pick_tint());
            word.append(letters.as_str());
            words.push(word);
            i = i + 1;
        }
        if words.len() == 0 {
            proof {
                reveal_strlit("0s");
            }
            paint("0s", Tint::Green)
        } else {
            let text = join(&words);
            proof {
                let shown = words.deep_view();
                assert forall|k: int| 0 <= k < all.len() implies is_colored_word(
                    #[trigger] shown[k],
                    all[k],
                ) by {
                    assert(shown[k] == words@[k]@);
                }
            }
            text
        }
    }
}

} // verus!
