//! The text of a queue line: a position label, the item's label and what the
//! item costs in materials and crates.

use crate::item::Item;
use vstd::prelude::*;
use vstd::string::StringExecFns;

verus! {

/// `char::from_u32` gives the character with code point `i`, and `None` where
/// `i` is a surrogate or lies beyond the last code point.
pub assume_specification[ char::from_u32 ](i: u32) -> (c: Option<char>)
    ensures
        c == if i <= 0xD7FF || 0xE000 <= i <= 0x10FFFF {
            Some(i as char)
        } else {
            None::<char>
        },
;

/// `String::push` appends one character.
pub assume_specification[ String::push ](s: &mut String, ch: char)
    ensures
        final(s)@ == old(s)@.push(ch),
;

/// How many bmats one crate holds.
pub const BMATS_PER_CRATE: u32 = 100;

/// How many emats one crate holds.
pub const EMATS_PER_CRATE: u32 = 20;

/// How many rmats one crate holds.
pub const RMATS_PER_CRATE: u32 = 20;

/// How many hemats one crate holds.
pub const HEMATS_PER_CRATE: u32 = 20;

/// The code point of the first position label, the regional indicator for A.
pub const FIRST_LABEL: u32 = 0x1F1E6;

/// The last position whose label is a character of its own.
pub const LAST_LABELLED: usize = 0xF0E19;

/// The crates that `amount` units fill when a crate holds `per_crate`: the
/// quotient, rounded up.
pub open spec fn crates_needed(amount: nat, per_crate: nat) -> nat
    recommends
        per_crate > 0,
{
    ((amount + per_crate - 1) / (per_crate as int)) as nat
}

/// Rounded up, the crates hold the whole amount.
pub proof fn lemma_crates_hold_amount(amount: nat, per_crate: nat)
    requires
        per_crate > 0,
    ensures
        crates_needed(amount, per_crate) * per_crate >= amount,
{
    let k = crates_needed(amount, per_crate);
    assert(k * per_crate >= amount) by (nonlinear_arith)
        requires
            per_crate > 0,
            k == (amount + per_crate - 1) / (per_crate as int),
    ;
}

/// Rounding up gives the least number of crates: any `fewer` fall short of
/// the amount.
pub proof fn lemma_fewer_crates_fall_short(amount: nat, per_crate: nat, fewer: nat)
    requires
        per_crate > 0,
        fewer < crates_needed(amount, per_crate),
    ensures
        fewer * per_crate < amount,
{
    let k = crates_needed(amount, per_crate);
    assert((k - 1) * per_crate < amount) by (nonlinear_arith)
        requires
            per_crate > 0,
            k == (amount + per_crate - 1) / (per_crate as int),
    ;
    assert(fewer * per_crate <= (k - 1) * per_crate) by (nonlinear_arith)
        requires
            fewer <= k - 1,
            per_crate > 0,
    ;
}

pub fn crate_count(amount: u32, per_crate: u32) -> (crates: u32)
    requires
        per_crate > 0,
    ensures
        crates == crates_needed(amount as nat, per_crate as nat),
{
    let whole: u32 = amount / per_crate;
    let rest: u32 = amount % per_crate;
    proof {
        assert(crates_needed(amount as nat, per_crate as nat) == if rest == 0 {
            whole as int
        } else {
            whole + 1
        }) by (nonlinear_arith)
            requires
                per_crate > 0,
                whole == amount as int / per_crate as int,
                rest == amount as int % per_crate as int,
                crates_needed(amount as nat, per_crate as nat) == (amount + per_crate - 1) / (
                per_crate as int),
        ;
        assert(rest != 0 ==> whole < u32::MAX) by (nonlinear_arith)
            requires
                per_crate > 0,
                whole == amount as int / per_crate as int,
                rest == amount as int % per_crate as int,
                amount <= u32::MAX,
        ;
    }
    if rest == 0 {
        whole
    } else {
        whole + 1
    }
}

/// The character that stands for the digit `d`.
pub open spec fn digit(d: nat) -> char
    recommends
        d < 10,
{
    ('0' as nat + d) as char
}

/// The decimal numeral of `n`, without leading zeros.
pub open spec fn decimal(n: nat) -> Seq<char>
    decreases n,
{
    if n < 10 {
        seq![digit(n)]
    } else {
        decimal(n / 10).push(digit(n % 10))
    }
}

/// Appends the decimal numeral of `value` to `out`.
pub fn push_decimal(out: &mut String, value: u32)
    ensures
        final(out)@ == old(out)@ + decimal(value as nat),
    decreases value,
{
    if value >= 10 {
        push_decimal(out, value / 10);
    }
    let d: u8 = (value % 10) as u8;
    out.push((48u8 + d) as char);
}

/// What one material contributes to a line: the amount, the material's name
/// and, in brackets, the crates that the amount fills.
pub open spec fn material_text(amount: nat, name: Seq<char>, per_crate: nat) -> Seq<char> {
    decimal(amount) + " "@ + name + " ("@ + decimal(crates_needed(amount, per_crate))
        + "\u{1F4E6})"@
}

/// The texts that one material adds to a summary: none where nothing of it is
/// needed.
pub open spec fn material_part(amount: nat, name: Seq<char>, per_crate: nat) -> Seq<Seq<char>> {
    if amount > 0 {
        seq![material_text(amount, name, per_crate)]
    } else {
        Seq::empty()
    }
}

/// The texts of the materials that an item needs, in the order bmats, emats,
/// rmats, hemats.
pub open spec fn material_parts(item: Item) -> Seq<Seq<char>> {
    material_part(item.bmats as nat, "Bmats"@, BMATS_PER_CRATE as nat) + material_part(
        item.emats as nat,
        "Emats"@,
        EMATS_PER_CRATE as nat,
    ) + material_part(item.rmats as nat, "Rmats"@, RMATS_PER_CRATE as nat) + material_part(
        item.hemats as nat,
        "HEmats"@,
        HEMATS_PER_CRATE as nat,
    )
}

/// The parts in order, with the separator between each two of them.
pub open spec fn joined(parts: Seq<Seq<char>>, separator: Seq<char>) -> Seq<char>
    decreases parts.len(),
{
    if parts.len() == 0 {
        Seq::empty()
    } else if parts.len() == 1 {
        parts[0]
    } else {
        joined(parts.drop_last(), separator) + separator + parts.last()
    }
}

/// The materials that an item needs, separated by commas; empty where it
/// needs none.
pub open spec fn materials_summary(item: Item) -> Seq<char> {
    joined(material_parts(item), ", "@)
}

/// What `format_material_amount` appends: nothing for an amount of zero, else
/// the material's text, after a comma where `comma` is set.
pub open spec fn material_suffix(
    amount: nat,
    name: Seq<char>,
    per_crate: nat,
    comma: bool,
) -> Seq<char> {
    if amount > 0 {
        (if comma {
            ", "@
        } else {
            Seq::empty()
        }) + material_text(amount, name, per_crate)
    } else {
        Seq::empty()
    }
}

/// Appends one material to a summary under construction. `comma` tells
/// whether an earlier material was written; the result tells the same of the
/// summary as it now stands.
pub fn format_material_amount(
    out: &mut String,
    amount: u32,
    name: &str,
    crated_amount: u32,
    comma: bool,
) -> (written: bool)
    requires
        crated_amount > 0,
    ensures
        written == (amount > 0 || comma),
        final(out)@ == old(out)@ + material_suffix(
            amount as nat,
            name@,
            crated_amount as nat,
            comma,
        ),
{
    if amount > 0 {
        if comma {
            out.append(", ");
        }
        let crates = crate_count(amount, crated_amount);
        push_decimal(out, amount);
        out.append(" ");
        out.append(name);
        out.append(" (");
        push_decimal(out, crates);
        out.append("\u{1F4E6})");
        true
    } else {
        comma
    }
}

proof fn lemma_joined_push(parts: Seq<Seq<char>>, part: Seq<char>, separator: Seq<char>)
    ensures
        joined(parts.push(part), separator) == if parts.len() == 0 {
            part
        } else {
            joined(parts, separator) + separator + part
        },
{
    assert(parts.push(part).drop_last() == parts);
}

/// Writing a material after `parts` extends their joined text by its suffix.
proof fn lemma_joined_material(
    parts: Seq<Seq<char>>,
    amount: nat,
    name: Seq<char>,
    per_crate: nat,
)
    ensures
        joined(parts + material_part(amount, name, per_crate), ", "@) == joined(parts, ", "@)
            + material_suffix(amount, name, per_crate, parts.len() > 0),
{
    if amount > 0 {
        let text = material_text(amount, name, per_crate);
        assert(parts + material_part(amount, name, per_crate) == parts.push(text));
        lemma_joined_push(parts, text, ", "@);
    } else {
        assert(parts + material_part(amount, name, per_crate) == parts);
    }
}

pub fn format_material_amounts(item: &Item) -> (out: String)
    ensures
        out@ == materials_summary(*item),
{
    let mut out = String::new();
    let ghost none = Seq::<Seq<char>>::empty();
    let ghost bmats = material_part(item.bmats as nat, "Bmats"@, BMATS_PER_CRATE as nat);
    let ghost emats = material_part(item.emats as nat, "Emats"@, EMATS_PER_CRATE as nat);
    let ghost rmats = material_part(item.rmats as nat, "Rmats"@, RMATS_PER_CRATE as nat);
    let ghost hemats = material_part(item.hemats as nat, "HEmats"@, HEMATS_PER_CRATE as nat);
    proof {
        lemma_joined_material(none, item.bmats as nat, "Bmats"@, BMATS_PER_CRATE as nat);
        lemma_joined_material(none + bmats, item.emats as nat, "Emats"@, EMATS_PER_CRATE as nat);
        lemma_joined_material(
            none + bmats + emats,
            item.rmats as nat,
            "Rmats"@,
            RMATS_PER_CRATE as nat,
        );
        lemma_joined_material(
            none + bmats + emats + rmats,
            item.hemats as nat,
            "HEmats"@,
            HEMATS_PER_CRATE as nat,
        );
        assert(none + bmats == bmats);
    }
    let comma = format_material_amount(&mut out, item.bmats, "Bmats", BMATS_PER_CRATE, false);
    let comma = format_material_amount(&mut out, item.emats, "Emats", EMATS_PER_CRATE, comma);
    let comma = format_material_amount(&mut out, item.rmats, "Rmats", RMATS_PER_CRATE, comma);
    let _ = format_material_amount(&mut out, item.hemats, "HEmats", HEMATS_PER_CRATE, comma);
    out
}

/// The label of the queue position `n`: the regional indicator for A at
/// position 0, for B at position 1 and so on through the code points that
/// follow; `X` once the code points are used up.
pub open spec fn position_label(n: nat) -> char {
    if n <= LAST_LABELLED {
        (FIRST_LABEL + n) as char
    } else {
        'X'
    }
}

/// The line that shows `item` at queue position `n`. With
/// `letter_width_hack` a space follows the position label, for displays that
/// draw the label two columns wide.
pub open spec fn entry_text(item: Item, n: nat, letter_width_hack: bool) -> Seq<char> {
    seq![position_label(n)] + (if letter_width_hack {
        " "@
    } else {
        Seq::empty()
    }) + "\u{30FB}1 Queue of "@ + item.label() + "\u{30FB}"@ + materials_summary(item)
}

pub fn format_todolist_entry(item: &Item, n: usize, letter_width_hack: bool) -> (line: String)
    ensures
        line@ == entry_text(*item, n as nat, letter_width_hack),
{
    let label = if n <= LAST_LABELLED {
        char::from_u32(FIRST_LABEL + n as u32).unwrap_or('X')
    } else {
        'X'
    };
    let mut line = String::new();
    line.push(label);
    if letter_width_hack {
        line.append(" ");
    }
    line.append("\u{30FB}1 Queue of ");
    line.append(item.short_name.unwrap_or(item.name));
    line.append("\u{30FB}");
    let materials = format_material_amounts(item);
    line.append(materials.as_str());
    line
}

} // verus!
