//! A decoded register value as lines of text, one for the register and one
//! for each of its fields.

use crate::field::{Decoded, FieldInfo, FieldModel};
use crate::text::{field_text, numeral, write_numeral};
use vstd::prelude::*;

verus! {

/// The description that a tree carries, or nothing.
pub open spec fn description_text(description: Option<Seq<char>>) -> Seq<char> {
    match description {
        Some(text) => text,
        None => Seq::empty(),
    }
}

/// The first line of a report: the register value in hexadecimal with all
/// of its 16 digits and 16 zeros in front of them, and what was made of it.
pub open spec fn header_text(esr: u64, description: Option<Seq<char>>) -> Seq<char> {
    numeral(esr as nat, 16, "0x"@, 32) + ": "@ + description_text(description)
}

/// A bit position in decimal, with two digits at least.
pub open spec fn position_text(position: nat) -> Seq<char> {
    numeral(position, 10, Seq::empty(), 2)
}

/// The line of a field: where it lies, its name and its value. A single bit
/// is placed by its position; any other field by the position above its
/// highest bit and that of its lowest bit.
pub open spec fn line_text(field: FieldModel) -> Seq<char> {
    if field.width == 1 {
        position_text(field.start) + "    "@ + field_text(field.name, field.value, field.width)
    } else {
        position_text(field.start + field.width) + "-"@ + position_text(field.start) + " "@
            + field_text(field.name, field.value, field.width)
    }
}

/// Writes the first line of a report on `esr` and what it decoded to.
pub fn header_line(esr: u64, decoded: &Decoded) -> (line: String)
    ensures
        line@ == header_text(esr, decoded@.description),
{
    let mut line = write_numeral(esr, 16, "0x", 32);
    line.append(": ");
    match &decoded.description {
        Some(text) => {
            line.append(text.as_str());
        },
        None => {
            assert(line@ =~= line@ + Seq::<char>::empty());
        },
    }
    line
}

/// Writes the line of a field.
pub fn field_line(field: &FieldInfo) -> (line: String)
    requires
        field.start + field.width <= u64::MAX,
    ensures
        line@ == line_text(field@),
{
    let text = field.to_text();
    if field.width == 1 {
        let mut line = write_numeral(field.start as u64, 10, "", 2);
        proof {
            reveal_strlit("");
            assert(""@ =~= Seq::<char>::empty());
        }
        line.append("    ");
        line.append(text.as_str());
        line
    } else {
        let mut line = write_numeral((field.start as u64) + (field.width as u64), 10, "", 2);
        let start = write_numeral(field.start as u64, 10, "", 2);
        proof {
            reveal_strlit("");
            assert(""@ =~= Seq::<char>::empty());
        }
        line.append("-");
        line.append(start.as_str());
        line.append(" ");
        line.append(text.as_str());
        line
    }
}

/// Writes the report on `esr` and what it decoded to: the first line, then
/// the line of each field of the register in order.
pub fn report(esr: u64, decoded: &Decoded) -> (lines: Vec<String>)
    requires
        forall|i: int|
            0 <= i < decoded.fields.len() ==> (#[trigger] decoded.fields[i]).start
                + decoded.fields[i].width <= u64::MAX,
    ensures
        lines.len() == decoded.fields.len() + 1,
        lines[0]@ == header_text(esr, decoded@.description),
        forall|i: int|
            0 <= i < decoded.fields.len() ==> (#[trigger] lines[i + 1])@ == line_text(
                decoded@.fields[i],
            ),
{
    let mut lines: Vec<String> = Vec::new();
    lines.push(header_line(esr, decoded));
    let mut done: usize = 0;
    while done < decoded.fields.len()
        invariant
            done <= decoded.fields.len(),
            lines.len() == done + 1,
            lines[0]@ == header_text(esr, decoded@.description),
            forall|i: int|
                0 <= i < done ==> (#[trigger] lines[i + 1])@ == line_text(decoded@.fields[i]),
            forall|i: int|
                0 <= i < decoded.fields.len() ==> (#[trigger] decoded.fields[i]).start
                    + decoded.fields[i].width <= u64::MAX,
        decreases decoded.fields.len() - done,
    {
        lines.push(field_line(&decoded.fields[done]));
        done = done + 1;
    }
    lines
}

} // verus!
