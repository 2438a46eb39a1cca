//! A table of names and values as text, one line for each, the names
//! aligned to the right.

use vstd::prelude::*;

verus! {

/// `text` between the code that turns yellow on and the code that turns
/// all colour off.
pub open spec fn yellow(text: Seq<char>) -> Seq<char> {
    "\x1B[33m"@ + text + "\x1B[0m"@
}

/// Calls `ansi_term::Colour::Yellow.paint` and `to_string` on what it
/// gives, which writes the colour's code, the text and the code that
/// resets.
#[verifier::external_body]
fn paint_yellow(text: &str) -> (painted: String)
    ensures
        painted@ == yellow(text@),
{
    ansi_term::Colour::Yellow.paint(text).to_string()
}

/// So many blanks.
pub open spec fn blanks(n: nat) -> Seq<char> {
    Seq::new(n, |i: int| ' ')
}

/// `name` behind as many blanks as it lacks to `width` characters.
pub open spec fn padded(name: Seq<char>, width: nat) -> Seq<char> {
    if name.len() >= width {
        name
    } else {
        blanks((width - name.len()) as nat) + name
    }
}

/// The length of the longest name; zero where there is none.
pub open spec fn widest(entries: Seq<(Seq<char>, Seq<char>)>) -> nat
    decreases entries.len(),
{
    if entries.len() == 0 {
        0
    } else {
        let before = widest(entries.drop_last());
        if entries.last().0.len() > before {
            entries.last().0.len()
        } else {
            before
        }
    }
}

/// One line of the table.
pub open spec fn entry_text(entry: (Seq<char>, Seq<char>), width: nat, color: bool) -> Seq<char> {
    "[ "@ + padded(entry.0, width) + " ]: "@ + if color {
        yellow(entry.1)
    } else {
        entry.1
    }
}

/// The lines of the table, with a line feed between each two.
pub open spec fn lines_text(entries: Seq<(Seq<char>, Seq<char>)>, width: nat, color: bool) -> Seq<
    char,
>
    decreases entries.len(),
{
    if entries.len() == 0 {
        Seq::empty()
    } else if entries.len() == 1 {
        entry_text(entries[0], width, color)
    } else {
        lines_text(entries.drop_last(), width, color) + seq!['\n'] + entry_text(
            entries.last(),
            width,
            color,
        )
    }
}

/// The table: its lines, the names aligned to the longest of them.
pub open spec fn table_text(entries: Seq<(Seq<char>, Seq<char>)>, color: bool) -> Seq<char> {
    lines_text(entries, widest(entries), color)
}

/// The texts of a list of names and values.
pub open spec fn pairs(entries: Seq<(&str, &str)>) -> Seq<(Seq<char>, Seq<char>)> {
    entries.map_values(|entry: (&str, &str)| (entry.0@, entry.1@))
}

/// Writes `name` behind as many blanks as it lacks to `width` characters.
pub fn pad(name: &str, width: usize) -> (text: String)
    ensures
        text@ == padded(name@, width as nat),
{
    let len = name.unicode_len();
    let mut text = String::new();
    if len < width {
        let mut i: usize = 0;
        while i < width - len
            invariant
                len < width,
                i <= width - len,
                text@ == blanks(i as nat),
            decreases width - len - i,
        {
            proof {
                reveal_strlit(" ");
                assert(blanks(i as nat) + " "@ =~= blanks((i + 1) as nat));
            }
            text.append(" ");
            i += 1;
        }
    } else {
        assert(Seq::<char>::empty() + name@ == name@);
    }
    text.append(name);
    text
}

/// Measures the longest name.
pub fn max_width(entries: &Vec<(&str, &str)>) -> (width: usize)
    ensures
        width == widest(pairs(entries@)),
{
    let mut width: usize = 0;
    let mut i: usize = 0;
    while i < entries.len()
        invariant
            i <= entries.len(),
            width == widest(pairs(entries@).take(i as int)),
        decreases entries.len() - i,
    {
        assert(pairs(entries@).take(i + 1).drop_last() == pairs(entries@).take(i as int));
        let len = entries[i].0.unicode_len();
        if len > width {
            width = len;
        }
        i += 1;
    }
    assert(pairs(entries@).take(i as int) == pairs(entries@));
    width
}

/// Writes the table of `entries`, the values in yellow where `color` is on.
pub fn table(entries: &Vec<(&str, &str)>, color: bool) -> (text: String)
    ensures
        text@ == table_text(pairs(entries@), color),
{
    let width = max_width(entries);
    let mut text = String::new();
    let mut i: usize = 0;
    while i < entries.len()
        invariant
            i <= entries.len(),
            text@ == lines_text(pairs(entries@).take(i as int), width as nat, color),
        decreases entries.len() - i,
    {
        proof {
            reveal_strlit("\n");
            assert(pairs(entries@).take(i + 1).drop_last() == pairs(entries@).take(i as int));
            assert("\n"@ == seq!['\n']);
        }
        if i > 0 {
            text.append("\n");
        }
        let ghost start = text@;
        text.append("[ ");
        let name = pad(entries[i].0, width);
        text.append(name.as_str());
        text.append(" ]: ");
        if color {
            let value = paint_yellow(entries[i].1);
            text.append(value.as_str());
        } else {
            text.append(entries[i].1);
        }
        assert(text@ == start + entry_text(pairs(entries@)[i as int], width as nat, color));
        i += 1;
    }
    assert(pairs(entries@).take(i as int) == pairs(entries@));
    text
}

} // verus!
