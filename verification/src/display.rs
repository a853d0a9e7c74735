//! Building blocks of the summaries that the entities render.
//!
//! A summary is a run of lines, each a label, a value and a line feed. The
//! children of an entity follow as one bulleted line each.

use vstd::prelude::*;

verus! {

/// One line of a summary: the label, the value, a line feed.
pub open spec fn line(label: Seq<char>, value: Seq<char>) -> Seq<char> {
    label + value + seq!['\n']
}

/// One bulleted line for each of `items`, in their order.
pub open spec fn bullets(items: Seq<Seq<char>>) -> Seq<char>
    decreases items.len(),
{
    if items.len() == 0 {
        Seq::empty()
    } else {
        bullets(items.drop_last()) + line("- "@, items.last())
    }
}

/// How a flag is written.
pub open spec fn bool_text(b: bool) -> Seq<char> {
    if b {
        "true"@
    } else {
        "false"@
    }
}

/// Writes a flag as `true` or `false`.
pub fn render_bool(b: bool) -> (r: &'static str)
    ensures
        r@ == bool_text(b),
{
    if b {
        "true"
    } else {
        "false"
    }
}

/// Appends one line to `out`.
pub fn push_line(out: &mut String, label: &str, value: &str)
    ensures
        final(out)@ == old(out)@ + line(label@, value@),
{
    proof {
        reveal_strlit("\n");
    }
    out.append(label);
    out.append(value);
    out.append("\n");
    assert("\n"@ =~= seq!['\n']);
    assert(out@ =~= old(out)@ + line(label@, value@));
}

/// Appends one bulleted line to `out`.
pub fn push_bullet(out: &mut String, item: &str)
    ensures
        final(out)@ == old(out)@ + line("- "@, item@),
{
    push_line(out, "- ", item);
}

} // verus!
