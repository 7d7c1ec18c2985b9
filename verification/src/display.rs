//! The status view: two lines of text at fixed places of the screen that show
//! the latest tick. The view is a projection of the tick and keeps no state.
use vstd::prelude::*;
use crate::tick::SampleTick;

verus! {

/// A line of text and the place of the screen where it starts.
#[derive(Debug)]
pub struct StatusLine {
    pub column: u16,
    pub row: u16,
    pub text: String,
}

/// The names, written one after the other with `separator` between each two.
pub open spec fn joined(names: Seq<Seq<char>>, separator: Seq<char>) -> Seq<char>
    decreases names.len(),
{
    if names.len() == 0 {
        Seq::empty()
    } else if names.len() == 1 {
        names[0]
    } else {
        joined(names.drop_last(), separator) + separator + names.last()
    }
}

/// The text of the first status line for a tick with this timestamp.
pub open spec fn updated_text(timestamp: Seq<char>) -> Seq<char> {
    "Last Updated: "@ + timestamp
}

/// The text of the second status line for a tick that observed these names.
pub open spec fn apps_text(observed: Seq<Seq<char>>) -> Seq<char> {
    "Last Logged Apps: ["@ + joined(observed, ", "@) + "]"@
}

/// Joins the names with `separator` between each two of them.
pub fn join_names(names: &Vec<String>, separator: &str) -> (text: String)
    ensures
        text@ == joined(names.deep_view(), separator@),
{
    let mut text = String::new();
    let mut i: usize = 0;
    assert(names.deep_view().take(0) =~= Seq::<Seq<char>>::empty());
    while i < names.len()
        invariant
            i <= names.len(),
            text@ == joined(names.deep_view().take(i as int), separator@),
        decreases names.len() - i,
    {
        let ghost so_far = names.deep_view().take(i as int);
        let ghost next = names.deep_view().take(i as int + 1);
        assert(next.drop_last() =~= so_far);
        assert(next.last() == names[i as int]@);
        if i > 0 {
            text.append(separator);
        }
        text.append(names[i].as_str());
        assert(text@ =~= joined(next, separator@)) by {
            if i == 0 {
                assert(so_far.len() == 0);
                assert(next[0] == names[0]@);
            }
        }
        i += 1;
    }
    assert(names.deep_view().take(names.len() as int) =~= names.deep_view());
    text
}

/// The two status lines for a tick: the time of the last update at row 1, the
/// names last logged at row 2, both starting at column 1.
pub fn status_lines(tick: &SampleTick) -> (lines: (StatusLine, StatusLine))
    ensures
        lines.0.column == 1 && lines.0.row == 1,
        lines.0.text@ == updated_text(tick@.timestamp),
        lines.1.column == 1 && lines.1.row == 2,
        lines.1.text@ == apps_text(tick@.observed),
{
    let updated = String::from_str("Last Updated: ").concat(tick.timestamp().as_str());
    let names = join_names(tick.observed(), ", ");
    let apps = String::from_str("Last Logged Apps: [").concat(names.as_str()).concat("]");
    (
        StatusLine { column: 1, row: 1, text: updated },
        StatusLine { column: 1, row: 2, text: apps },
    )
}

/// A tick that observed nothing shows an empty pair of brackets.
pub proof fn lemma_no_apps_text()
    ensures
        apps_text(Seq::empty()) == "Last Logged Apps: []"@,
{
    reveal_strlit("Last Logged Apps: [");
    reveal_strlit(", ");
    reveal_strlit("]");
    reveal_strlit("Last Logged Apps: []");
    assert(apps_text(Seq::empty()) =~= "Last Logged Apps: []"@);
}

} // verus!
