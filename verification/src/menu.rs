//! The menu bar: one slot for each of the function keys 1 to 9, labelled
//! with the action that the key triggers, then the exit key.

use vstd::prelude::*;
use crate::action::Action;
use crate::content::ContentType;
use crate::text::{decimal, decimal_string};

verus! {

/// The label of slot `n` for a pane of the given kind: the action's, or a
/// blank placeholder where the key triggers none.
pub open spec fn slot_label(kind: ContentType, n: int) -> Seq<char> {
    match Action::for_key(kind, n) {
        Some(action) => action.label_text(),
        None => "_____"@,
    }
}

/// The menu bar up to and with slot `n`: a leading blank, then for each
/// slot its number, a blank, its label and a blank.
pub open spec fn menu_slots(kind: ContentType, n: nat) -> Seq<char>
    decreases n,
{
    if n == 0 {
        seq![' ']
    } else {
        ((menu_slots(kind, (n - 1) as nat) + decimal(n)).push(' ') + slot_label(
            kind,
            n as int,
        )).push(' ')
    }
}

/// The menu bar for a pane of the given kind.
pub open spec fn menu_text(kind: ContentType) -> Seq<char> {
    menu_slots(kind, 9) + "10 Exit "@
}

/// The menu bar for a pane of the given kind.
pub fn menu_line(kind: ContentType) -> (line: String)
    ensures
        line@ == menu_text(kind),
{
    let mut line = String::new();
    line.push(' ');
    assert(line@ =~= menu_slots(kind, 0));
    let mut n: u8 = 1;
    while n <= 9
        invariant
            1 <= n <= 10,
            line@ == menu_slots(kind, (n - 1) as nat),
        decreases 10 - n,
    {
        let number = decimal_string(n as usize);
        line.append(number.as_str());
        line.push(' ');
        match Action::bound_to(kind, n) {
            Some(action) => line.append(action.label()),
            None => line.append("_____"),
        }
        line.push(' ');
        n = n + 1;
    }
    line.append("10 Exit ");
    line
}

/// The menu bar is 81 characters long for every kind of pane.
pub proof fn lemma_menu_width(kind: ContentType)
    ensures
        menu_text(kind).len() == 81,
{
    reveal_strlit("_____");
    reveal_strlit("Creat");
    reveal_strlit("Snaps");
    reveal_strlit("Clone");
    reveal_strlit("Renam");
    reveal_strlit("Scrub");
    reveal_strlit("RollB");
    reveal_strlit("Destr");
    reveal_strlit("10 Exit ");
    assert forall|n: int| 1 <= n <= 9 implies #[trigger] slot_label(kind, n).len() == 5 by {}
    assert forall|n: nat| 1 <= n <= 9 implies #[trigger] decimal(n).len() == 1 by {}
    assert forall|n: nat| n <= 9 implies #[trigger] menu_slots(kind, n).len() == 1 + 8 * n by {
        lemma_slots_width(kind, n);
    }
}

/// The menu bar up to slot `n` has one character and eight for each slot.
proof fn lemma_slots_width(kind: ContentType, n: nat)
    requires
        n <= 9,
        forall|m: int| 1 <= m <= 9 ==> #[trigger] slot_label(kind, m).len() == 5,
        forall|m: nat| 1 <= m <= 9 ==> #[trigger] decimal(m).len() == 1,
    ensures
        menu_slots(kind, n).len() == 1 + 8 * n,
    decreases n,
{
    if n > 0 {
        lemma_slots_width(kind, (n - 1) as nat);
    }
}

} // verus!
