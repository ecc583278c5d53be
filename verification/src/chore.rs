//! The chore data model: a priority classification and the chore record,
//! together with the textual rendering used by the due-list view.

use vstd::prelude::*;
use vstd::string::StringExecFns;

verus! {

/// Importance classification for a chore. The three variants form a closed
/// set; each maps to a fixed lowercase label for rendering.
#[derive(Clone, Copy, Debug, PartialEq, Eq, Structural)]
pub enum Priority {
    Low,
    Mid,
    High,
}

/// The label that a priority renders as.
pub open spec fn priority_label(p: Priority) -> Seq<char> {
    match p {
        Priority::Low => "low"@,
        Priority::Mid => "mid"@,
        Priority::High => "high"@,
    }
}

impl Priority {
    /// The fixed lowercase display label of this priority.
    pub fn label(&self) -> (r: &'static str)
        ensures
            r@ == priority_label(*self),
    {
        match self {
            Priority::Low => "low",
            Priority::Mid => "mid",
            Priority::High => "high",
        }
    }
}

/// A unit of tracked work. Chores are value-like: once constructed a chore is
/// never mutated in place; a transition moves the whole value from one list
/// of the store to another.
#[derive(Clone, Debug, PartialEq)]
pub struct Chore {
    /// Non-empty display string naming the chore.
    pub title: String,
    /// Effort units this chore costs.
    pub cost: u32,
    /// Importance classification.
    pub priority: Priority,
}

/// A well-formed chore has a non-empty title.
pub open spec fn chore_wf(c: Chore) -> bool {
    c.title@.len() > 0
}

impl Chore {
    /// Builds a chore from its three fields.
    pub fn new(title: String, cost: u32, priority: Priority) -> (r: Chore)
        requires
            title@.len() > 0,
        ensures
            r.title@ == title@,
            r.cost == cost,
            r.priority == priority,
            chore_wf(r),
    {
        Chore { title, cost, priority }
    }

    /// Renders the due-list label of this chore:
    /// `"{title} ({priority}) [{cost}]"`.
    pub fn label(&self) -> (r: String)
        ensures
            r@ == label_of(*self),
    {
        let mut s = self.title.clone();
        s.append(" (");
        s.append(self.priority.label());
        s.append(") [");
        push_dec(&mut s, self.cost);
        s.append("]");
        s
    }
}

/// The label a chore renders as in the due list.
pub open spec fn label_of(c: Chore) -> Seq<char> {
    c.title@ + " ("@ + priority_label(c.priority) + ") ["@ + dec_of(c.cost as nat) + "]"@
}

/// The decimal digit character for `d` (meaningful for `d < 10`).
pub open spec fn digit_char(d: nat) -> char {
    if d == 0 {
        '0'
    } else if d == 1 {
        '1'
    } else if d == 2 {
        '2'
    } else if d == 3 {
        '3'
    } else if d == 4 {
        '4'
    } else if d == 5 {
        '5'
    } else if d == 6 {
        '6'
    } else if d == 7 {
        '7'
    } else if d == 8 {
        '8'
    } else {
        '9'
    }
}

/// The decimal rendering of `n`, most significant digit first, without
/// leading zeros (`0` renders as `"0"`).
pub open spec fn dec_of(n: nat) -> Seq<char>
    decreases n,
{
    if n < 10 {
        seq![digit_char(n)]
    } else {
        dec_of(n / 10).push(digit_char(n % 10))
    }
}

/// The one-character string for decimal digit `d`.
fn digit_str(d: u32) -> (r: &'static str)
    requires
        d < 10,
    ensures
        r@ == seq![digit_char(d as nat)],
{
    let r: &'static str = match d {
        0 => "0",
        1 => "1",
        2 => "2",
        3 => "3",
        4 => "4",
        5 => "5",
        6 => "6",
        7 => "7",
        8 => "8",
        _ => "9",
    };
    proof {
        reveal_strlit("0");
        reveal_strlit("1");
        reveal_strlit("2");
        reveal_strlit("3");
        reveal_strlit("4");
        reveal_strlit("5");
        reveal_strlit("6");
        reveal_strlit("7");
        reveal_strlit("8");
        reveal_strlit("9");
        assert(r@ =~= seq![digit_char(d as nat)]);
    }
    r
}

/// Appends the decimal rendering of `n` to `out`.
fn push_dec(out: &mut String, n: u32)
    ensures
        final(out)@ == old(out)@ + dec_of(n as nat),
    decreases n,
{
    if n >= 10 {
        push_dec(out, n / 10);
    }
    out.append(digit_str(n % 10));
    proof {
        assert(out@ =~= old(out)@ + dec_of(n as nat));
    }
}

} // verus!
