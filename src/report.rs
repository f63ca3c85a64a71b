//! Error reports: an error and its chain of causes, one line each.

use vstd::prelude::*;
use crate::text::owned;

verus! {

/// The label in front of a report line.
#[derive(Clone, Copy, Debug, PartialEq, Eq, Structural)]
pub enum Lead {
    /// The first line: the error itself.
    Error,
    /// Every later line: a cause of the line above.
    CausedBy,
}

impl Lead {
    /// The label as printed.
    pub fn text(&self) -> (r: &'static str)
        ensures
            r@ == (if *self == Lead::Error {
                "error:"@
            } else {
                "caused by:"@
            }),
    {
        match self {
            Lead::Error => "error:",
            Lead::CausedBy => "caused by:",
        }
    }
}

/// The messages of `s` that are not empty, in order.
pub open spec fn printable(s: Seq<Seq<char>>) -> Seq<Seq<char>>
    decreases s.len(),
{
    if s.len() == 0 {
        Seq::empty()
    } else if s.last().len() > 0 {
        printable(s.drop_last()).push(s.last())
    } else {
        printable(s.drop_last())
    }
}

/// The views of a list of messages.
pub open spec fn texts(v: Seq<String>) -> Seq<Seq<char>> {
    v.map_values(|s: String| s@)
}

/// The label of the line at `i`.
pub open spec fn lead_at(i: int) -> Lead {
    if i == 0 {
        Lead::Error
    } else {
        Lead::CausedBy
    }
}

/// The message printed when no cause has a message.
pub open spec fn undefined_text() -> Seq<char> {
    "An undefined error occurred"@
}

/// The lines that report an error whose chain of causes has the messages
/// `causes`, outermost first: empty messages are skipped, the first line is
/// labelled as the error and the others as its causes; where nothing is
/// left, one line says that an undefined error occurred.
pub fn error_lines(causes: &Vec<String>) -> (r: Vec<(Lead, String)>)
    ensures
        printable(texts(causes@)).len() == 0 ==> r@.len() == 1 && r@[0].0 == Lead::Error
            && r@[0].1@ == undefined_text(),
        printable(texts(causes@)).len() > 0 ==> r@.len() == printable(texts(causes@)).len()
            && forall|i: int|
            0 <= i < r@.len() ==> r@[i].0 == lead_at(i) && r@[i].1@ == printable(
                texts(causes@),
            )[i],
{
    let mut r: Vec<(Lead, String)> = Vec::new();
    let mut i: usize = 0;
    while i < causes.len()
        invariant
            i <= causes@.len(),
            r@.len() == printable(texts(causes@).take(i as int)).len(),
            forall|j: int|
                0 <= j < r@.len() ==> r@[j].0 == lead_at(j) && r@[j].1@ == printable(
                    texts(causes@).take(i as int),
                )[j],
        decreases causes@.len() - i,
    {
        let ghost before = texts(causes@).take(i as int);
        assert(texts(causes@).take(i + 1).drop_last() =~= before);
        let c = &causes[i];
        if c.unicode_len() > 0 {
            let lead = if r.len() == 0 {
                Lead::Error
            } else {
                Lead::CausedBy
            };
            r.push((lead, c.clone()));
        }
        i += 1;
    }
    assert(texts(causes@).take(causes@.len() as int) =~= texts(causes@));
    if r.len() == 0 {
        r.push((Lead::Error, owned("An undefined error occurred")));
    }
    r
}

} // verus!
