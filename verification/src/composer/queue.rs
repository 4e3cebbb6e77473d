//! Queued messages above the composer, the strip that lists them in server
//! order, and the suggestion chips below the last turn.
use vstd::prelude::*;

use crate::text::{decimal, decimal_chars, extend_chars, extend_str, string_from};

verus! {

/// What a queue row asks for.
#[derive(Debug, Clone, Copy, PartialEq, Eq, Structural)]
pub enum QueueIntent {
    /// Unqueue it and put the text back in the composer.
    Edit,
    /// Drop it from the queue.
    Remove,
    /// Unqueue it and interject it into the running turn instead.
    Steer,
}

/// The badge a queued row wears: `editing` while its text is back in the
/// composer waiting for the server to take it out of the queue, `queued`
/// otherwise.
pub fn queue_badge(editing: bool) -> (b: &'static str)
    ensures
        b@ == if editing {
            "editing"@
        } else {
            "queued"@
        },
{
    if editing {
        "editing"
    } else {
        "queued"
    }
}

/// The actions at a queued row's right end, left to right.
pub fn queue_actions() -> (out: Vec<QueueIntent>)
    ensures
        out@ == seq![QueueIntent::Steer, QueueIntent::Edit, QueueIntent::Remove],
{
    let mut out: Vec<QueueIntent> = Vec::new();
    out.push(QueueIntent::Steer);
    out.push(QueueIntent::Edit);
    out.push(QueueIntent::Remove);
    out
}

/// A queued message row.
#[derive(Debug)]
pub struct QueueRow {
    /// Stable identity of the row.
    pub id: String,
    /// The queued text.
    pub text: String,
    /// Whether its text is back in the composer.
    pub editing: bool,
}

/// A queued message.
pub fn queue_row(id: &str, text: &str) -> (r: QueueRow)
    ensures
        r.id@ == id@,
        r.text@ == text@,
        !r.editing,
{
    QueueRow { id: id.to_string(), text: text.to_string(), editing: false }
}

impl QueueRow {
    /// The row whose text is in the composer, waiting for the server to take
    /// it out of the queue.
    pub fn editing(self) -> (r: Self)
        ensures
            r == (QueueRow { editing: true, ..self }),
    {
        QueueRow { editing: true, ..self }
    }
}

/// Suggestion chips; the first carries the sparkle glyph.
#[derive(Debug)]
pub struct SuggestionChips {
    /// Stable identity of the row of chips.
    pub id: String,
    /// The chips' labels, in order.
    pub items: Vec<String>,
    /// Whether the first chip carries the sparkle.
    pub sparkle_first: bool,
    /// Skips the staggered enter.
    pub at_rest: bool,
}

/// Chips for `items`; the first carries the sparkle glyph.
pub fn suggestion_chips(id: &str, items: Vec<String>) -> (c: SuggestionChips)
    ensures
        c.id@ == id@,
        c.items == items,
        c.sparkle_first,
        !c.at_rest,
{
    SuggestionChips { id: id.to_string(), items, sparkle_first: true, at_rest: false }
}

impl SuggestionChips {
    /// Skips the staggered enter.
    pub fn at_rest(self) -> (c: Self)
        ensures
            c == (SuggestionChips { at_rest: true, ..self }),
    {
        SuggestionChips { at_rest: true, ..self }
    }

    /// Whether chip `index` carries the sparkle: only the first.
    pub fn sparkles(&self, index: usize) -> (b: bool)
        ensures
            b == (index == 0 && self.sparkle_first),
    {
        index == 0 && self.sparkle_first
    }
}

/// One row of the queue strip: the server's turn id and the text it queued.
#[derive(Debug)]
pub struct QueueStripRow {
    /// The turn id, handed back with every intent.
    pub id: String,
    /// The submission's text.
    pub text: String,
    /// Whether this row's text is in the composer.
    pub editing: bool,
}

impl QueueStripRow {
    /// A queued row.
    pub fn new(id: &str, text: &str) -> (r: Self)
        ensures
            r.id@ == id@,
            r.text@ == text@,
            !r.editing,
    {
        QueueStripRow { id: id.to_string(), text: text.to_string(), editing: false }
    }

    /// Marks the row as the one being edited.
    pub fn editing(self) -> (r: Self)
        ensures
            r == (QueueStripRow { editing: true, ..self }),
    {
        QueueStripRow { editing: true, ..self }
    }
}

/// The queued submissions above the docked composer, in server order.
#[derive(Debug)]
pub struct QueueStrip {
    /// Stable identity of the strip.
    pub id: String,
    /// The rows, newest last, exactly as the server has them.
    pub rows: Vec<QueueStripRow>,
}

/// The strip for `rows`, newest last, in server order.
pub fn queue_strip(id: &str, rows: Vec<QueueStripRow>) -> (s: QueueStrip)
    ensures
        s.id@ == id@,
        s.rows == rows,
{
    QueueStrip { id: id.to_string(), rows }
}

impl QueueStrip {
    /// The caps line above the rows: `Queued · N`.
    pub fn caption(&self) -> (c: String)
        ensures
            c@ == "Queued \u{b7} "@ + decimal(self.rows@.len() as nat),
    {
        let mut out: Vec<char> = Vec::new();
        extend_str(&mut out, "Queued \u{b7} ");
        let n = decimal_chars(self.rows.len() as u64);
        extend_chars(&mut out, &n);
        string_from(&out)
    }

    /// The turn ids the strip draws, top to bottom: exactly the rows it was
    /// given, in the order it was given — a queued turn moves only when the
    /// server says so.
    pub fn shown(&self) -> (ids: Vec<String>)
        ensures
            ids@.len() == self.rows@.len(),
            forall|i: int| 0 <= i < ids@.len() ==> (#[trigger] ids@[i])@ == self.rows@[i].id@,
    {
        let mut ids: Vec<String> = Vec::new();
        for i in 0..self.rows.len()
            invariant
                ids@.len() == i,
                forall|j: int| 0 <= j < i ==> (#[trigger] ids@[j])@ == self.rows@[j].id@,
        {
            ids.push(self.rows[i].id.clone());
        }
        ids
    }
}

} // verus!
