//! The line editor: a single growable buffer for the message being composed.
//! It grows by one character on append, shrinks by one on backspace (a no-op
//! when already empty), and is taken whole and reset at submit time.

use vstd::prelude::*;

verus! {

/// Relies on std's String::push: appends the given char to the end of the
/// string. vstd gives this method no specification.
pub assume_specification[ String::push ](s: &mut String, c: char)
    ensures
        final(s)@ == old(s)@.push(c),
;

/// Relies on std's String::pop: removes the last char of the string and
/// returns it, or returns None when the string is empty. vstd gives this
/// method no specification.
pub assume_specification[ String::pop ](s: &mut String) -> (r: Option<char>)
    ensures
        old(s)@.len() == 0 ==> r is None && final(s)@ == old(s)@,
        old(s)@.len() > 0 ==> r == Some(old(s)@.last()) && final(s)@ == old(s)@.drop_last(),
;

/// Relies on std's String::clear: empties the string. vstd gives this method
/// no specification.
pub assume_specification[ String::clear ](s: &mut String)
    ensures
        final(s)@ == Seq::<char>::empty(),
;

/// What one backspace leaves of the buffer text: the text unchanged when it
/// is empty, otherwise the text without its last character.
pub open spec fn backspaced(s: Seq<char>) -> Seq<char> {
    if s.len() == 0 {
        s
    } else {
        s.drop_last()
    }
}

/// The in-progress outgoing message text.
pub struct ComposeBuffer {
    text: String,
}

impl View for ComposeBuffer {
    type V = Seq<char>;

    closed spec fn view(&self) -> Seq<char> {
        self.text@
    }
}

impl ComposeBuffer {
    /// A fresh, empty buffer, as the session loop starts with.
    pub fn new() -> (r: ComposeBuffer)
        ensures
            r@ == Seq::<char>::empty(),
    {
        ComposeBuffer { text: String::new() }
    }

    /// Append one character at the end of the buffer.
    pub fn append(&mut self, c: char)
        ensures
            final(self)@ == old(self)@.push(c),
    {
        self.text.push(c);
    }

    /// Remove the last character if there is one; on an empty buffer this is
    /// silently a no-op, never an underflow or an error.
    pub fn backspace(&mut self)
        ensures
            final(self)@ == backspaced(old(self)@),
    {
        self.text.pop();
    }

    /// Hand out the buffer contents for submission and reset the buffer to
    /// empty.
    pub fn take_and_clear(&mut self) -> (r: String)
        ensures
            r@ == old(self)@,
            final(self)@ == Seq::<char>::empty(),
    {
        let r = self.text.clone();
        self.text.clear();
        r
    }

    /// The current contents, read-only.
    pub fn contents(&self) -> (r: &str)
        ensures
            r@ == self@,
    {
        self.text.as_str()
    }
}

/// One editing keystroke.
pub enum EditOp {
    Append(char),
    Backspace,
}

/// What one editing operation does to the buffer text.
pub open spec fn apply_edit(s: Seq<char>, op: EditOp) -> Seq<char> {
    match op {
        EditOp::Append(c) => s.push(c),
        EditOp::Backspace => backspaced(s),
    }
}

/// What a whole sequence of editing operations, applied in order, leaves of
/// the buffer text.
pub open spec fn apply_edits(s: Seq<char>, ops: Seq<EditOp>) -> Seq<char>
    decreases ops.len(),
{
    if ops.len() == 0 {
        s
    } else {
        apply_edits(apply_edit(s, ops[0]), ops.drop_first())
    }
}

/// How many of the operations are appends.
pub open spec fn append_count(ops: Seq<EditOp>) -> int
    decreases ops.len(),
{
    if ops.len() == 0 {
        0
    } else {
        (if ops[0] is Append {
            1int
        } else {
            0int
        }) + append_count(ops.drop_first())
    }
}

/// How many of the operations are backspaces that actually remove a
/// character, that is, ones applied while the buffer is non-empty, when the
/// operations run in order from buffer text `s`.
pub open spec fn effective_backspace_count(s: Seq<char>, ops: Seq<EditOp>) -> int
    decreases ops.len(),
{
    if ops.len() == 0 {
        0
    } else {
        (if ops[0] is Backspace && s.len() > 0 {
            1int
        } else {
            0int
        }) + effective_backspace_count(apply_edit(s, ops[0]), ops.drop_first())
    }
}

/// Law: over every sequence of append/backspace operations the buffer length
/// never goes below zero, and ends at the starting length plus the number of
/// appends minus the number of backspaces that found a non-empty buffer.
pub proof fn lemma_buffer_length(s: Seq<char>, ops: Seq<EditOp>)
    ensures
        apply_edits(s, ops).len() >= 0,
        apply_edits(s, ops).len() == s.len() + append_count(ops) - effective_backspace_count(
            s,
            ops,
        ),
    decreases ops.len(),
{
    if ops.len() > 0 {
        lemma_buffer_length(apply_edit(s, ops[0]), ops.drop_first());
    }
}

/// The characters that a run of appends carries, in order.
pub open spec fn appended_chars(ops: Seq<EditOp>) -> Seq<char>
    decreases ops.len(),
{
    if ops.len() == 0 {
        Seq::<char>::empty()
    } else {
        match ops[0] {
            EditOp::Append(c) => seq![c] + appended_chars(ops.drop_first()),
            EditOp::Backspace => appended_chars(ops.drop_first()),
        }
    }
}

/// Law: a sequence of operations that holds no backspace extends the buffer
/// by exactly the appended characters, in the order they were typed.
pub proof fn lemma_appends_in_order(s: Seq<char>, ops: Seq<EditOp>)
    requires
        forall|i: int| 0 <= i < ops.len() ==> ops[i] is Append,
    ensures
        apply_edits(s, ops) == s + appended_chars(ops),
    decreases ops.len(),
{
    if ops.len() == 0 {
        assert(apply_edits(s, ops) =~= s + appended_chars(ops));
    } else {
        let c = ops[0]->Append_0;
        assert(forall|i: int|
            0 <= i < ops.drop_first().len() ==> #[trigger] ops.drop_first()[i] == ops[i + 1]);
        lemma_appends_in_order(s.push(c), ops.drop_first());
        assert(s.push(c) + appended_chars(ops.drop_first()) =~= s + appended_chars(ops));
    }
}

} // verus!
