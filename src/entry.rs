//! Typing the six coordinates of a triangle, one number at a time.
//!
//! A number is typed character by character into a buffer that only ever holds
//! an optional leading minus sign, digits and at most one decimal point. The
//! buffer is submitted as the next coordinate once it holds a digit; after the
//! sixth coordinate the entry switches to viewing the triangle, and a reset
//! starts over.
//!
//! Text of that form with at least one digit is exactly what std's grammar for
//! floating-point literals (`Digit+ '.'? Digit*`, or `Digit* '.' Digit+`, after
//! an optional sign) accepts, so every submitted coordinate parses as a number.

use vstd::prelude::*;

verus! {

/// The number of coordinates of a triangle: x and y of A, B and C.
pub const COORDINATES: usize = 6;

/// A key event, as far as text entry cares.
#[derive(Clone, Copy, Debug, PartialEq, Eq, Structural)]
pub enum Key {
    Return,
    Back,
    Char(char),
    Other,
}

/// Text entry of a triangle's coordinates.
pub struct Entry {
    entering: bool,
    buf: String,
    has_point: bool,
    values: Vec<String>,
}

/// The abstract state of an [`Entry`].
pub ghost struct EntryView {
    /// Coordinates are being typed (else the finished triangle is shown).
    pub entering: bool,
    /// The number being typed.
    pub buf: Seq<char>,
    /// The buffer holds a decimal point.
    pub has_point: bool,
    /// The coordinates submitted so far, in order.
    pub values: Seq<Seq<char>>,
}

impl View for Entry {
    type V = EntryView;

    closed spec fn view(&self) -> EntryView {
        EntryView {
            entering: self.entering,
            buf: self.buf@,
            has_point: self.has_point,
            values: self.values@.map_values(|s: String| s@),
        }
    }
}

pub open spec fn is_digit(c: char) -> bool {
    '0' <= c <= '9'
}

/// Text that may still grow into a number: a minus sign only in front, and
/// otherwise digits and at most one decimal point.
pub open spec fn is_partial_number(s: Seq<char>) -> bool {
    &&& forall|i: int| 0 <= i < s.len() ==> is_digit(s[i]) || s[i] == '.' || (s[i] == '-' && i == 0)
    &&& forall|i: int, j: int| 0 <= i < j < s.len() && s[i] == '.' ==> s[j] != '.'
}

/// A finished number: partial number text with at least one digit.
pub open spec fn is_number(s: Seq<char>) -> bool {
    &&& is_partial_number(s)
    &&& exists|i: int| 0 <= i < s.len() && is_digit(s[i])
}

/// A typed character: a digit always goes into the buffer, a minus sign only
/// into an empty one, a decimal point only into one without a point yet; any
/// other character is ignored, as is everything once the triangle is shown.
pub open spec fn typed(v: EntryView, ch: char) -> EntryView {
    if v.entering && (is_digit(ch) || (ch == '-' && v.buf.len() == 0) || (ch == '.' && !v.has_point)) {
        EntryView { buf: v.buf.push(ch), has_point: v.has_point || ch == '.', ..v }
    } else {
        v
    }
}

/// Backspace removes the last typed character, if any.
pub open spec fn erased(v: EntryView) -> EntryView {
    if v.entering && v.buf.len() > 0 {
        EntryView {
            buf: v.buf.drop_last(),
            has_point: if v.buf.last() == '.' { false } else { v.has_point },
            ..v
        }
    } else {
        v
    }
}

/// Return submits the buffer as the next coordinate when it holds a number;
/// the sixth coordinate ends the entry.
pub open spec fn submitted(v: EntryView) -> EntryView {
    if v.entering && is_number(v.buf) {
        EntryView {
            entering: v.values.len() + 1 < COORDINATES,
            buf: Seq::empty(),
            has_point: false,
            values: v.values.push(v.buf),
        }
    } else {
        v
    }
}

/// Starting over: the coordinates are dropped and entry resumes.
pub open spec fn restarted(v: EntryView) -> EntryView {
    EntryView { entering: true, values: Seq::empty(), ..v }
}

/// While entering, backspace, return and characters edit the entry; while the
/// triangle is shown, return starts over. Other keys do nothing.
pub open spec fn after_key(v: EntryView, key: Key) -> EntryView {
    if v.entering {
        match key {
            Key::Back => erased(v),
            Key::Return => submitted(v),
            Key::Char(ch) => typed(v, ch),
            Key::Other => v,
        }
    } else {
        match key {
            Key::Return => restarted(v),
            _ => v,
        }
    }
}

/// The name of the coordinate at the given position.
pub open spec fn coordinate_name(i: int) -> Seq<char> {
    if i == 0 {
        "point A's X coordinate"@
    } else if i == 1 {
        "point A's Y coordinate"@
    } else if i == 2 {
        "point B's X coordinate"@
    } else if i == 3 {
        "point B's Y coordinate"@
    } else if i == 4 {
        "point C's X coordinate"@
    } else {
        "point C's Y coordinate"@
    }
}

/// Whether some character of the text is a digit.
pub fn has_digit(s: &str) -> (r: bool)
    ensures
        r == exists|i: int| 0 <= i < s@.len() && is_digit(s@[i]),
{
    let n = s.unicode_len();
    let mut i: usize = 0;
    while i < n
        invariant
            n == s@.len(),
            i <= n,
            forall|j: int| 0 <= j < i ==> !is_digit(s@[j]),
        decreases n - i,
    {
        let c = s.get_char(i);
        if '0' <= c && c <= '9' {
            return true;
        }
        i = i + 1;
    }
    false
}

/// The name of the coordinate at position `i`, as shown in the prompt.
pub fn coordinate_label(i: usize) -> (r: &'static str)
    requires
        i < COORDINATES,
    ensures
        r@ == coordinate_name(i as int),
{
    if i == 0 {
        "point A's X coordinate"
    } else if i == 1 {
        "point A's Y coordinate"
    } else if i == 2 {
        "point B's X coordinate"
    } else if i == 3 {
        "point B's Y coordinate"
    } else if i == 4 {
        "point C's X coordinate"
    } else {
        "point C's Y coordinate"
    }
}

impl EntryView {
    pub open spec fn wf(self) -> bool {
        &&& self.values.len() <= COORDINATES
        &&& self.entering <==> self.values.len() < COORDINATES
        &&& is_partial_number(self.buf)
        &&& self.has_point <==> self.buf.contains('.')
        &&& forall|i: int| 0 <= i < self.values.len() ==> is_number(#[trigger] self.values[i])
    }
}

impl Entry {
    pub open spec fn wf(&self) -> bool {
        self@.wf()
    }

    /// An entry waiting for the first coordinate.
    pub fn new() -> (r: Entry)
        ensures
            r.wf(),
            r@.entering,
            r@.buf.len() == 0,
            r@.values.len() == 0,
    {
        let r = Entry { entering: true, buf: String::new(), has_point: false, values: Vec::new() };
        proof {
            assert(r@.values =~= Seq::<Seq<char>>::empty());
        }
        r
    }
    /// Coordinates are being typed.
    pub fn is_entering(&self) -> (r: bool)
        ensures
            r == self@.entering,
    {
        self.entering
    }

    /// The number being typed.
    pub fn buffer(&self) -> (r: &str)
        ensures
            r@ == self@.buf,
    {
        self.buf.as_str()
    }

    /// The coordinates submitted so far, in order.
    pub fn values(&self) -> (r: &Vec<String>)
        ensures
            r@.map_values(|s: String| s@) == self@.values,
    {
        &self.values
    }

    /// Handles a typed character.
    pub fn text_entry(&mut self, ch: char)
        requires
            old(self).wf(),
        ensures
            final(self).wf(),
            final(self)@ == typed(old(self)@, ch),
    {
        if !self.entering {
            return;
        }
        if '0' <= ch && ch <= '9' {
            self.buf.push(ch);
        }
        if ch == '-' && self.buf.as_str().is_empty() {
            self.buf.push(ch);
        }
        if ch == '.' && !self.has_point {
            self.buf.push(ch);
            self.has_point = true;
        }
        proof {
            let v = old(self)@;
            if is_digit(ch) || (ch == '-' && v.buf.len() == 0) || (ch == '.' && !v.has_point) {
                assert(self@.buf.last() == ch);
                assert(forall|i: int| 0 <= i < v.buf.len() ==> self@.buf[i] == v.buf[i]);
                assert(self@.buf.contains('.') <==> (v.buf.contains('.') || ch == '.')) by {
                    if v.buf.contains('.') {
                        let i = choose|i: int| 0 <= i < v.buf.len() && v.buf[i] == '.';
                        assert(self@.buf[i] == '.');
                    }
                    if self@.buf.contains('.') && ch != '.' {
                        let i = choose|i: int| 0 <= i < self@.buf.len() && self@.buf[i] == '.';
                        assert(v.buf[i] == '.');
                    }
                    if ch == '.' {
                        assert(self@.buf[v.buf.len() as int] == '.');
                    }
                }
            }
            assert(self@ == typed(v, ch));
        }
    }

    /// Handles backspace: the last typed character is removed.
    pub fn backspace(&mut self)
        requires
            old(self).wf(),
        ensures
            final(self).wf(),
            final(self)@ == erased(old(self)@),
    {
        if !self.entering {
            return;
        }
        let popped = self.buf.pop();
        if let Some(c) = popped {
            if c == '.' {
                self.has_point = false;
            }
        }
        proof {
            let v = old(self)@;
            if v.buf.len() > 0 {
                let b = self@.buf;
                assert(forall|i: int| 0 <= i < b.len() ==> b[i] == v.buf[i]);
                assert(b.contains('.') <==> (v.buf.contains('.') && v.buf.last() != '.')) by {
                    if b.contains('.') {
                        let i = choose|i: int| 0 <= i < b.len() && b[i] == '.';
                        assert(v.buf[i] == '.');
                    }
                    if v.buf.contains('.') && v.buf.last() != '.' {
                        let i = choose|i: int| 0 <= i < v.buf.len() && v.buf[i] == '.';
                        assert(i != v.buf.len() - 1);
                        assert(b[i] == '.');
                    }
                }
            }
            assert(self@ == erased(v));
        }
    }

    /// Handles return while entering: the buffer becomes the next coordinate
    /// when it holds a number.
    pub fn submit(&mut self)
        requires
            old(self).wf(),
        ensures
            final(self).wf(),
            final(self)@ == submitted(old(self)@),
    {
        if !self.entering || !has_digit(self.buf.as_str()) {
            return;
        }
        let ghost v = self@;
        self.values.push(self.buf.clone());
        self.buf = String::new();
        self.has_point = false;
        if self.values.len() == COORDINATES {
            self.entering = false;
        }
        proof {
            assert(self@.values =~= v.values.push(v.buf));
            assert(self@.buf =~= Seq::<char>::empty());
            assert(forall|i: int| 0 <= i < self@.values.len() ==> is_number(#[trigger] self@.values[i])) by {
                assert(forall|i: int| 0 <= i < v.values.len() ==> self@.values[i] == v.values[i]);
            }
            assert(self@ == submitted(v));
        }
    }

    /// Starts over: the coordinates are dropped and entry resumes.
    pub fn reset(&mut self)
        requires
            old(self).wf(),
        ensures
            final(self).wf(),
            final(self)@ == restarted(old(self)@),
    {
        self.values.clear();
        self.entering = true;
        proof {
            assert(self@.values =~= Seq::<Seq<char>>::empty());
        }
    }

    /// Handles one key event.
    pub fn on_key(&mut self, key: Key)
        requires
            old(self).wf(),
        ensures
            final(self).wf(),
            final(self)@ == after_key(old(self)@, key),
    {
        if self.entering {
            match key {
                Key::Back => self.backspace(),
                Key::Return => self.submit(),
                Key::Char(ch) => self.text_entry(ch),
                Key::Other => {},
            }
        } else {
            if let Key::Return = key {
                self.reset();
            }
        }
    }

    /// The prompt shown while entering, such as
    /// `"Enter point B's X coordinate: -1.5_"`.
    pub fn prompt(&self) -> (r: String)
        requires
            self.wf(),
            self@.entering,
        ensures
            r@ == "Enter "@ + coordinate_name(self@.values.len() as int) + ": "@ + self@.buf + "_"@,
    {
        let mut r = String::from_str("Enter ");
        r.append(coordinate_label(self.values.len()));
        r.append(": ");
        r.append(self.buf.as_str());
        r.append("_");
        r
    }
}

} // verus!
