//! Key-press events as the state machine reads them, and the search input
//! buffer they edit.
use vstd::prelude::*;

verus! {

broadcast use vstd::std_specs::vec::group_vec_axioms;

/// A key press, reduced to what the application logic distinguishes.
#[derive(Clone, Copy, PartialEq, Eq, Structural, Debug)]
pub enum KeyInput {
    Up,
    Down,
    Left,
    Right,
    Enter,
    Backspace,
    Char(char),
    Other,
}

/// Relies on std's String::push: appends the given character to the end of
/// the string.
pub assume_specification[ String::push ](s: &mut String, ch: char)
    ensures
        final(s)@ == old(s)@.push(ch),
;

/// Mathematical model of the search input buffer: the accumulated text and
/// the cursor position within it.
#[verifier::ext_equal]
pub ghost struct SearchView {
    pub chars: Seq<char>,
    pub cursor: int,
}

/// The cursor always sits between zero and the text length, inclusive.
pub open spec fn search_wf(s: SearchView) -> bool {
    0 <= s.cursor <= s.chars.len()
}

/// One editing step: printable characters insert at the cursor, backspace
/// deletes before it, the horizontal arrows move it; every other key leaves
/// the buffer unchanged.
pub open spec fn search_step(s: SearchView, key: KeyInput) -> SearchView {
    match key {
        KeyInput::Char(c) => SearchView {
            chars: s.chars.insert(s.cursor, c),
            cursor: s.cursor + 1,
        },
        KeyInput::Backspace => if s.cursor > 0 {
            SearchView { chars: s.chars.remove(s.cursor - 1), cursor: s.cursor - 1 }
        } else {
            s
        },
        KeyInput::Left => if s.cursor > 0 {
            SearchView { chars: s.chars, cursor: s.cursor - 1 }
        } else {
            s
        },
        KeyInput::Right => if s.cursor < s.chars.len() {
            SearchView { chars: s.chars, cursor: s.cursor + 1 }
        } else {
            s
        },
        _ => s,
    }
}

/// The search input buffer: accumulated text plus cursor position. The text
/// is deliberately carried over between searches.
pub struct SearchBuffer {
    pub chars: Vec<char>,
    pub cursor: usize,
}

impl View for SearchBuffer {
    type V = SearchView;

    open spec fn view(&self) -> SearchView {
        SearchView { chars: self.chars@, cursor: self.cursor as int }
    }
}

impl SearchBuffer {
    /// An empty buffer with the cursor at the start.
    pub fn new() -> (b: SearchBuffer)
        ensures
            b@.chars.len() == 0,
            b@.cursor == 0,
            search_wf(b@),
    {
        SearchBuffer { chars: Vec::new(), cursor: 0 }
    }

    /// Applies one key to the buffer; see `search_step`.
    pub fn handle_key(&mut self, key: KeyInput)
        requires
            search_wf(old(self)@),
        ensures
            search_wf(final(self)@),
            final(self)@ == search_step(old(self)@, key),
    {
        match key {
            KeyInput::Char(c) => {
                self.chars.insert(self.cursor, c);
                let n = self.chars.len();
                self.cursor = self.cursor + 1;
                proof {
                    assert(self.cursor <= n);
                }
            },
            KeyInput::Backspace => {
                if self.cursor > 0 {
                    self.chars.remove(self.cursor - 1);
                    self.cursor = self.cursor - 1;
                }
            },
            KeyInput::Left => {
                if self.cursor > 0 {
                    self.cursor = self.cursor - 1;
                }
            },
            KeyInput::Right => {
                if self.cursor < self.chars.len() {
                    self.cursor = self.cursor + 1;
                }
            },
            _ => {},
        }
        proof {
            assert(self@ =~= search_step(old(self)@, key));
        }
    }

    /// Whether the buffer holds no text.
    pub fn is_empty(&self) -> (r: bool)
        ensures
            r == (self@.chars.len() == 0),
    {
        self.chars.len() == 0
    }

    /// The accumulated text as a string.
    pub fn value(&self) -> (r: String)
        ensures
            r@ == self@.chars,
    {
        let mut out = String::new();
        let len = self.chars.len();
        let mut i: usize = 0;
        while i < len
            invariant
                i <= len,
                len == self.chars@.len(),
                out@ == self.chars@.take(i as int),
            decreases len - i,
        {
            out.push(self.chars[i]);
            proof {
                assert(self.chars@.take(i + 1 as int) =~= self.chars@.take(i as int).push(
                    self.chars@[i as int],
                ));
            }
            i = i + 1;
        }
        proof {
            assert(self.chars@.take(len as int) =~= self.chars@);
        }
        out
    }
}

} // verus!
