//! The display buffer: a bounded message that scrolls by dropping its oldest
//! character, and the fixed-width window of it that the display shows.
use vstd::prelude::*;
use vstd::string::StrSliceExecFns;

verus! {

/// Capacity, in characters, of the message store; the message itself keeps
/// one character less.
pub const MAX_MESSAGE_LENGTH: usize = 128;

/// Characters per display line.
pub const LCD_CHAR_WIDTH: usize = 16;

#[verifier::external_type_specification]
#[verifier::external_body]
pub struct ExHeaplessString<const N: usize>(heapless::String<N>);

/// The characters that a message store holds.
pub uninterp spec fn message_chars(s: heapless::String<MAX_MESSAGE_LENGTH>) -> Seq<char>;

/// Every character is ASCII, so takes one byte of the store.
pub open spec fn all_ascii(s: Seq<char>) -> bool {
    forall|i: int| 0 <= i < s.len() ==> (#[trigger] s[i] as u32) < 128
}

/// Relies on heapless::String::new: a new store is empty.
#[verifier::external_body]
fn store_new() -> (r: heapless::String<MAX_MESSAGE_LENGTH>)
    ensures
        message_chars(r) == Seq::<char>::empty(),
{
    heapless::String::new()
}

/// Relies on heapless::String::push: an ASCII character takes one byte; it is
/// appended when a byte of the capacity is free, and otherwise the store is
/// left as it was and `Err` comes back.
#[verifier::external_body]
fn store_push(s: &mut heapless::String<MAX_MESSAGE_LENGTH>, c: char) -> (r: Result<(), ()>)
    requires
        (c as u32) < 128,
        all_ascii(message_chars(*old(s))),
    ensures
        message_chars(*old(s)).len() < MAX_MESSAGE_LENGTH ==> r is Ok && message_chars(*final(s))
            == message_chars(*old(s)).push(c),
        message_chars(*old(s)).len() >= MAX_MESSAGE_LENGTH ==> r is Err && message_chars(*final(s))
            == message_chars(*old(s)),
{
    s.push(c)
}

/// Relies on heapless::String::remove at byte index 0: the first character is
/// taken out and returned (it panics only on an empty store).
#[verifier::external_body]
fn store_remove_first(s: &mut heapless::String<MAX_MESSAGE_LENGTH>) -> (r: char)
    requires
        message_chars(*old(s)).len() > 0,
    ensures
        r == message_chars(*old(s))[0],
        message_chars(*final(s)) == message_chars(*old(s)).drop_first(),
{
    s.remove(0)
}

/// Relies on heapless::String::clear: the store becomes empty.
#[verifier::external_body]
fn store_clear(s: &mut heapless::String<MAX_MESSAGE_LENGTH>)
    ensures
        message_chars(*final(s)) == Seq::<char>::empty(),
{
    s.clear()
}

/// Relies on heapless::String::as_str: the store's text as a string slice.
#[verifier::external_body]
fn store_str(s: &heapless::String<MAX_MESSAGE_LENGTH>) -> (r: &str)
    ensures
        r@ == message_chars(*s),
{
    s.as_str()
}

/// The message after `c` is appended: when it already holds
/// `MAX_MESSAGE_LENGTH - 1` characters, the oldest one is dropped first.
pub open spec fn scrolled(msg: Seq<char>, c: char) -> Seq<char> {
    if msg.len() >= MAX_MESSAGE_LENGTH - 1 {
        msg.drop_first().push(c)
    } else {
        msg.push(c)
    }
}

/// The message after each character of `cs` is appended in turn.
pub open spec fn scrolled_all(msg: Seq<char>, cs: Seq<char>) -> Seq<char>
    decreases cs.len(),
{
    if cs.len() == 0 {
        msg
    } else {
        scrolled(scrolled_all(msg, cs.drop_last()), cs.last())
    }
}

/// The last `width` characters of `msg`, or all of it when it is shorter.
pub open spec fn tail(msg: Seq<char>, width: int) -> Seq<char> {
    if msg.len() > width {
        msg.subrange(msg.len() - width, msg.len() as int)
    } else {
        msg
    }
}

/// The scrolling message of the receiver.
pub struct DisplayBuffer {
    text: heapless::String<MAX_MESSAGE_LENGTH>,
    message_index: usize,
    width: usize,
}

impl View for DisplayBuffer {
    type V = Seq<char>;

    closed spec fn view(&self) -> Seq<char> {
        message_chars(self.text)
    }
}

impl DisplayBuffer {
    /// The count of characters is kept, the message fits its bound and is ASCII.
    pub closed spec fn wf(&self) -> bool {
        &&& self.message_index == message_chars(self.text).len()
        &&& message_chars(self.text).len() <= MAX_MESSAGE_LENGTH - 1
        &&& all_ascii(message_chars(self.text))
    }

    /// Characters shown by the window.
    pub closed spec fn width_spec(&self) -> nat {
        self.width as nat
    }

    /// An empty message shown through a window `width` characters wide.
    pub fn new(width: usize) -> (r: DisplayBuffer)
        ensures
            r.wf(),
            r@ == Seq::<char>::empty(),
            r@.len() <= MAX_MESSAGE_LENGTH - 1,
            r.width_spec() == width,
    {
        DisplayBuffer { text: store_new(), message_index: 0, width }
    }

    /// Appends `letter`, first dropping the oldest character when the message
    /// already holds `MAX_MESSAGE_LENGTH - 1`.
    pub fn append(&mut self, letter: char)
        requires
            old(self).wf(),
            (letter as u32) < 128,
        ensures
            final(self).wf(),
            final(self)@ == scrolled(old(self)@, letter),
            final(self)@.len() <= MAX_MESSAGE_LENGTH - 1,
            final(self).width_spec() == old(self).width_spec(),
    {
        if self.message_index >= MAX_MESSAGE_LENGTH - 1 {
            let _ = store_remove_first(&mut self.text);
            self.message_index = MAX_MESSAGE_LENGTH - 2;
            proof {
                let m = message_chars(self.text);
                assert forall|i: int| 0 <= i < m.len() implies (#[trigger] m[i] as u32) < 128 by {
                    assert(m[i] == message_chars(old(self).text)[i + 1]);
                }
            }
        }
        let _ = store_push(&mut self.text, letter);
        self.message_index = self.message_index + 1;
        proof {
            let m = message_chars(self.text);
            assert forall|i: int| 0 <= i < m.len() implies (#[trigger] m[i] as u32) < 128 by {
                if i < m.len() - 1 {
                    assert(m[i] == m.drop_last()[i]);
                }
            }
        }
    }

    /// Shows a decoded character: a space or a letter `A` to `Z` is appended and
    /// `true` returned; anything else is refused with `false`.
    pub fn display_letter(&mut self, letter: char) -> (r: bool)
        requires
            old(self).wf(),
        ensures
            final(self).wf(),
            r == (letter == ' ' || ('A' <= letter && letter <= 'Z')),
            r ==> final(self)@ == scrolled(old(self)@, letter),
            !r ==> final(self)@ == old(self)@,
            final(self)@.len() <= MAX_MESSAGE_LENGTH - 1,
            final(self).width_spec() == old(self).width_spec(),
    {
        if letter == ' ' || ('A' <= letter && letter <= 'Z') {
            self.append(letter);
            true
        } else {
            false
        }
    }

    /// Empties the message.
    pub fn clear(&mut self)
        ensures
            final(self).wf(),
            final(self)@ == Seq::<char>::empty(),
            final(self)@.len() <= MAX_MESSAGE_LENGTH - 1,
            final(self).width_spec() == old(self).width_spec(),
    {
        store_clear(&mut self.text);
        self.message_index = 0;
    }

    /// How many characters the message holds.
    pub fn len(&self) -> (r: usize)
        requires
            self.wf(),
        ensures
            r == self@.len(),
            r <= MAX_MESSAGE_LENGTH - 1,
    {
        self.message_index
    }

    /// The whole message.
    pub fn message(&self) -> (r: &str)
        ensures
            r@ == self@,
    {
        store_str(&self.text)
    }

    /// What the display shows: the most recent characters, as many as the
    /// window is wide.
    pub fn window(&self) -> (r: &str)
        requires
            self.wf(),
        ensures
            r@ == tail(self@, self.width_spec() as int),
    {
        let s = store_str(&self.text);
        let n = self.message_index;
        let start = if n > self.width {
            n - self.width
        } else {
            0
        };
        s.substring_char(start, n)
    }
}

/// Appending characters one by one to a message within its bound leaves the
/// most recent `MAX_MESSAGE_LENGTH - 1` characters of everything appended, in
/// order; so after `MAX_MESSAGE_LENGTH + 5` appends it holds exactly
/// `MAX_MESSAGE_LENGTH - 1`.
pub proof fn lemma_scrolling_keeps_latest(msg: Seq<char>, cs: Seq<char>)
    requires
        msg.len() <= MAX_MESSAGE_LENGTH - 1,
    ensures
        scrolled_all(msg, cs) == tail(msg + cs, MAX_MESSAGE_LENGTH - 1),
        scrolled_all(msg, cs).len() == if msg.len() + cs.len() > MAX_MESSAGE_LENGTH - 1 {
            (MAX_MESSAGE_LENGTH - 1) as int
        } else {
            (msg.len() + cs.len()) as int
        },
    decreases cs.len(),
{
    let cap = MAX_MESSAGE_LENGTH - 1;
    if cs.len() == 0 {
        assert(msg + cs =~= msg);
    } else {
        let prev = cs.drop_last();
        lemma_scrolling_keeps_latest(msg, prev);
        let all = msg + cs;
        let before = msg + prev;
        assert(all =~= before.push(cs.last()));
        let t = tail(before, cap as int);
        if before.len() >= cap {
            assert(tail(all, cap as int) =~= t.drop_first().push(cs.last()));
        } else {
            assert(tail(all, cap as int) =~= t.push(cs.last()));
        }
    }
}

} // verus!
