//! What a window makes of the raw input that it is given: which events the
//! application is told of, and which keys and buttons are held down.
//!
//! The window itself, its event loop and its cursor belong to the windowing
//! system. Here is only what is decided: a key that is pressed while it is held
//! repeats, motion of a grabbed mouse is reported, and motion with a button
//! held is a drag.

use vstd::prelude::*;
use crate::event::{Event, Key, MouseButton};
use crate::math::{Scalar, ZERO};

verus! {

/// What the windowing system reports, as plain values. Positions and
/// distances are single-precision numbers, held as their bits.
#[derive(Clone, Copy, Debug, PartialEq, Eq, Structural)]
pub enum RawInput {
    /// The mouse moved by the given distance, wherever the cursor is.
    MouseMotion(Scalar, Scalar),
    /// The window has the given size now.
    Resized(u32, u32),
    /// The cursor is at the given position now.
    CursorMoved(Scalar, Scalar),
    /// The wheel turned by the given number of lines.
    MouseWheel(Scalar, Scalar),
    MousePressed(MouseButton),
    MouseReleased(MouseButton),
    KeyPressed(Key),
    KeyReleased(Key),
    ReceivedCharacter(char),
}

/// What a window remembers between two inputs.
pub struct WindowContext {
    grabbed: bool,
    held_keys: Vec<Key>,
    held_buttons: Vec<MouseButton>,
    mouse_x: Scalar,
    mouse_y: Scalar,
}

/// What a window remembers, as a value.
pub struct WindowView {
    /// Whether the mouse is grabbed: its cursor is hidden and held in place.
    pub grabbed: bool,
    /// The keys that are held down, in the order in which they went down.
    pub held_keys: Seq<Key>,
    /// The buttons that are held down, in the order in which they went down.
    pub held_buttons: Seq<MouseButton>,
    /// Where the cursor was last seen.
    pub mouse: (Scalar, Scalar),
}

/// The sequence without the given item.
pub open spec fn without<T>(items: Seq<T>, item: T) -> Seq<T>
    decreases items.len(),
{
    if items.len() == 0 {
        Seq::empty()
    } else if items.last() == item {
        without(items.drop_last(), item)
    } else {
        without(items.drop_last(), item).push(items.last())
    }
}

/// The sequence with the given item, added at the end unless it is there.
pub open spec fn with<T>(items: Seq<T>, item: T) -> Seq<T> {
    if items.contains(item) {
        items
    } else {
        items.push(item)
    }
}

/// What is left without an item was there before, and is not the item.
pub proof fn lemma_without_contains<T>(items: Seq<T>, item: T, other: T)
    ensures
        without(items, item).contains(other) <==> items.contains(other) && other != item,
    decreases items.len(),
{
    if items.len() > 0 {
        let front = items.drop_last();
        lemma_without_contains(front, item, other);
        if items.contains(other) {
            let i = choose|i: int| 0 <= i < items.len() && items[i] == other;
            if i < items.len() - 1 {
                assert(front[i] == other);
            }
        }
        if front.contains(other) {
            let i = choose|i: int| 0 <= i < front.len() && front[i] == other;
            assert(items[i] == other);
        }
        if items.last() != item {
            let rest = without(front, item);
            let kept = rest.push(items.last());
            if rest.contains(other) {
                let i = choose|i: int| 0 <= i < rest.len() && rest[i] == other;
                assert(kept[i] == other);
            }
            if kept.contains(other) {
                let i = choose|i: int| 0 <= i < kept.len() && kept[i] == other;
                if i < rest.len() {
                    assert(rest[i] == other);
                }
            }
            assert(kept[rest.len() as int] == items.last());
            assert(items[items.len() - 1] == items.last());
        } else {
            assert(items[items.len() - 1] == items.last());
        }
    }
}

/// Where nothing occurs twice, nothing occurs twice in what is left.
pub proof fn lemma_without_distinct<T>(items: Seq<T>, item: T)
    requires
        items.no_duplicates(),
    ensures
        without(items, item).no_duplicates(),
    decreases items.len(),
{
    if items.len() > 0 {
        let front = items.drop_last();
        assert(front.no_duplicates());
        lemma_without_distinct(front, item);
        if items.last() != item {
            let rest = without(front, item);
            lemma_without_contains(front, item, items.last());
            assert(!front.contains(items.last())) by {
                if front.contains(items.last()) {
                    let i = choose|i: int| 0 <= i < front.len() && front[i] == items.last();
                    assert(items[i] == items[items.len() - 1]);
                }
            }
            let kept = rest.push(items.last());
            assert forall|i: int, j: int| 0 <= i < kept.len() && 0 <= j < kept.len() && i
                != j implies kept[i] != kept[j] by {
                if i < rest.len() && j < rest.len() {
                } else if i < rest.len() {
                    assert(rest.contains(rest[i]));
                } else {
                    assert(rest.contains(rest[j]));
                }
            }
        }
    }
}

/// Where nothing occurs twice, nothing occurs twice once an item is added
/// that was not there.
pub proof fn lemma_with_distinct<T>(items: Seq<T>, item: T)
    requires
        items.no_duplicates(),
    ensures
        with(items, item).no_duplicates(),
{
    if !items.contains(item) {
        let more = items.push(item);
        assert forall|i: int, j: int| 0 <= i < more.len() && 0 <= j < more.len() && i
            != j implies more[i] != more[j] by {
            if i < items.len() && j < items.len() {
            } else if i < items.len() {
                assert(items.contains(items[i]));
            } else {
                assert(items.contains(items[j]));
            }
        }
    }
}

/// One drag for each button that is held, in the order in which they went down.
pub open spec fn drags(buttons: Seq<MouseButton>, dx: Scalar, dy: Scalar) -> Seq<Event> {
    Seq::new(buttons.len(), |i: int| Event::MouseDrag(buttons[i], dx, dy))
}

impl WindowView {
    /// No key and no button is held twice.
    pub open spec fn wf(self) -> bool {
        self.held_keys.no_duplicates() && self.held_buttons.no_duplicates()
    }

    /// No input makes a key or a button be held twice.
    pub proof fn lemma_after_wf(self, input: RawInput)
        requires
            self.wf(),
        ensures
            self.after(input).wf(),
    {
        match input {
            RawInput::MousePressed(button) => lemma_with_distinct(self.held_buttons, button),
            RawInput::MouseReleased(button) => lemma_without_distinct(self.held_buttons, button),
            RawInput::KeyPressed(key) => lemma_with_distinct(self.held_keys, key),
            RawInput::KeyReleased(key) => lemma_without_distinct(self.held_keys, key),
            _ => {},
        }
    }

    /// What the window remembers after the given input.
    pub open spec fn after(self, input: RawInput) -> WindowView {
        match input {
            RawInput::CursorMoved(x, y) => WindowView { mouse: (x, y), ..self },
            RawInput::MousePressed(button) => WindowView {
                held_buttons: with(self.held_buttons, button),
                ..self
            },
            RawInput::MouseReleased(button) => WindowView {
                held_buttons: without(self.held_buttons, button),
                ..self
            },
            RawInput::KeyPressed(key) => WindowView { held_keys: with(self.held_keys, key), ..self },
            RawInput::KeyReleased(key) => WindowView {
                held_keys: without(self.held_keys, key),
                ..self
            },
            _ => self,
        }
    }

    /// What the application is told of the given input.
    pub open spec fn events(self, input: RawInput) -> Seq<Event> {
        match input {
            RawInput::MouseMotion(dx, dy) => (if self.grabbed {
                seq![Event::MouseMotion(dx, dy)]
            } else {
                Seq::empty()
            }) + drags(self.held_buttons, dx, dy),
            RawInput::Resized(width, height) => seq![Event::WindowResize(width, height)],
            RawInput::CursorMoved(x, y) => seq![Event::MouseMove(x, y)],
            RawInput::MouseWheel(x, y) => seq![Event::MouseWheel(x, y)],
            RawInput::MousePressed(button) => seq![
                Event::MouseDown(button, self.mouse.0, self.mouse.1),
            ],
            RawInput::MouseReleased(button) => seq![
                Event::MouseUp(button, self.mouse.0, self.mouse.1),
            ],
            RawInput::KeyPressed(key) => if self.held_keys.contains(key) {
                seq![Event::KeyRepeat(key)]
            } else {
                seq![Event::KeyDown(key)]
            },
            RawInput::KeyReleased(key) => seq![Event::KeyUp(key)],
            RawInput::ReceivedCharacter(ch) => seq![Event::ReceivedCharacter(ch)],
        }
    }
}

/// Whether the key is among the given keys.
fn holds_key(keys: &Vec<Key>, key: Key) -> (b: bool)
    ensures
        b == keys@.contains(key),
{
    let mut i: usize = 0;
    while i < keys.len()
        invariant
            i <= keys@.len(),
            forall|k: int| 0 <= k < i ==> keys@[k] != key,
        decreases keys@.len() - i,
    {
        if keys[i] == key {
            return true;
        }
        i = i + 1;
    }
    false
}

/// Whether the button is among the given buttons.
fn holds_button(buttons: &Vec<MouseButton>, button: MouseButton) -> (b: bool)
    ensures
        b == buttons@.contains(button),
{
    let mut i: usize = 0;
    while i < buttons.len()
        invariant
            i <= buttons@.len(),
            forall|k: int| 0 <= k < i ==> buttons@[k] != button,
        decreases buttons@.len() - i,
    {
        if buttons[i] == button {
            return true;
        }
        i = i + 1;
    }
    false
}

/// The keys with the given one at the end.
fn hold_key(keys: &Vec<Key>, key: Key) -> (more: Vec<Key>)
    ensures
        more@ == keys@.push(key),
{
    let mut more: Vec<Key> = Vec::new();
    let mut i: usize = 0;
    while i < keys.len()
        invariant
            i <= keys@.len(),
            more@ == keys@.take(i as int),
        decreases keys@.len() - i,
    {
        more.push(keys[i]);
        assert(more@ =~= keys@.take(i + 1));
        i = i + 1;
    }
    assert(keys@.take(i as int) =~= keys@);
    more.push(key);
    more
}

/// The buttons with the given one at the end.
fn hold_button(buttons: &Vec<MouseButton>, button: MouseButton) -> (more: Vec<MouseButton>)
    ensures
        more@ == buttons@.push(button),
{
    let mut more: Vec<MouseButton> = Vec::new();
    let mut i: usize = 0;
    while i < buttons.len()
        invariant
            i <= buttons@.len(),
            more@ == buttons@.take(i as int),
        decreases buttons@.len() - i,
    {
        more.push(buttons[i]);
        assert(more@ =~= buttons@.take(i + 1));
        i = i + 1;
    }
    assert(buttons@.take(i as int) =~= buttons@);
    more.push(button);
    more
}

/// The keys without the given one.
fn release_key(keys: &Vec<Key>, key: Key) -> (rest: Vec<Key>)
    ensures
        rest@ == without(keys@, key),
{
    let mut rest: Vec<Key> = Vec::new();
    let mut i: usize = 0;
    while i < keys.len()
        invariant
            i <= keys@.len(),
            rest@ == without(keys@.take(i as int), key),
        decreases keys@.len() - i,
    {
        proof {
            assert(keys@.take(i + 1).drop_last() =~= keys@.take(i as int));
            assert(keys@.take(i + 1).last() == keys@[i as int]);
        }
        if keys[i] != key {
            rest.push(keys[i]);
        }
        i = i + 1;
    }
    assert(keys@.take(i as int) =~= keys@);
    rest
}

/// The buttons without the given one.
fn release_button(buttons: &Vec<MouseButton>, button: MouseButton) -> (rest: Vec<MouseButton>)
    ensures
        rest@ == without(buttons@, button),
{
    let mut rest: Vec<MouseButton> = Vec::new();
    let mut i: usize = 0;
    while i < buttons.len()
        invariant
            i <= buttons@.len(),
            rest@ == without(buttons@.take(i as int), button),
        decreases buttons@.len() - i,
    {
        proof {
            assert(buttons@.take(i + 1).drop_last() =~= buttons@.take(i as int));
            assert(buttons@.take(i + 1).last() == buttons@[i as int]);
        }
        if buttons[i] != button {
            rest.push(buttons[i]);
        }
        i = i + 1;
    }
    assert(buttons@.take(i as int) =~= buttons@);
    rest
}

impl View for WindowContext {
    type V = WindowView;

    closed spec fn view(&self) -> WindowView {
        WindowView {
            grabbed: self.grabbed,
            held_keys: self.held_keys@,
            held_buttons: self.held_buttons@,
            mouse: (self.mouse_x, self.mouse_y),
        }
    }
}

impl WindowContext {
    /// No key and no button is held twice.
    #[verifier::type_invariant]
    pub closed spec fn inv(self) -> bool {
        self.held_keys@.no_duplicates() && self.held_buttons@.no_duplicates()
    }

    /// Nothing is held, the mouse is free, and the cursor was last seen at
    /// the origin.
    pub fn new() -> (ctx: Self)
        ensures
            !ctx@.grabbed,
            ctx@.held_keys == Seq::<Key>::empty(),
            ctx@.held_buttons == Seq::<MouseButton>::empty(),
            ctx@.mouse == (ZERO, ZERO),
    {
        WindowContext {
            grabbed: false,
            held_keys: Vec::new(),
            held_buttons: Vec::new(),
            mouse_x: ZERO,
            mouse_y: ZERO,
        }
    }

    /// Takes note that the mouse is grabbed.
    pub fn grab_mouse(&mut self)
        ensures
            final(self)@ == (WindowView { grabbed: true, ..old(self)@ }),
    {
        proof {
            use_type_invariant(&*self);
        }
        self.grabbed = true;
    }

    /// Takes note that the mouse is free.
    pub fn release_mouse(&mut self)
        ensures
            final(self)@ == (WindowView { grabbed: false, ..old(self)@ }),
    {
        proof {
            use_type_invariant(&*self);
        }
        self.grabbed = false;
    }

    /// Whether the mouse is grabbed.
    pub fn is_grabbed(&self) -> (b: bool)
        ensures
            b == self@.grabbed,
    {
        self.grabbed
    }

    /// The keys that are held down, each once.
    pub fn held_keys(&self) -> (keys: &Vec<Key>)
        ensures
            keys@ == self@.held_keys,
            self@.wf(),
    {
        proof {
            use_type_invariant(self);
        }
        &self.held_keys
    }

    /// The buttons that are held down, each once.
    pub fn held_buttons(&self) -> (buttons: &Vec<MouseButton>)
        ensures
            buttons@ == self@.held_buttons,
            self@.wf(),
    {
        proof {
            use_type_invariant(self);
        }
        &self.held_buttons
    }

    /// Takes one input and says what the application is told of it.
    pub fn handle(&mut self, input: RawInput) -> (events: Vec<Event>)
        ensures
            final(self)@ == old(self)@.after(input),
            events@ == old(self)@.events(input),
    {
        proof {
            use_type_invariant(&*self);
            old(self)@.lemma_after_wf(input);
        }
        let mut events: Vec<Event> = Vec::new();
        match input {
            RawInput::MouseMotion(dx, dy) => {
                if self.grabbed {
                    events.push(Event::MouseMotion(dx, dy));
                }
                let ghost first = events@;
                let mut i: usize = 0;
                while i < self.held_buttons.len()
                    invariant
                        i <= self.held_buttons@.len(),
                        self.held_buttons@ == old(self)@.held_buttons,
                        self@ == old(self)@,
                        events@ == first + drags(self.held_buttons@, dx, dy).take(i as int),
                    decreases self.held_buttons@.len() - i,
                {
                    events.push(Event::MouseDrag(self.held_buttons[i], dx, dy));
                    assert(events@ =~= first + drags(self.held_buttons@, dx, dy).take(i + 1));
                    i = i + 1;
                }
                assert(drags(self.held_buttons@, dx, dy).take(i as int) =~= drags(
                    self.held_buttons@,
                    dx,
                    dy,
                ));
            },
            RawInput::Resized(width, height) => {
                events.push(Event::WindowResize(width, height));
                assert(events@ =~= old(self)@.events(input));
            },
            RawInput::CursorMoved(x, y) => {
                self.mouse_x = x;
                self.mouse_y = y;
                events.push(Event::MouseMove(x, y));
                assert(events@ =~= old(self)@.events(input));
            },
            RawInput::MouseWheel(x, y) => {
                events.push(Event::MouseWheel(x, y));
                assert(events@ =~= old(self)@.events(input));
            },
            RawInput::MousePressed(button) => {
                if !holds_button(&self.held_buttons, button) {
                    self.held_buttons = hold_button(&self.held_buttons, button);
                }
                events.push(Event::MouseDown(button, self.mouse_x, self.mouse_y));
                assert(events@ =~= old(self)@.events(input));
            },
            RawInput::MouseReleased(button) => {
                self.held_buttons = release_button(&self.held_buttons, button);
                events.push(Event::MouseUp(button, self.mouse_x, self.mouse_y));
                assert(events@ =~= old(self)@.events(input));
            },
            RawInput::KeyPressed(key) => {
                if holds_key(&self.held_keys, key) {
                    events.push(Event::KeyRepeat(key));
                } else {
                    self.held_keys = hold_key(&self.held_keys, key);
                    events.push(Event::KeyDown(key));
                }
                assert(events@ =~= old(self)@.events(input));
            },
            RawInput::KeyReleased(key) => {
                self.held_keys = release_key(&self.held_keys, key);
                events.push(Event::KeyUp(key));
                assert(events@ =~= old(self)@.events(input));
            },
            RawInput::ReceivedCharacter(ch) => {
                events.push(Event::ReceivedCharacter(ch));
                assert(events@ =~= old(self)@.events(input));
            },
        }
        events
    }
}

} // verus!
