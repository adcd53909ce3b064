//! The desktop platform: a window of the logical resolution and a keyboard.

use crate::display::color::{expand_565, rgb565_to_u32};
use crate::display::surface::RenderBuffer;
use crate::platform::Action;
use crate::{DISPLAY_HEIGHT, DISPLAY_WIDTH};
use vstd::prelude::*;

verus! {

/// A key of the keyboard, as far as the pager cares.
#[derive(Debug, Clone, Copy, PartialEq, Eq, Structural)]
pub enum Key {
    Up,
    Down,
    Enter,
    Escape,
    /// Any other key.
    Other,
}

/// The action that a key stands for, if any.
pub open spec fn key_action(key: Key) -> Option<Action> {
    match key {
        Key::Up => Some(Action::Up),
        Key::Down => Some(Action::Down),
        Key::Enter => Some(Action::Select),
        Key::Escape => Some(Action::Back),
        Key::Other => None,
    }
}

/// The action of the first key of `keys` that stands for one.
pub open spec fn first_action(keys: Seq<Key>) -> Option<Action>
    decreases keys.len(),
{
    if keys.len() == 0 {
        None
    } else if key_action(keys[0]).is_some() {
        key_action(keys[0])
    } else {
        first_action(keys.subrange(1, keys.len() as int))
    }
}

/// The frame shown in the desktop window: one packed `0x00RRGGBB` pixel for
/// each position of the logical display.
pub struct DesktopPlatform {
    buffer: Vec<u32>,
}

impl View for DesktopPlatform {
    type V = Seq<u32>;

    closed spec fn view(&self) -> Seq<u32> {
        self.buffer@
    }
}

impl DesktopPlatform {
    #[verifier::type_invariant]
    spec fn complete(self) -> bool {
        self.buffer@.len() == DISPLAY_WIDTH * DISPLAY_HEIGHT
    }

    /// A black frame.
    pub fn new() -> (platform: DesktopPlatform)
        ensures
            platform@ == Seq::new((DISPLAY_WIDTH * DISPLAY_HEIGHT) as nat, |i: int| 0u32),
    {
        let count: usize = (DISPLAY_WIDTH as usize) * (DISPLAY_HEIGHT as usize);
        let buffer: Vec<u32> = vec![0u32; count];
        assert(buffer@ =~= Seq::new((DISPLAY_WIDTH * DISPLAY_HEIGHT) as nat, |i: int| 0u32));
        DesktopPlatform { buffer }
    }

    /// The action of the first of the keys held down that stands for one.
    pub fn poll(&self, keys: &[Key]) -> (action: Option<Action>)
        ensures
            action == first_action(keys@),
    {
        let mut i: usize = 0;
        assert(keys@.subrange(0, keys@.len() as int) =~= keys@);
        while i < keys.len()
            invariant
                i <= keys.len(),
                first_action(keys@) == first_action(keys@.subrange(i as int, keys@.len() as int)),
            decreases keys.len() - i,
        {
            proof {
                let rest = keys@.subrange(i as int, keys@.len() as int);
                assert(rest[0] == keys@[i as int]);
                assert(rest.subrange(1, rest.len() as int) =~= keys@.subrange(
                    i + 1,
                    keys@.len() as int,
                ));
            }
            match keys[i] {
                Key::Up => {
                    return Some(Action::Up);
                },
                Key::Down => {
                    return Some(Action::Down);
                },
                Key::Enter => {
                    return Some(Action::Select);
                },
                Key::Escape => {
                    return Some(Action::Back);
                },
                Key::Other => {},
            }
            i += 1;
        }
        None
    }

    /// Widens the surface into the frame, pixel by pixel in storage order.
    /// The surface must not hold more pixels than the frame.
    pub fn draw(&mut self, render: &RenderBuffer)
        requires
            render.pixels@.len() <= DISPLAY_WIDTH * DISPLAY_HEIGHT,
        ensures
            final(self)@.len() == old(self)@.len(),
            forall|i: int|
                0 <= i < render.pixels@.len() ==> #[trigger] final(self)@[i] == expand_565(
                    render.pixels@[i],
                ),
            forall|i: int|
                render.pixels@.len() <= i < old(self)@.len() ==> #[trigger] final(self)@[i] == old(self)@[i],
    {
        proof {
            use_type_invariant(&*self);
        }
        let count: usize = render.pixels.len();
        let mut i: usize = 0;
        while i < count
            invariant
                i <= count,
                count == render.pixels@.len(),
                count <= self.buffer@.len(),
                self.buffer@.len() == DISPLAY_WIDTH * DISPLAY_HEIGHT,
                self.buffer@.len() == old(self).buffer@.len(),
                forall|j: int| 0 <= j < i ==> #[trigger] self.buffer@[j] == expand_565(render.pixels@[j]),
                forall|j: int| i <= j < self.buffer@.len() ==> #[trigger] self.buffer@[j] == old(self).buffer@[j],
            decreases count - i,
        {
            self.buffer[i] = rgb565_to_u32(render.pixels[i]);
            i += 1;
        }
    }

    /// The frame to hand to the window, row by row.
    pub fn buffer(&self) -> (pixels: &[u32])
        ensures
            pixels@ == self@,
            pixels@.len() == DISPLAY_WIDTH * DISPLAY_HEIGHT,
    {
        proof {
            use_type_invariant(self);
        }
        self.buffer.as_slice()
    }
}

} // verus!
