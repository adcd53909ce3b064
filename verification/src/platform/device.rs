//! The handheld device: a panel mounted a quarter turn from the logical
//! orientation, and a stream of button records.

use crate::display::blit::ROTATE_CW;
use crate::display::color::{encode_u16, first_byte, second_byte, ByteOrder, Rgb565};
use crate::display::surface::{lemma_index_in_range, lemma_index_injective, RenderBuffer};
use crate::input::{button_of, decode_event, event_of, is_key_press, Button, BTN_BACK, BTN_FORWARD,
    EV_KEY, INPUT_EVENT_SIZE, KEY_DOWN, KEY_POWER, KEY_PRESSED, KEY_UP};
use crate::platform::Action;
use vstd::prelude::*;

verus! {

/// Framebuffer device that is opened when none is named.
pub const DEFAULT_FB_DEVICE: &'static str = "/dev/fb0";

/// The action that a key code of the device stands for, if any. The back
/// button and the power button both go back.
pub open spec fn action_of(code: u16) -> Option<Action> {
    if code == KEY_UP {
        Some(Action::Up)
    } else if code == KEY_DOWN {
        Some(Action::Down)
    } else if code == BTN_FORWARD {
        Some(Action::Select)
    } else if code == BTN_BACK || code == KEY_POWER {
        Some(Action::Back)
    } else {
        None
    }
}

/// The action that a button of the device stands for, if any. The two
/// buttons that point sideways stand for none.
pub open spec fn button_action(button: Button) -> Option<Action> {
    match button {
        Button::Up => Some(Action::Up),
        Button::Down => Some(Action::Down),
        Button::Forward => Some(Action::Select),
        Button::Back => Some(Action::Back),
        Button::Power => Some(Action::Back),
        Button::Left => None,
        Button::Right => None,
    }
}

/// The action of a key code is the action of the button that the code
/// names: the two decoders of the device agree.
pub proof fn lemma_action_of_button(code: u16)
    ensures
        action_of(code) == match button_of(code) {
            Some(button) => button_action(button),
            None => None,
        },
{
}

/// The action asked for by what was read, if what was read is a whole record
/// of a known button going down.
pub open spec fn pressed_action(record: Seq<u8>, order: ByteOrder) -> Option<Action> {
    if is_key_press(record, order) {
        action_of(event_of(record, order).code)
    } else {
        None
    }
}

/// What the device shows: the panel's size and its pixels, row by row.
pub struct DeviceModel {
    pub width: int,
    pub height: int,
    pub pixels: Seq<Rgb565>,
    pub byte_order: ByteOrder,
}

impl DeviceModel {
    /// Whether `(x, y)` is a pixel of the panel.
    pub open spec fn contains(self, x: int, y: int) -> bool {
        0 <= x < self.width && 0 <= y < self.height
    }

    /// The pixel at `(x, y)`.
    pub open spec fn pixel(self, x: int, y: int) -> Rgb565 {
        self.pixels[y * self.width + x]
    }

    /// The bytes that go to the panel: each pixel in turn, two bytes in the
    /// device's byte order.
    pub open spec fn frame(self) -> Seq<u8> {
        Seq::new(
            2 * self.pixels.len(),
            |i: int|
                if i % 2 == 0 {
                    first_byte(self.pixels[i / 2], self.byte_order)
                } else {
                    second_byte(self.pixels[i / 2], self.byte_order)
                },
        )
    }
}

/// The frame of the device's panel and the decoder of its buttons.
pub struct DevicePlatform {
    fb_width: u32,
    fb_height: u32,
    fb_buffer: Vec<Rgb565>,
    byte_order: ByteOrder,
}

impl View for DevicePlatform {
    type V = DeviceModel;

    closed spec fn view(&self) -> DeviceModel {
        DeviceModel {
            width: self.fb_width as int,
            height: self.fb_height as int,
            pixels: self.fb_buffer@,
            byte_order: self.byte_order,
        }
    }
}

impl DevicePlatform {
    #[verifier::type_invariant]
    spec fn complete(self) -> bool {
        self.fb_buffer@.len() == self.fb_width * self.fb_height
    }

    /// A black frame for a panel of the given size, on a machine of the
    /// given byte order.
    pub fn new(fb_width: u32, fb_height: u32, byte_order: ByteOrder) -> (platform: DevicePlatform)
        requires
            fb_width * fb_height <= u32::MAX,
        ensures
            platform@.width == fb_width,
            platform@.height == fb_height,
            platform@.byte_order == byte_order,
            platform@.pixels == Seq::new((fb_width * fb_height) as nat, |i: int| 0u16),
    {
        assert(fb_width * fb_height == (fb_width as usize) * (fb_height as usize));
        let count: usize = (fb_width as usize) * (fb_height as usize);
        let fb_buffer: Vec<Rgb565> = vec![0u16; count];
        assert(fb_buffer@ =~= Seq::new((fb_width * fb_height) as nat, |i: int| 0u16));
        DevicePlatform { fb_width, fb_height, fb_buffer, byte_order }
    }

    /// The device has no window to close: it is always open.
    pub fn is_open(&self) -> (open: bool)
        ensures
            open,
    {
        true
    }

    /// The action asked for by the bytes just read, if they are one whole
    /// record of a known button going down. Anything else is dropped.
    pub fn poll(&self, record: &[u8]) -> (action: Option<Action>)
        ensures
            action == pressed_action(record@, self@.byte_order),
    {
        if record.len() != INPUT_EVENT_SIZE {
            return None;
        }
        let event = decode_event(record, self.byte_order);
        if event.type_ == EV_KEY && event.value == KEY_PRESSED {
            if event.code == KEY_UP {
                Some(Action::Up)
            } else if event.code == KEY_DOWN {
                Some(Action::Down)
            } else if event.code == BTN_FORWARD {
                Some(Action::Select)
            } else if event.code == BTN_BACK || event.code == KEY_POWER {
                Some(Action::Back)
            } else {
                None
            }
        } else {
            None
        }
    }

    /// Copies the surface onto the panel, turned a quarter turn clockwise
    /// and scaled to the panel's size. An empty surface leaves the frame as
    /// it is.
    pub fn draw(&mut self, render: &RenderBuffer)
        requires
            render.wf(),
        ensures
            final(self)@.width == old(self)@.width,
            final(self)@.height == old(self)@.height,
            final(self)@.byte_order == old(self)@.byte_order,
            final(self)@.pixels.len() == old(self)@.pixels.len(),
            !render.copies(ROTATE_CW) ==> final(self)@.pixels == old(self)@.pixels,
            forall|px: int, py: int|
                render.copies(ROTATE_CW) && old(self)@.contains(px, py) ==> #[trigger] final(self)@.pixel(px, py) == render.source_pixel(
                    ROTATE_CW,
                    old(self)@.width,
                    old(self)@.height,
                    px,
                    py,
                ),
    {
        proof {
            use_type_invariant(&*self);
        }
        if render.width == 0 || render.height == 0 {
            return ;
        }
        let p: u32 = self.fb_width;
        let q: u32 = self.fb_height;
        let count: usize = self.fb_buffer.len();
        let mut py: u32 = 0;
        while py < q
            invariant
                py <= q,
                render.wf(),
                render.copies(ROTATE_CW),
                self.fb_width == p,
                self.fb_height == q,
                self.byte_order == old(self).byte_order,
                self.fb_buffer@.len() == count,
                count == p * q,
                forall|x: int, y: int|
                    0 <= x < p && 0 <= y < py ==> #[trigger] self.fb_buffer@[y * p + x]
                        == render.source_pixel(ROTATE_CW, p as int, q as int, x, y),
            decreases q - py,
        {
            let mut px: u32 = 0;
            while px < p
                invariant
                    px <= p,
                    py < q,
                    render.wf(),
                    render.copies(ROTATE_CW),
                    self.fb_width == p,
                    self.fb_height == q,
                    self.byte_order == old(self).byte_order,
                    self.fb_buffer@.len() == count,
                    count == p * q,
                    forall|x: int, y: int|
                        0 <= x < p && 0 <= y < py ==> #[trigger] self.fb_buffer@[y * p + x]
                            == render.source_pixel(ROTATE_CW, p as int, q as int, x, y),
                    forall|x: int|
                        0 <= x < px ==> #[trigger] self.fb_buffer@[py * p + x]
                            == render.source_pixel(ROTATE_CW, p as int, q as int, x, py as int),
                decreases p - px,
            {
                let color = render.sample(ROTATE_CW, p, q, px, py);
                let row: usize = py as usize;
                let stride: usize = p as usize;
                let ghost prior = self.fb_buffer@;
                proof {
                    lemma_index_in_range(px as int, py as int, p as int, q as int);
                    assert(row * stride == py * p) by (nonlinear_arith)
                        requires
                            row == py,
                            stride == p,
                    ;
                    assert(row * stride + px < count);
                }
                self.fb_buffer[row * stride + (px as usize)] = color;
                proof {
                    assert forall|x: int, y: int| 0 <= x < p && 0 <= y < py implies (
                    #[trigger] self.fb_buffer@[y * p + x]) == render.source_pixel(
                        ROTATE_CW,
                        p as int,
                        q as int,
                        x,
                        y,
                    ) by {
                        lemma_index_in_range(x, y, p as int, q as int);
                        if y * p + x == py * p + px {
                            lemma_index_injective(x, y, px as int, py as int, p as int);
                        }
                        assert(prior[y * p + x] == render.source_pixel(
                            ROTATE_CW,
                            p as int,
                            q as int,
                            x,
                            y,
                        ));
                    }
                    assert forall|x: int| 0 <= x < px + 1 implies (#[trigger] self.fb_buffer@[py
                        * p + x]) == render.source_pixel(
                        ROTATE_CW,
                        p as int,
                        q as int,
                        x,
                        py as int,
                    ) by {
                        if x < px {
                            assert(prior[py * p + x] == render.source_pixel(
                                ROTATE_CW,
                                p as int,
                                q as int,
                                x,
                                py as int,
                            ));
                        }
                    }
                }
                px += 1;
            }
            py += 1;
        }
    }

    /// The frame as the bytes to write to the panel.
    pub fn frame_bytes(&self) -> (bytes: Vec<u8>)
        ensures
            bytes@ == self@.frame(),
    {
        let count: usize = self.fb_buffer.len();
        let mut bytes: Vec<u8> = Vec::new();
        let mut i: usize = 0;
        while i < count
            invariant
                i <= count,
                count == self.fb_buffer@.len(),
                bytes@.len() == 2 * i,
                forall|j: int|
                    0 <= j < 2 * i ==> #[trigger] bytes@[j] == (if j % 2 == 0 {
                        first_byte(self.fb_buffer@[j / 2], self.byte_order)
                    } else {
                        second_byte(self.fb_buffer@[j / 2], self.byte_order)
                    }),
            decreases count - i,
        {
            let pair = encode_u16(self.fb_buffer[i], self.byte_order);
            bytes.push(pair.0);
            bytes.push(pair.1);
            i += 1;
        }
        assert(bytes@ =~= self@.frame());
        bytes
    }
}

} // verus!
