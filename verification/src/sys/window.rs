//! The decisions of a window's message handler: which event each platform
//! message becomes, and how a window title is encoded for the platform.
use super::input::{ButtonState, Event as InputEvent, MouseButton};
use crate::px::{fits_i16, Px};
use crate::shapes::{Extent, Point};
use vstd::prelude::*;

verus! {

/// The maximum number of UTF-16 units of a window title, including the
/// terminating zero that C requires.
pub const MAX_TITLE_LENGTH: usize = 256;

/// An event that a window reports to its handler.
#[derive(Debug, Clone, Copy, PartialEq, Eq, Structural)]
pub enum Event {
    Created { size: Extent },
    Destroyed {},
    CloseRequested {},
    Resized { size: Extent },
    Update {},
    Input(InputEvent),
}

/// What the handler wants the event loop to do next.
#[derive(Debug, Clone, Copy, PartialEq, Eq, Structural)]
pub enum EventLoopControl {
    Continue,
    Stop,
}

/// The per-window state that message handling keeps: a pending UTF-16 high
/// surrogate and the window's smallest allowed size.
#[derive(Debug, Clone, Copy, PartialEq, Eq, Structural)]
pub struct WindowState {
    pub high_surrogate: u16,
    pub min_size: Extent,
}

impl WindowState {
    /// The state of a new window: no surrogate pending, no minimum size.
    pub fn new() -> (r: Self)
        ensures
            r.high_surrogate == 0,
            r.min_size == (Extent { width: Px(0), height: Px(0) }),
    {
        WindowState { high_surrogate: 0, min_size: Extent::new(Px(0), Px(0)) }
    }

    pub fn min_size(&self) -> (r: Extent)
        ensures
            r == self.min_size,
    {
        self.min_size
    }

    pub fn set_min_size(&mut self, size: Extent)
        ensures
            *final(self) == (WindowState { min_size: size, ..*old(self) }),
    {
        self.min_size = size;
    }
}

/// A platform message, with the parameters that its handling reads.
#[derive(Debug, Clone, Copy, PartialEq, Eq, Structural)]
pub enum Message {
    /// The window was created with this width and height.
    Create { cx: i32, cy: i32 },
    Close,
    GetMinMaxInfo,
    Size { lparam: isize },
    EraseBackground,
    MouseMove { lparam: isize },
    LButtonDown,
    LButtonUp,
    MButtonDown,
    MButtonUp,
    RButtonDown,
    RButtonUp,
    MouseWheel { wparam: usize },
    MouseHWheel { wparam: usize },
    Char { wparam: usize },
    Paint,
    /// Any message the window does not handle itself.
    Other,
}

/// What the window procedure does with a message.
#[derive(Debug, Clone, Copy, PartialEq, Eq, Structural)]
pub enum Response {
    /// Hand the event to the window's handler, then return 0.
    Dispatch(Event),
    /// Set the minimum tracking size to `(x, y)`, then return 0.
    SetMinTrackSize { x: i32, y: i32 },
    /// Return this value without further action.
    Return(isize),
    /// Leave the message to the platform's default handling.
    Default,
}

/// The low 16 bits of `v`, as a signed value.
pub open spec fn low_word(v: isize) -> i16 {
    v as i16
}

/// Bits 16 to 31 of `v`, as a signed value.
pub open spec fn high_word(v: isize) -> i16 {
    (v >> 16isize) as i16
}

/// Bits 16 to 31 of `v`, as a signed value.
pub open spec fn high_word_usize(v: usize) -> i16 {
    (v >> 16usize) as i16
}

/// Whether `v` is a Unicode scalar value.
pub open spec fn is_scalar(v: u32) -> bool {
    v < 0xD800 || (0xE000 <= v && v <= 0x10FFFF)
}

/// Calls `char::from_u32`, which is documented to return the character with
/// code `i` when `i` is a Unicode scalar value (not a surrogate, at most
/// `0x10FFFF`), and `None` otherwise.
#[verifier::external_body]
fn char_from_u32(i: u32) -> (r: Option<char>)
    ensures
        r == if is_scalar(i) {
            Some(i as char)
        } else {
            None::<char>
        },
{
    char::from_u32(i)
}

/// Whether [`handle_message`] accepts `msg`: a created window's size must be
/// an `i16` pixel size, and a character that is not taken for a surrogate
/// must be a Unicode scalar value.
pub open spec fn message_ok(msg: Message) -> bool {
    match msg {
        Message::Create { cx, cy } => fits_i16(cx as int) && fits_i16(cy as int),
        Message::Char { wparam } => wparam & 0xD800 != 0xD800 ==> (wparam as u32) <= 0x10FFFF,
        _ => true,
    }
}

/// The response to `msg`, and the state it leaves behind.
pub open spec fn spec_handle(state: WindowState, msg: Message) -> (WindowState, Response) {
    match msg {
        Message::Create { cx, cy } => (
            state,
            Response::Dispatch(
                Event::Created { size: Extent { width: Px(cx as i16), height: Px(cy as i16) } },
            ),
        ),
        Message::Close => (state, Response::Dispatch(Event::CloseRequested {  })),
        Message::GetMinMaxInfo => (
            state,
            Response::SetMinTrackSize {
                x: state.min_size.width.0 as i32,
                y: state.min_size.height.0 as i32,
            },
        ),
        Message::Size { lparam } => (
            state,
            Response::Dispatch(
                Event::Resized {
                    size: Extent { width: Px(low_word(lparam)), height: Px(high_word(lparam)) },
                },
            ),
        ),
        Message::EraseBackground => (state, Response::Return(1)),
        Message::MouseMove { lparam } => (
            state,
            Response::Dispatch(
                Event::Input(
                    InputEvent::CursorMove {
                        position: Point { x: Px(low_word(lparam)), y: Px(high_word(lparam)) },
                    },
                ),
            ),
        ),
        Message::LButtonDown => (
            state,
            Response::Dispatch(
                Event::Input(
                    InputEvent::MouseButton {
                        button: MouseButton::Left,
                        state: ButtonState::Pressed,
                    },
                ),
            ),
        ),
        Message::LButtonUp => (
            state,
            Response::Dispatch(
                Event::Input(
                    InputEvent::MouseButton {
                        button: MouseButton::Left,
                        state: ButtonState::Released,
                    },
                ),
            ),
        ),
        Message::MButtonDown => (
            state,
            Response::Dispatch(
                Event::Input(
                    InputEvent::MouseButton {
                        button: MouseButton::Middle,
                        state: ButtonState::Pressed,
                    },
                ),
            ),
        ),
        Message::MButtonUp => (
            state,
            Response::Dispatch(
                Event::Input(
                    InputEvent::MouseButton {
                        button: MouseButton::Middle,
                        state: ButtonState::Released,
                    },
                ),
            ),
        ),
        Message::RButtonDown => (
            state,
            Response::Dispatch(
                Event::Input(
                    InputEvent::MouseButton {
                        button: MouseButton::Right,
                        state: ButtonState::Pressed,
                    },
                ),
            ),
        ),
        Message::RButtonUp => (
            state,
            Response::Dispatch(
                Event::Input(
                    InputEvent::MouseButton {
                        button: MouseButton::Right,
                        state: ButtonState::Released,
                    },
                ),
            ),
        ),
        Message::MouseWheel { wparam } => (
            state,
            Response::Dispatch(
                Event::Input(InputEvent::ScrollWheel { x: 0, y: high_word_usize(wparam) }),
            ),
        ),
        Message::MouseHWheel { wparam } => (
            state,
            Response::Dispatch(
                Event::Input(InputEvent::ScrollWheel { x: high_word_usize(wparam), y: 0 }),
            ),
        ),
        Message::Char { wparam } => if wparam & 0xD800 == 0xD800 {
            (WindowState { high_surrogate: wparam as u16, ..state }, Response::Return(0))
        } else {
            (
                state,
                Response::Dispatch(
                    Event::Input(
                        InputEvent::Char { codepoint: (wparam as u32) as char },
                    ),
                ),
            )
        },
        Message::Paint => (state, Response::Dispatch(Event::Update {  })),
        Message::Other => (state, Response::Default),
    }
}

/// Each mouse-button message is reported as that same button going down
/// (a press) or up (a release), and leaves the window state as it was.
pub proof fn lemma_button_messages(state: WindowState)
    ensures
        spec_handle(state, Message::LButtonDown) == (state, Response::Dispatch(
            Event::Input(InputEvent::MouseButton { button: MouseButton::Left, state: ButtonState::Pressed }),
        )),
        spec_handle(state, Message::LButtonUp) == (state, Response::Dispatch(
            Event::Input(InputEvent::MouseButton { button: MouseButton::Left, state: ButtonState::Released }),
        )),
        spec_handle(state, Message::MButtonDown) == (state, Response::Dispatch(
            Event::Input(InputEvent::MouseButton { button: MouseButton::Middle, state: ButtonState::Pressed }),
        )),
        spec_handle(state, Message::MButtonUp) == (state, Response::Dispatch(
            Event::Input(InputEvent::MouseButton { button: MouseButton::Middle, state: ButtonState::Released }),
        )),
        spec_handle(state, Message::RButtonDown) == (state, Response::Dispatch(
            Event::Input(InputEvent::MouseButton { button: MouseButton::Right, state: ButtonState::Pressed }),
        )),
        spec_handle(state, Message::RButtonUp) == (state, Response::Dispatch(
            Event::Input(InputEvent::MouseButton { button: MouseButton::Right, state: ButtonState::Released }),
        )),
{
}

/// The window messages that are not input are reported as what they say:
/// a close request, an update to paint, the new size (width in the low
/// 16 bits, height in the next 16), the size at creation, and the smallest
/// size the window keeps; a cursor move reports the position it carries
/// (x in the low 16 bits, y in the next 16). None changes the window state.
pub proof fn lemma_window_messages(state: WindowState, lparam: isize, cx: i32, cy: i32)
    ensures
        spec_handle(state, Message::Close) == (state, Response::Dispatch(Event::CloseRequested {  })),
        spec_handle(state, Message::Paint) == (state, Response::Dispatch(Event::Update {  })),
        spec_handle(state, Message::Size { lparam }) == (state, Response::Dispatch(
            Event::Resized { size: Extent { width: Px(lparam as i16), height: Px((lparam >> 16isize) as i16) } },
        )),
        spec_handle(state, Message::Create { cx, cy }) == (state, Response::Dispatch(
            Event::Created { size: Extent { width: Px(cx as i16), height: Px(cy as i16) } },
        )),
        spec_handle(state, Message::GetMinMaxInfo) == (state, Response::SetMinTrackSize {
            x: state.min_size.width.0 as i32,
            y: state.min_size.height.0 as i32,
        }),
        spec_handle(state, Message::MouseMove { lparam }) == (state, Response::Dispatch(
            Event::Input(InputEvent::CursorMove {
                position: Point { x: Px(lparam as i16), y: Px((lparam >> 16isize) as i16) },
            }),
        )),
        spec_handle(state, Message::Other) == (state, Response::Default),
{
}

/// Decides what the window procedure does with `msg`: the event to hand to
/// the window's handler, or the platform action to take. A `WM_CHAR` unit
/// with the high-surrogate bits set is kept as the pending high surrogate
/// instead of being reported.
pub fn handle_message(state: &mut WindowState, msg: Message) -> (r: Response)
    requires
        message_ok(msg),
    ensures
        (*final(state), r) == spec_handle(*old(state), msg),
{
    match msg {
        Message::Create { cx, cy } => Response::Dispatch(
            Event::Created { size: Extent { width: Px(cx as i16), height: Px(cy as i16) } },
        ),
        Message::Close => Response::Dispatch(Event::CloseRequested {  }),
        Message::GetMinMaxInfo => {
            let min = state.min_size;
            Response::SetMinTrackSize { x: min.width.0 as i32, y: min.height.0 as i32 }
        },
        Message::Size { lparam } => {
            let width = Px(lparam as i16);
            let height = Px((lparam >> 16) as i16);
            Response::Dispatch(Event::Resized { size: Extent { width, height } })
        },
        Message::EraseBackground => Response::Return(1),
        Message::MouseMove { lparam } => Response::Dispatch(
            Event::Input(
                InputEvent::CursorMove {
                    position: Point::new(Px(lparam as i16), Px((lparam >> 16) as i16)),
                },
            ),
        ),
        Message::LButtonDown => Response::Dispatch(
            Event::Input(
                InputEvent::MouseButton { button: MouseButton::Left, state: ButtonState::Pressed },
            ),
        ),
        Message::LButtonUp => Response::Dispatch(
            Event::Input(
                InputEvent::MouseButton { button: MouseButton::Left, state: ButtonState::Released },
            ),
        ),
        Message::MButtonDown => Response::Dispatch(
            Event::Input(
                InputEvent::MouseButton { button: MouseButton::Middle, state: ButtonState::Pressed },
            ),
        ),
        Message::MButtonUp => Response::Dispatch(
            Event::Input(
                InputEvent::MouseButton {
                    button: MouseButton::Middle,
                    state: ButtonState::Released,
                },
            ),
        ),
        Message::RButtonDown => Response::Dispatch(
            Event::Input(
                InputEvent::MouseButton { button: MouseButton::Right, state: ButtonState::Pressed },
            ),
        ),
        Message::RButtonUp => Response::Dispatch(
            Event::Input(
                InputEvent::MouseButton { button: MouseButton::Right, state: ButtonState::Released },
            ),
        ),
        Message::MouseWheel { wparam } => Response::Dispatch(
            Event::Input(InputEvent::ScrollWheel { x: 0, y: (wparam >> 16) as i16 }),
        ),
        Message::MouseHWheel { wparam } => Response::Dispatch(
            Event::Input(InputEvent::ScrollWheel { x: (wparam >> 16) as i16, y: 0 }),
        ),
        Message::Char { wparam } => {
            if (wparam & 0xD800) == 0xD800 {
                state.high_surrogate = wparam as u16;
                Response::Return(0)
            } else {
                proof {
                    assert(wparam & 0xDC00usize == 0xDC00usize ==> wparam & 0xD800usize == 0xD800usize) by (bit_vector);
                    let w = wparam as u32;
                    assert(wparam & 0xD800usize != 0xD800usize ==> (wparam as u32) & 0xD800u32 != 0xD800u32) by (bit_vector);
                    assert(w & 0xD800u32 != 0xD800u32 ==> !(0xD800u32 <= w && w <= 0xDFFFu32)) by (bit_vector);
                }
                // A low surrogate completes the pending high one. (The test
                // above already takes every unit with the low-surrogate bits.)
                let code = if (wparam & 0xDC00) == 0xDC00 {
                    (((state.high_surrogate as u32 - 0xD800) << 10) | (wparam as u32 - 0xDC00))
                        + 0x10000
                } else {
                    wparam as u32
                };
                match char_from_u32(code) {
                    Some(codepoint) => Response::Dispatch(Event::Input(InputEvent::Char { codepoint })),
                    None => vstd::pervasive::unreached(),
                }
            }
        },
        Message::Paint => Response::Dispatch(Event::Update {  }),
        Message::Other => Response::Default,
    }
}

/// The UTF-16 code units of one character.
pub open spec fn utf16_of(c: char) -> Seq<u16> {
    let v = c as u32;
    if v < 0x10000 {
        seq![v as u16]
    } else {
        let w = (v - 0x10000) as u32;
        seq![(0xD800 + w / 0x400) as u16, (0xDC00 + w % 0x400) as u16]
    }
}

/// The UTF-16 encoding of a string.
pub open spec fn encode_utf16(s: Seq<char>) -> Seq<u16>
    decreases s.len(),
{
    if s.len() == 0 {
        Seq::empty()
    } else {
        encode_utf16(s.drop_last()) + utf16_of(s.last())
    }
}

/// A string as a zero-terminated UTF-16 buffer of at most `max` units: the
/// encoding cut to `max` units, with its last unit replaced by zero if it
/// fills the buffer, or a zero appended otherwise.
pub open spec fn wide_title(s: Seq<char>, max: nat) -> Seq<u16> {
    let units = encode_utf16(s).take(
        if encode_utf16(s).len() < max {
            encode_utf16(s).len() as int
        } else {
            max as int
        },
    );
    if units.len() == max {
        units.update(max - 1, 0)
    } else {
        units.push(0)
    }
}

fn push_unit(buffer: &mut Vec<u16>, unit: u16, max: usize)
    ensures
        final(buffer)@ == if old(buffer)@.len() < max {
            old(buffer)@.push(unit)
        } else {
            old(buffer)@
        },
{
    if buffer.len() < max {
        buffer.push(unit);
    }
}

/// Encodes `s` as a zero-terminated UTF-16 buffer of at most `MAX_LENGTH`
/// units; a longer title is cut, and its last kept unit replaced by the
/// terminating zero.
pub fn to_wstr<const MAX_LENGTH: usize>(s: &str) -> (r: Vec<u16>)
    requires
        MAX_LENGTH > 0,
    ensures
        r@ == wide_title(s@, MAX_LENGTH as nat),
        r@.len() <= MAX_LENGTH,
        r@.last() == 0,
{
    let mut buffer: Vec<u16> = Vec::new();
    let ghost all = s@;
    for c in it: s.chars()
        invariant
            all == s@,
            it.seq() == all,
            buffer@ == encode_utf16(all.take(it.index())).take(
                if encode_utf16(all.take(it.index())).len() < MAX_LENGTH {
                    encode_utf16(all.take(it.index())).len() as int
                } else {
                    MAX_LENGTH as int
                },
            ),
    {
        let ghost k = it.index();
        assert(all.take(k + 1).drop_last() =~= all.take(k));
        assert(c == all[k]);
        let v = c as u32;
        if v < 0x10000 {
            push_unit(&mut buffer, v as u16, MAX_LENGTH);
        } else {
            let w = v - 0x10000;
            push_unit(&mut buffer, (0xD800 + w / 0x400) as u16, MAX_LENGTH);
            push_unit(&mut buffer, (0xDC00 + w % 0x400) as u16, MAX_LENGTH);
        }
        assert(buffer@ =~= encode_utf16(all.take(k + 1)).take(
            if encode_utf16(all.take(k + 1)).len() < MAX_LENGTH {
                encode_utf16(all.take(k + 1)).len() as int
            } else {
                MAX_LENGTH as int
            },
        ));
    }
    assert(all.take(all.len() as int) =~= all);
    let len = buffer.len();
    if len == MAX_LENGTH {
        buffer.set(len - 1, 0);
    } else {
        buffer.push(0);
    }
    buffer
}

} // verus!
