use vstd::prelude::*;

verus! {

/// Native pointer message identifiers, as delivered by the low-level pointer hook.
pub const MSG_MOUSE_MOVE: u32 = 0x0200;
pub const MSG_LEFT_DOWN: u32 = 0x0201;
pub const MSG_LEFT_UP: u32 = 0x0202;
pub const MSG_LEFT_DOUBLE: u32 = 0x0203;
pub const MSG_RIGHT_DOWN: u32 = 0x0204;
pub const MSG_RIGHT_UP: u32 = 0x0205;
pub const MSG_RIGHT_DOUBLE: u32 = 0x0206;
pub const MSG_MIDDLE_DOWN: u32 = 0x0207;
pub const MSG_MIDDLE_UP: u32 = 0x0208;
pub const MSG_MIDDLE_DOUBLE: u32 = 0x0209;
pub const MSG_WHEEL: u32 = 0x020A;
pub const MSG_HWHEEL: u32 = 0x020E;

/// Key-state flags that accompany a pointer message.
pub const MK_NONE: u16 = 0x0000;
pub const MK_LBUTTON: u16 = 0x0001;
pub const MK_RBUTTON: u16 = 0x0002;
pub const MK_SHIFT: u16 = 0x0004;
pub const MK_CONTROL: u16 = 0x0008;
pub const MK_MBUTTON: u16 = 0x0010;

#[derive(Clone, Copy, Debug, PartialEq, Eq, Structural)]
pub enum Button {
    Left,
    Right,
    Middle,
}

/// The kind of a pointer event.
#[derive(Clone, Copy, Debug, PartialEq, Eq, Structural)]
pub enum PointerKind {
    Move,
    Press(Button),
    Release(Button),
    Wheel,
    HWheel,
}

pub open spec fn button_flag(b: Button) -> u16 {
    match b {
        Button::Left => MK_LBUTTON,
        Button::Right => MK_RBUTTON,
        Button::Middle => MK_MBUTTON,
    }
}

/// The key-state flag that stands for a button.
pub fn flag_of(b: Button) -> (r: u16)
    ensures
        r == button_flag(b),
{
    match b {
        Button::Left => MK_LBUTTON,
        Button::Right => MK_RBUTTON,
        Button::Middle => MK_MBUTTON,
    }
}

pub open spec fn kind_code(k: PointerKind) -> u32 {
    match k {
        PointerKind::Move => MSG_MOUSE_MOVE,
        PointerKind::Press(Button::Left) => MSG_LEFT_DOWN,
        PointerKind::Release(Button::Left) => MSG_LEFT_UP,
        PointerKind::Press(Button::Right) => MSG_RIGHT_DOWN,
        PointerKind::Release(Button::Right) => MSG_RIGHT_UP,
        PointerKind::Press(Button::Middle) => MSG_MIDDLE_DOWN,
        PointerKind::Release(Button::Middle) => MSG_MIDDLE_UP,
        PointerKind::Wheel => MSG_WHEEL,
        PointerKind::HWheel => MSG_HWHEEL,
    }
}

pub open spec fn kind_of_code(code: u32) -> Option<PointerKind> {
    if code == MSG_MOUSE_MOVE {
        Some(PointerKind::Move)
    } else if code == MSG_LEFT_DOWN {
        Some(PointerKind::Press(Button::Left))
    } else if code == MSG_LEFT_UP {
        Some(PointerKind::Release(Button::Left))
    } else if code == MSG_RIGHT_DOWN {
        Some(PointerKind::Press(Button::Right))
    } else if code == MSG_RIGHT_UP {
        Some(PointerKind::Release(Button::Right))
    } else if code == MSG_MIDDLE_DOWN {
        Some(PointerKind::Press(Button::Middle))
    } else if code == MSG_MIDDLE_UP {
        Some(PointerKind::Release(Button::Middle))
    } else if code == MSG_WHEEL {
        Some(PointerKind::Wheel)
    } else if code == MSG_HWHEEL {
        Some(PointerKind::HWheel)
    } else {
        None
    }
}

/// The native message identifier of a pointer event kind.
pub fn message_code(k: PointerKind) -> (r: u32)
    ensures
        r == kind_code(k),
        kind_of_code(r) == Some(k),
{
    match k {
        PointerKind::Move => MSG_MOUSE_MOVE,
        PointerKind::Press(Button::Left) => MSG_LEFT_DOWN,
        PointerKind::Release(Button::Left) => MSG_LEFT_UP,
        PointerKind::Press(Button::Right) => MSG_RIGHT_DOWN,
        PointerKind::Release(Button::Right) => MSG_RIGHT_UP,
        PointerKind::Press(Button::Middle) => MSG_MIDDLE_DOWN,
        PointerKind::Release(Button::Middle) => MSG_MIDDLE_UP,
        PointerKind::Wheel => MSG_WHEEL,
        PointerKind::HWheel => MSG_HWHEEL,
    }
}

/// Reads a native message identifier as a pointer event kind; `None` for any other message.
pub fn kind_from_message(code: u32) -> (r: Option<PointerKind>)
    ensures
        r == kind_of_code(code),
        r matches Some(k) ==> kind_code(k) == code,
{
    if code == MSG_MOUSE_MOVE {
        Some(PointerKind::Move)
    } else if code == MSG_LEFT_DOWN {
        Some(PointerKind::Press(Button::Left))
    } else if code == MSG_LEFT_UP {
        Some(PointerKind::Release(Button::Left))
    } else if code == MSG_RIGHT_DOWN {
        Some(PointerKind::Press(Button::Right))
    } else if code == MSG_RIGHT_UP {
        Some(PointerKind::Release(Button::Right))
    } else if code == MSG_MIDDLE_DOWN {
        Some(PointerKind::Press(Button::Middle))
    } else if code == MSG_MIDDLE_UP {
        Some(PointerKind::Release(Button::Middle))
    } else if code == MSG_WHEEL {
        Some(PointerKind::Wheel)
    } else if code == MSG_HWHEEL {
        Some(PointerKind::HWheel)
    } else {
        None
    }
}

pub open spec fn double_code(b: Button) -> u32 {
    match b {
        Button::Left => MSG_LEFT_DOUBLE,
        Button::Right => MSG_RIGHT_DOUBLE,
        Button::Middle => MSG_MIDDLE_DOUBLE,
    }
}

/// The native double-click message identifier of a button.
pub fn double_click_message(b: Button) -> (r: u32)
    ensures
        r == double_code(b),
{
    match b {
        Button::Left => MSG_LEFT_DOUBLE,
        Button::Right => MSG_RIGHT_DOUBLE,
        Button::Middle => MSG_MIDDLE_DOUBLE,
    }
}

} // verus!
