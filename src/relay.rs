use vstd::prelude::*;

use crate::pointer::{
    Button, PointerKind, kind_code, kind_of_code, kind_from_message, message_code, MSG_MOUSE_MOVE,
};

verus! {

/// Private message that carries one packed pointer event to the dispatch relay.
pub const RELAY_POINTER_MESSAGE: u32 = 0x8000 + 42;
/// Private message that carries the content bounds (width, height) to the dispatch relay.
pub const RELAY_BOUNDS_MESSAGE: u32 = 0x8000 + 43;
/// Session change notification and its two codes.
pub const SESSION_CHANGE_MESSAGE: u32 = 0x02B1;
pub const SESSION_LOCK: u64 = 0x7;
pub const SESSION_UNLOCK: u64 = 0x8;

/// A pointer event forwarded to the embedded renderer, in content-local coordinates.
#[derive(Clone, Copy, Debug, PartialEq, Eq, Structural)]
pub struct RelayMessage {
    pub kind: PointerKind,
    pub buttons: u16,
    pub wheel: i16,
    pub x: i32,
    pub y: i32,
}

/// A relay message as the two word-sized parameters of one posted message.
#[derive(Clone, Copy, Debug, PartialEq, Eq, Structural)]
pub struct PackedRelay {
    pub wparam: u64,
    pub lparam: u64,
}

pub open spec fn bias16(v: i16) -> u64 {
    (v as int + 0x8000) as u64
}

pub open spec fn bias32(v: i32) -> u64 {
    (v as int + 0x8000_0000) as u64
}

pub open spec fn pack_spec(m: RelayMessage) -> PackedRelay {
    PackedRelay {
        wparam: (kind_code(m.kind) as u64) | ((m.buttons as u64) << 16u64) | (bias16(m.wheel) << 32u64),
        lparam: bias32(m.x) | (bias32(m.y) << 32u64),
    }
}

proof fn lemma_split_fields(a: u64, b: u64, c: u64)
    requires
        a < 0x10000,
        b < 0x10000,
        c < 0x10000,
    ensures
        (a | (b << 16u64) | (c << 32u64)) & 0xFFFFu64 == a,
        ((a | (b << 16u64) | (c << 32u64)) >> 16u64) & 0xFFFFu64 == b,
        ((a | (b << 16u64) | (c << 32u64)) >> 32u64) & 0xFFFFu64 == c,
        ((a | (b << 16u64) | (c << 32u64)) >> 48u64) == 0,
{
    assert((a | (b << 16u64) | (c << 32u64)) & 0xFFFFu64 == a) by (bit_vector)
        requires a < 0x10000, b < 0x10000, c < 0x10000;
    assert(((a | (b << 16u64) | (c << 32u64)) >> 16u64) & 0xFFFFu64 == b) by (bit_vector)
        requires a < 0x10000, b < 0x10000, c < 0x10000;
    assert(((a | (b << 16u64) | (c << 32u64)) >> 32u64) & 0xFFFFu64 == c) by (bit_vector)
        requires a < 0x10000, b < 0x10000, c < 0x10000;
    assert(((a | (b << 16u64) | (c << 32u64)) >> 48u64) == 0) by (bit_vector)
        requires a < 0x10000, b < 0x10000, c < 0x10000;
}

proof fn lemma_split_halves(a: u64, b: u64)
    requires
        a < 0x1_0000_0000,
        b < 0x1_0000_0000,
    ensures
        (a | (b << 32u64)) & 0xFFFF_FFFFu64 == a,
        (a | (b << 32u64)) >> 32u64 == b,
{
    assert((a | (b << 32u64)) & 0xFFFF_FFFFu64 == a) by (bit_vector)
        requires a < 0x1_0000_0000, b < 0x1_0000_0000;
    assert((a | (b << 32u64)) >> 32u64 == b) by (bit_vector)
        requires a < 0x1_0000_0000, b < 0x1_0000_0000;
}

/// Packs a relay message into the two parameters of the relay's pointer message.
pub fn pack(m: &RelayMessage) -> (r: PackedRelay)
    ensures
        r == pack_spec(*m),
{
    let k = message_code(m.kind) as u64;
    let b = m.buttons as u64;
    let w = (m.wheel as i64 + 0x8000) as u64;
    let x = (m.x as i64 + 0x8000_0000) as u64;
    let y = (m.y as i64 + 0x8000_0000) as u64;
    PackedRelay { wparam: k | (b << 16u64) | (w << 32u64), lparam: x | (y << 32u64) }
}

/// Reads back the relay message that `pack` produced. `None` when the parameters do not
/// hold a pointer event kind in their lowest field, or use bits that `pack` never sets.
pub fn unpack(p: &PackedRelay) -> (r: Option<RelayMessage>)
    ensures
        r == unpack_spec(*p),
{
    let wp = p.wparam;
    let lp = p.lparam;
    let code = (wp & 0xFFFFu64) as u32;
    let b = ((wp >> 16u64) & 0xFFFFu64) as u16;
    let wb = (wp >> 32u64) & 0xFFFFu64;
    let high = wp >> 48u64;
    let xb = lp & 0xFFFF_FFFFu64;
    let yb = lp >> 32u64;
    assert(xb < 0x1_0000_0000 && yb < 0x1_0000_0000 && wb < 0x10000 && wp & 0xFFFFu64 < 0x10000
        && (wp >> 16u64) & 0xFFFFu64 < 0x10000) by (bit_vector)
        requires
            xb == lp & 0xFFFF_FFFFu64,
            yb == lp >> 32u64,
            wb == (wp >> 32u64) & 0xFFFFu64,
    ;
    let kind = kind_from_message(code);
    if high != 0 {
        proof {
            assert forall|m: RelayMessage| pack_spec(m) != *p by {
                lemma_split_fields(kind_code(m.kind) as u64, m.buttons as u64, bias16(m.wheel));
            }
        }
        return None;
    }
    match kind {
        None => {
            proof {
                assert forall|m: RelayMessage| pack_spec(m) != *p by {
                    lemma_split_fields(kind_code(m.kind) as u64, m.buttons as u64, bias16(m.wheel));
                    if pack_spec(m) == *p {
                        assert(kind_of_code(kind_code(m.kind)) == Some(m.kind));
                    }
                }
            }
            None
        },
        Some(k) => {
            let m = RelayMessage {
                kind: k,
                buttons: b,
                wheel: (wb as i64 - 0x8000) as i16,
                x: (xb as i64 - 0x8000_0000) as i32,
                y: (yb as i64 - 0x8000_0000) as i32,
            };
            proof {
                assert(wp == (wp & 0xFFFFu64) | (((wp >> 16u64) & 0xFFFFu64) << 16u64) | (((wp
                    >> 32u64) & 0xFFFFu64) << 32u64)) by (bit_vector)
                    requires
                        wp >> 48u64 == 0,
                ;
                assert(lp == (lp & 0xFFFF_FFFFu64) | ((lp >> 32u64) << 32u64)) by (bit_vector);
                assert(kind_code(k) as u64 == wp & 0xFFFFu64);
                assert(m.buttons as u64 == (wp >> 16u64) & 0xFFFFu64);
                assert(bias16(m.wheel) == wb);
                assert(bias32(m.x) == xb);
                assert(bias32(m.y) == yb);
                assert(pack_spec(m) == *p);
                lemma_pack_injective_all(m);
            }
            Some(m)
        },
    }
}

pub open spec fn unpack_spec(p: PackedRelay) -> Option<RelayMessage> {
    if exists|m: RelayMessage| pack_spec(m) == p {
        Some(choose|m: RelayMessage| pack_spec(m) == p)
    } else {
        None
    }
}

proof fn lemma_pack_fields(m: RelayMessage)
    ensures
        pack_spec(m).wparam & 0xFFFFu64 == kind_code(m.kind) as u64,
        (pack_spec(m).wparam >> 16u64) & 0xFFFFu64 == m.buttons as u64,
        (pack_spec(m).wparam >> 32u64) & 0xFFFFu64 == bias16(m.wheel),
        pack_spec(m).lparam & 0xFFFF_FFFFu64 == bias32(m.x),
        pack_spec(m).lparam >> 32u64 == bias32(m.y),
{
    lemma_split_fields(kind_code(m.kind) as u64, m.buttons as u64, bias16(m.wheel));
    lemma_split_halves(bias32(m.x), bias32(m.y));
}

/// Two messages that pack to the same parameters are the same message.
proof fn lemma_pack_injective_all(m: RelayMessage)
    ensures
        forall|m2: RelayMessage| pack_spec(m2) == pack_spec(m) ==> m2 == m,
{
    assert forall|m2: RelayMessage| pack_spec(m2) == pack_spec(m) implies m2 == m by {
        lemma_pack_fields(m);
        lemma_pack_fields(m2);
        assert(kind_of_code(kind_code(m2.kind)) == Some(m2.kind));
        assert(kind_of_code(kind_code(m.kind)) == Some(m.kind));
    }
}

/// Unpacking the parameters that a message packs to gives that message back, whatever
/// its kind, buttons, wheel delta and coordinates.
pub proof fn lemma_relay_round_trip(m: RelayMessage)
    ensures
        unpack_spec(pack_spec(m)) == Some(m),
{
    lemma_pack_injective_all(m);
}


/// The calls to make on the renderer for one relay message. A press is preceded by a move to
/// the same point, so that the renderer's cursor position is right before the click lands.
pub open spec fn injections_spec(m: RelayMessage) -> Seq<RelayMessage> {
    match m.kind {
        PointerKind::Press(_) => seq![RelayMessage { kind: PointerKind::Move, wheel: 0, ..m }, m],
        _ => seq![m],
    }
}

pub fn injections(m: &RelayMessage) -> (r: Vec<RelayMessage>)
    ensures
        r@ == injections_spec(*m),
{
    let mut v = Vec::new();
    if let PointerKind::Press(_) = m.kind {
        v.push(RelayMessage { kind: PointerKind::Move, wheel: 0, ..*m });
    }
    v.push(*m);
    proof {
        assert(v@ =~= injections_spec(*m));
    }
    v
}

/// What the dispatch relay does with a message it receives.
#[derive(Clone, Debug)]
pub enum DispatchAction {
    /// Give the renderer these content bounds.
    SetBounds { width: i32, height: i32 },
    /// Make these calls on the renderer's input interface, in order.
    Inject(Vec<RelayMessage>),
    /// The session was locked (`false`) or unlocked (`true`).
    SessionChanged(bool),
    /// A message of the relay's own with nothing to do: the renderer is not ready yet, or
    /// the parameters do not decode.
    Dropped,
    /// Not one of the relay's messages: default handling.
    Default,
}

/// Decides what the dispatch relay does with a message, where `engine_ready` says whether
/// the renderer's input interface is known yet.
pub fn dispatch(message: u32, wparam: u64, lparam: u64, engine_ready: bool) -> (r: DispatchAction)
    ensures
        message == RELAY_BOUNDS_MESSAGE ==> (if engine_ready && wparam <= i32::MAX && lparam
            <= i32::MAX {
            r matches DispatchAction::SetBounds { width, height } && width == wparam && height
                == lparam
        } else {
            r is Dropped
        }),
        message == RELAY_POINTER_MESSAGE ==> (match unpack_spec(PackedRelay { wparam, lparam }) {
            Some(m) if engine_ready => r matches DispatchAction::Inject(v) && v@ == injections_spec(m),
            _ => r is Dropped,
        }),
        message == SESSION_CHANGE_MESSAGE ==> (if wparam == SESSION_LOCK {
            r == DispatchAction::SessionChanged(false)
        } else if wparam == SESSION_UNLOCK {
            r == DispatchAction::SessionChanged(true)
        } else {
            r is Dropped
        }),
        message != RELAY_BOUNDS_MESSAGE && message != RELAY_POINTER_MESSAGE && message
            != SESSION_CHANGE_MESSAGE ==> r is Default,
{
    if message == RELAY_BOUNDS_MESSAGE {
        if engine_ready && wparam <= i32::MAX as u64 && lparam <= i32::MAX as u64 {
            DispatchAction::SetBounds { width: wparam as i32, height: lparam as i32 }
        } else {
            DispatchAction::Dropped
        }
    } else if message == RELAY_POINTER_MESSAGE {
        match unpack(&PackedRelay { wparam, lparam }) {
            Some(m) => {
                if engine_ready {
                    DispatchAction::Inject(injections(&m))
                } else {
                    DispatchAction::Dropped
                }
            },
            None => DispatchAction::Dropped,
        }
    } else if message == SESSION_CHANGE_MESSAGE {
        if wparam == SESSION_LOCK {
            DispatchAction::SessionChanged(false)
        } else if wparam == SESSION_UNLOCK {
            DispatchAction::SessionChanged(true)
        } else {
            DispatchAction::Dropped
        }
    } else {
        DispatchAction::Default
    }
}

} // verus!
