use vstd::prelude::*;

use crate::pointer::{Button, PointerKind};

verus! {

/// What kind of window lies under the cursor.
#[derive(Clone, Copy, Debug, PartialEq, Eq, Structural)]
pub enum TargetClass {
    /// The content surface, or the renderer's input window inside it.
    Content,
    /// The desktop shell: its root, the background container, the icon view and its children.
    IconLayer,
    /// Any window that belongs to neither.
    Other,
}

/// Where one pointer event goes.
#[derive(Clone, Copy, Debug, PartialEq, Eq, Structural)]
pub enum Destination {
    /// Forwarded to the embedded renderer.
    Content,
    /// Forwarded to the native icon layer.
    IconLayer,
    /// Left to the operating system's ordinary delivery, forwarded nowhere.
    Native,
}

/// Which destination owns the interaction in progress, and with which button it began.
#[derive(Clone, Copy, Debug, PartialEq, Eq, Structural)]
pub enum ClickOwnership {
    Idle,
    OwnedByContent(Button),
    OwnedByIconLayer(Button),
}

/// The destination that the classification alone gives, with no interaction in progress:
/// nothing for a foreign window, the icon layer when the hit-test finds an icon, else the content.
pub open spec fn idle_destination(target: TargetClass, over_icon: bool) -> Destination {
    if target == TargetClass::Other {
        Destination::Native
    } else if over_icon {
        Destination::IconLayer
    } else {
        Destination::Content
    }
}

/// One step of the click-ownership machine: the destination of an event, and the next state.
pub open spec fn route_spec(
    own: ClickOwnership,
    target: TargetClass,
    over_icon: bool,
    kind: PointerKind,
) -> (Destination, ClickOwnership) {
    match own {
        ClickOwnership::OwnedByContent(b) => (
            Destination::Content,
            if kind == PointerKind::Release(b) { ClickOwnership::Idle } else { own },
        ),
        ClickOwnership::OwnedByIconLayer(b) => (
            Destination::IconLayer,
            if kind == PointerKind::Release(b) { ClickOwnership::Idle } else { own },
        ),
        ClickOwnership::Idle => {
            let d = idle_destination(target, over_icon);
            match kind {
                PointerKind::Press(b) => (
                    d,
                    if d == Destination::Content {
                        ClickOwnership::OwnedByContent(b)
                    } else if d == Destination::IconLayer {
                        ClickOwnership::OwnedByIconLayer(b)
                    } else {
                        ClickOwnership::Idle
                    },
                ),
                _ => (d, ClickOwnership::Idle),
            }
        },
    }
}

/// Decides the destination of one pointer event and the ownership that follows it.
/// Ownership is taken only by a press, and given up only by the release of the same button.
pub fn route(own: ClickOwnership, target: TargetClass, over_icon: bool, kind: PointerKind) -> (r: (
    Destination,
    ClickOwnership,
))
    ensures
        r == route_spec(own, target, over_icon, kind),
{
    match own {
        ClickOwnership::OwnedByContent(b) => {
            let next = if kind == PointerKind::Release(b) {
                ClickOwnership::Idle
            } else {
                own
            };
            (Destination::Content, next)
        },
        ClickOwnership::OwnedByIconLayer(b) => {
            let next = if kind == PointerKind::Release(b) {
                ClickOwnership::Idle
            } else {
                own
            };
            (Destination::IconLayer, next)
        },
        ClickOwnership::Idle => {
            let d = if target == TargetClass::Other {
                Destination::Native
            } else if over_icon {
                Destination::IconLayer
            } else {
                Destination::Content
            };
            match kind {
                PointerKind::Press(b) => {
                    let next = match d {
                        Destination::Content => ClickOwnership::OwnedByContent(b),
                        Destination::IconLayer => ClickOwnership::OwnedByIconLayer(b),
                        Destination::Native => ClickOwnership::Idle,
                    };
                    (d, next)
                },
                _ => (d, ClickOwnership::Idle),
            }
        },
    }
}

/// The classification and hit-test result that accompany one pointer event.
#[derive(Clone, Copy, Debug, PartialEq, Eq, Structural)]
pub struct RouteInput {
    pub target: TargetClass,
    pub over_icon: bool,
    pub kind: PointerKind,
}

/// The destinations of a sequence of events, starting from ownership `own`.
pub open spec fn destinations(own: ClickOwnership, steps: Seq<RouteInput>) -> Seq<Destination>
    decreases steps.len(),
{
    if steps.len() == 0 {
        Seq::empty()
    } else {
        let (d, next) = route_spec(own, steps[0].target, steps[0].over_icon, steps[0].kind);
        seq![d] + destinations(next, steps.drop_first())
    }
}

/// The ownership after a sequence of events, starting from ownership `own`.
pub open spec fn ownership_after(own: ClickOwnership, steps: Seq<RouteInput>) -> ClickOwnership
    decreases steps.len(),
{
    if steps.len() == 0 {
        own
    } else {
        let (d, next) = route_spec(own, steps[0].target, steps[0].over_icon, steps[0].kind);
        ownership_after(next, steps.drop_first())
    }
}

proof fn lemma_owned_until_release(own: ClickOwnership, d: Destination, b: Button, steps: Seq<RouteInput>)
    requires
        steps.len() >= 1,
        own == ClickOwnership::OwnedByContent(b) || own == ClickOwnership::OwnedByIconLayer(b),
        d == (if own == ClickOwnership::OwnedByContent(b) {
            Destination::Content
        } else {
            Destination::IconLayer
        }),
        forall|i: int| 0 <= i < steps.len() - 1 ==> steps[i].kind != PointerKind::Release(b),
        steps[steps.len() - 1].kind == PointerKind::Release(b),
    ensures
        destinations(own, steps).len() == steps.len(),
        forall|i: int| 0 <= i < steps.len() ==> destinations(own, steps)[i] == d,
        ownership_after(own, steps) == ClickOwnership::Idle,
    decreases steps.len(),
{
    let rest = steps.drop_first();
    if steps.len() == 1 {
        assert(destinations(ClickOwnership::Idle, rest) =~= Seq::empty());
        assert(rest.len() == 0);
        assert(ownership_after(ClickOwnership::Idle, rest) == ClickOwnership::Idle);
    } else {
        assert(steps[0].kind != PointerKind::Release(b));
        assert forall|i: int| 0 <= i < rest.len() - 1 implies rest[i].kind != PointerKind::Release(b) by {
            assert(rest[i] == steps[i + 1]);
        }
        lemma_owned_until_release(own, d, b, rest);
    }
}

/// An interaction that starts with a press of button `b` on the desktop, continues with
/// moves and ends with the release of `b` is delivered whole to one destination: the one
/// that the hit-test gave at the press, whatever the later events were over. Ownership is
/// back to idle after the release.
pub proof fn lemma_ownership_invariance(steps: Seq<RouteInput>, b: Button)
    requires
        steps.len() >= 2,
        steps[0].kind == PointerKind::Press(b),
        steps[0].target != TargetClass::Other,
        forall|i: int| 1 <= i < steps.len() - 1 ==> steps[i].kind == PointerKind::Move,
        steps[steps.len() - 1].kind == PointerKind::Release(b),
    ensures
        destinations(ClickOwnership::Idle, steps).len() == steps.len(),
        forall|i: int|
            0 <= i < steps.len() ==> destinations(ClickOwnership::Idle, steps)[i] == idle_destination(
                steps[0].target,
                steps[0].over_icon,
            ),
        ownership_after(ClickOwnership::Idle, steps) == ClickOwnership::Idle,
{
    let d = idle_destination(steps[0].target, steps[0].over_icon);
    let own = if d == Destination::Content {
        ClickOwnership::OwnedByContent(b)
    } else {
        ClickOwnership::OwnedByIconLayer(b)
    };
    let rest = steps.drop_first();
    assert forall|i: int| 0 <= i < rest.len() - 1 implies rest[i].kind != PointerKind::Release(b) by {
        assert(rest[i] == steps[i + 1]);
    }
    lemma_owned_until_release(own, d, b, rest);
    let all = destinations(ClickOwnership::Idle, steps);
    assert(all =~= seq![d] + destinations(own, rest));
}

} // verus!
