use vstd::prelude::*;

use crate::class_name::{class_matches, is_class_name, ICON_LIST_CLASS};
use crate::error::AppError;
use crate::handle::WindowHandle;

verus! {

/// Message sent to the shell root to have it create the background layer.
pub const SPAWN_MESSAGE: u32 = 0x052C;
/// Number of spawn-signal attempts before falling back to the shell root.
pub const MAX_SPAWN_ATTEMPTS: u32 = 5;
/// The wait after attempt `n` is `n` times this many milliseconds.
pub const BACKOFF_STEP_MS: u32 = 200;

/// The parameters of one spawn signal.
#[derive(Clone, Copy, Debug, PartialEq, Eq, Structural)]
pub struct SpawnSignal {
    pub wparam: u64,
    pub lparam: u64,
}

/// The spawn-signal variants, in the order they are sent: shell versions disagree on which
/// one creates the layer, so all are sent.
pub fn spawn_signals() -> (r: Vec<SpawnSignal>)
    ensures
        r@ == seq![
            SpawnSignal { wparam: 0x0D, lparam: 0 },
            SpawnSignal { wparam: 0x0D, lparam: 1 },
            SpawnSignal { wparam: 0, lparam: 0 },
        ],
{
    let mut v = Vec::new();
    v.push(SpawnSignal { wparam: 0x0D, lparam: 0 });
    v.push(SpawnSignal { wparam: 0x0D, lparam: 1 });
    v.push(SpawnSignal { wparam: 0, lparam: 0 });
    proof {
        assert(v@ =~= seq![
            SpawnSignal { wparam: 0x0D, lparam: 0 },
            SpawnSignal { wparam: 0x0D, lparam: 1 },
            SpawnSignal { wparam: 0, lparam: 0 },
        ]);
    }
    v
}

/// The shell root must exist for the desktop layer to be used at all.
pub fn require_shell_root(root: WindowHandle) -> (r: Result<WindowHandle, AppError>)
    ensures
        root.raw != 0 ==> r == Ok::<WindowHandle, AppError>(root),
        root.raw == 0 ==> (r matches Err(AppError::WindowLayer(m)) && m@
            == "Could not find the shell root window"@),
{
    proof {
        reveal_strlit("Could not find the shell root window");
    }
    if root.is_none() {
        Err(AppError::WindowLayer("Could not find the shell root window".to_string()))
    } else {
        Ok(root)
    }
}

// ------------------------------------------------------------------------------------
// Screen bounds
// ------------------------------------------------------------------------------------

/// A rectangle in physical screen coordinates.
#[derive(Clone, Copy, Debug, PartialEq, Eq, Structural)]
pub struct ScreenRect {
    pub left: i32,
    pub top: i32,
    pub right: i32,
    pub bottom: i32,
}

pub open spec fn min_i32(a: i32, b: i32) -> i32 {
    if a <= b {
        a
    } else {
        b
    }
}

pub open spec fn max_i32(a: i32, b: i32) -> i32 {
    if a >= b {
        a
    } else {
        b
    }
}

pub open spec fn union_rect(a: ScreenRect, b: ScreenRect) -> ScreenRect {
    ScreenRect {
        left: min_i32(a.left, b.left),
        top: min_i32(a.top, b.top),
        right: max_i32(a.right, b.right),
        bottom: max_i32(a.bottom, b.bottom),
    }
}

/// The smallest rectangle that holds the first `n` monitors (`n` at least one).
pub open spec fn bounds_of(rs: Seq<ScreenRect>, n: nat) -> ScreenRect
    decreases n,
{
    if n <= 1 {
        rs[0]
    } else {
        union_rect(bounds_of(rs, (n - 1) as nat), rs[n - 1])
    }
}

/// The bounds of the whole virtual screen: the union of every monitor's rectangle.
/// `None` when there is no monitor.
pub fn virtual_bounds(monitors: &[ScreenRect]) -> (r: Option<ScreenRect>)
    ensures
        monitors@.len() == 0 ==> r is None,
        monitors@.len() > 0 ==> r == Some(bounds_of(monitors@, monitors@.len())),
{
    if monitors.len() == 0 {
        return None;
    }
    let mut acc = monitors[0];
    let mut i: usize = 1;
    while i < monitors.len()
        invariant
            1 <= i <= monitors@.len(),
            acc == bounds_of(monitors@, i as nat),
        decreases monitors@.len() - i,
    {
        let m = monitors[i];
        acc = ScreenRect {
            left: if m.left < acc.left { m.left } else { acc.left },
            top: if m.top < acc.top { m.top } else { acc.top },
            right: if m.right > acc.right { m.right } else { acc.right },
            bottom: if m.bottom > acc.bottom { m.bottom } else { acc.bottom },
        };
        i = i + 1;
    }
    Some(acc)
}

/// The length from `lo` to `hi`, held to the range of an `i32` size.
pub open spec fn extent(lo: i32, hi: i32) -> i32 {
    if hi - lo <= 0 {
        0
    } else if hi - lo > i32::MAX {
        i32::MAX
    } else {
        (hi - lo) as i32
    }
}

pub fn span(lo: i32, hi: i32) -> (r: i32)
    ensures
        r == extent(lo, hi),
{
    let d = hi as i64 - lo as i64;
    if d <= 0 {
        0
    } else if d > i32::MAX as i64 {
        i32::MAX
    } else {
        d as i32
    }
}

// ------------------------------------------------------------------------------------
// Container search
// ------------------------------------------------------------------------------------

/// A top-level window seen while enumerating them in z-order.
#[derive(Clone, Copy, Debug, PartialEq, Eq, Structural)]
pub struct TopLevelWindow {
    pub handle: WindowHandle,
    /// Its class is the background-layer container class.
    pub is_container: bool,
    /// The icon view among its children, or none.
    pub icon_view: WindowHandle,
}

/// What the shell's window tree looks like after the spawn signal.
#[derive(Clone, Debug)]
pub struct ShellLayout {
    pub root: WindowHandle,
    /// The icon view as a direct child of the shell root, or none.
    pub root_icon_view: WindowHandle,
    /// A container as a direct child of the shell root, or none.
    pub root_container: WindowHandle,
    /// The top-level windows, in z-order.
    pub top_level: Vec<TopLevelWindow>,
}

/// The container found (none if absent) and the icon view found (none if absent).
#[derive(Clone, Copy, Debug, PartialEq, Eq, Structural)]
pub struct ContainerChoice {
    pub container: WindowHandle,
    pub icon_view: WindowHandle,
}

/// The first top-level window, from index `from` on, that hosts the icon view.
pub open spec fn first_icon_host(ws: Seq<TopLevelWindow>, from: int) -> int
    decreases ws.len() - from,
{
    if from < 0 || from >= ws.len() {
        -1
    } else if ws[from].icon_view.raw != 0 {
        from
    } else {
        first_icon_host(ws, from + 1)
    }
}

/// The first container, from index `from` on, that does not host the icon view.
pub open spec fn next_free_container(ws: Seq<TopLevelWindow>, from: int) -> int
    decreases ws.len() - from,
{
    if from < 0 || from >= ws.len() {
        -1
    } else if ws[from].is_container && ws[from].icon_view.raw == 0 {
        from
    } else {
        next_free_container(ws, from + 1)
    }
}

pub open spec fn container_choice(l: ShellLayout) -> ContainerChoice {
    let ws = l.top_level@;
    if l.root_icon_view.raw != 0 {
        ContainerChoice { container: l.root_container, icon_view: l.root_icon_view }
    } else {
        let i = first_icon_host(ws, 0);
        if i < 0 {
            ContainerChoice { container: WindowHandle { raw: 0 }, icon_view: WindowHandle { raw: 0 } }
        } else {
            let j = next_free_container(ws, i + 1);
            ContainerChoice {
                container: if j < 0 { WindowHandle { raw: 0 } } else { ws[j].handle },
                icon_view: ws[i].icon_view,
            }
        }
    }
}

fn search_icon_host(ws: &Vec<TopLevelWindow>) -> (r: Option<usize>)
    ensures
        r matches Some(i) ==> i == first_icon_host(ws@, 0) && i < ws@.len(),
        r is None ==> first_icon_host(ws@, 0) == -1,
{
    let mut i: usize = 0;
    while i < ws.len()
        invariant
            i <= ws@.len(),
            first_icon_host(ws@, 0) == first_icon_host(ws@, i as int),
        decreases ws@.len() - i,
    {
        if !ws[i].icon_view.is_none() {
            return Some(i);
        }
        i = i + 1;
    }
    None
}

fn search_free_container(ws: &Vec<TopLevelWindow>, from: usize) -> (r: Option<usize>)
    ensures
        r matches Some(j) ==> j == next_free_container(ws@, from as int) && j < ws@.len(),
        r is None ==> next_free_container(ws@, from as int) == -1,
{
    let mut i: usize = from;
    if i > ws.len() {
        return None;
    }
    while i < ws.len()
        invariant
            from <= i <= ws@.len(),
            next_free_container(ws@, from as int) == next_free_container(ws@, i as int),
        decreases ws@.len() - i,
    {
        if ws[i].is_container && ws[i].icon_view.is_none() {
            return Some(i);
        }
        i = i + 1;
    }
    None
}

/// Finds the background container in either topology. Where the icon view is a direct
/// child of the shell root, the container is the root's container child. Otherwise the icon
/// view sits in a top-level window, and the container is the first container after it in
/// z-order that does not host the icon view: reparenting into the icon view's own host would
/// put the content in the wrong place.
pub fn find_container(layout: &ShellLayout) -> (r: ContainerChoice)
    ensures
        r == container_choice(*layout),
{
    if !layout.root_icon_view.is_none() {
        return ContainerChoice { container: layout.root_container, icon_view: layout.root_icon_view };
    }
    match search_icon_host(&layout.top_level) {
        None => ContainerChoice { container: WindowHandle::none(), icon_view: WindowHandle::none() },
        Some(i) => {
            let n = layout.top_level.len();
            assert(i < n);
            let container = match search_free_container(&layout.top_level, i + 1) {
                None => WindowHandle::none(),
                Some(j) => layout.top_level[j].handle,
            };
            ContainerChoice { container, icon_view: layout.top_level[i].icon_view }
        },
    }
}

// ------------------------------------------------------------------------------------
// Retries
// ------------------------------------------------------------------------------------

/// What to do after the search that followed a spawn signal.
#[derive(Clone, Copy, Debug, PartialEq, Eq, Structural)]
pub enum LocateStep {
    /// A container was found.
    Found(ContainerChoice),
    /// Wait this long, send the spawn signals again and search again.
    Retry { wait_ms: u32 },
    /// Give up the search and host the content under the shell root.
    Fallback(ContainerChoice),
}

pub open spec fn locate_step(attempt: u32, root: WindowHandle, found: ContainerChoice) -> LocateStep {
    if found.container.raw != 0 {
        LocateStep::Found(found)
    } else if attempt < MAX_SPAWN_ATTEMPTS {
        LocateStep::Retry { wait_ms: (BACKOFF_STEP_MS * attempt) as u32 }
    } else {
        LocateStep::Fallback(ContainerChoice { container: root, icon_view: found.icon_view })
    }
}

/// Decides what follows the search after spawn attempt `attempt` (counted from one):
/// success, a retry after a wait that grows linearly with the attempt, or, after the last
/// attempt, the degraded fallback to the shell root.
pub fn after_search(attempt: u32, root: WindowHandle, found: ContainerChoice) -> (r: LocateStep)
    requires
        1 <= attempt <= MAX_SPAWN_ATTEMPTS,
    ensures
        r == locate_step(attempt, root, found),
{
    if !found.container.is_none() {
        LocateStep::Found(found)
    } else if attempt < MAX_SPAWN_ATTEMPTS {
        LocateStep::Retry { wait_ms: BACKOFF_STEP_MS * attempt }
    } else {
        LocateStep::Fallback(ContainerChoice { container: root, icon_view: found.icon_view })
    }
}

/// The outcome of the whole search, from the search after attempt `k + 1` on, where
/// `searches[k]` is what the search after attempt `k + 1` found: the number of attempts
/// made and the final step.
pub open spec fn locate_outcome(k: nat, root: WindowHandle, searches: Seq<ContainerChoice>) -> (
    nat,
    LocateStep,
)
    decreases MAX_SPAWN_ATTEMPTS - k,
{
    if k >= MAX_SPAWN_ATTEMPTS {
        (k, LocateStep::Fallback(ContainerChoice { container: root, icon_view: WindowHandle { raw: 0 } }))
    } else {
        let step = locate_step((k + 1) as u32, root, searches[k as int]);
        match step {
            LocateStep::Retry { .. } => locate_outcome(k + 1, root, searches),
            _ => ((k + 1) as nat, step),
        }
    }
}

/// A container that first shows up in the search after attempt `k + 1` (within the
/// attempts allowed) is found on that attempt; one that never shows up in the allowed
/// attempts ends the search cleanly on the last attempt, with the fallback to the root.
pub proof fn lemma_retry_bound(root: WindowHandle, searches: Seq<ContainerChoice>, k: nat)
    requires
        searches.len() >= MAX_SPAWN_ATTEMPTS,
        k < MAX_SPAWN_ATTEMPTS,
        forall|j: int| 0 <= j < k ==> searches[j].container.raw == 0,
    ensures
        searches[k as int].container.raw != 0 ==> locate_outcome(0, root, searches) == (
            (k + 1) as nat,
            LocateStep::Found(searches[k as int]),
        ),
        (forall|j: int| 0 <= j < MAX_SPAWN_ATTEMPTS ==> searches[j].container.raw == 0) ==> locate_outcome(0, root, searches) == (
            MAX_SPAWN_ATTEMPTS as nat,
            LocateStep::Fallback(ContainerChoice { container: root, icon_view: searches[MAX_SPAWN_ATTEMPTS - 1].icon_view }),
        ),
{
    lemma_outcome_skips(root, searches, 0, k);
    if forall|j: int| 0 <= j < MAX_SPAWN_ATTEMPTS ==> searches[j].container.raw == 0 {
        lemma_outcome_skips(root, searches, 0, (MAX_SPAWN_ATTEMPTS - 1) as nat);
    }
}

proof fn lemma_outcome_skips(root: WindowHandle, searches: Seq<ContainerChoice>, from: nat, k: nat)
    requires
        searches.len() >= MAX_SPAWN_ATTEMPTS,
        from <= k < MAX_SPAWN_ATTEMPTS,
        forall|j: int| from <= j < k ==> searches[j].container.raw == 0,
    ensures
        locate_outcome(from, root, searches) == locate_outcome(k, root, searches),
    decreases k - from,
{
    if from < k {
        lemma_outcome_skips(root, searches, from + 1, k);
    }
}

// ------------------------------------------------------------------------------------
// Detection result
// ------------------------------------------------------------------------------------

/// A child window of the icon view, with its class name as reported.
#[derive(Clone, Debug)]
pub struct ChildWindow {
    pub handle: WindowHandle,
    pub class_name: Vec<u16>,
}

/// The first child, from index `from` on, of the icon-list class.
pub open spec fn first_icon_list(cs: Seq<ChildWindow>, from: int) -> int
    decreases cs.len() - from,
{
    if from < 0 || from >= cs.len() {
        -1
    } else if class_matches(cs[from].class_name@, ICON_LIST_CLASS@) {
        from
    } else {
        first_icon_list(cs, from + 1)
    }
}

/// Finds the icon list control among the icon view's children; none when absent, which
/// only makes hiding and showing the icons do nothing.
pub fn find_icon_list(children: &Vec<ChildWindow>) -> (r: WindowHandle)
    ensures
        first_icon_list(children@, 0) < 0 ==> r.raw == 0,
        first_icon_list(children@, 0) >= 0 ==> r == children@[first_icon_list(children@, 0)].handle,
{
    let mut i: usize = 0;
    while i < children.len()
        invariant
            i <= children@.len(),
            first_icon_list(children@, 0) == first_icon_list(children@, i as int),
        decreases children@.len() - i,
    {
        if is_class_name(children[i].class_name.as_slice(), ICON_LIST_CLASS) {
            return children[i].handle;
        }
        i = i + 1;
    }
    WindowHandle::none()
}

/// Where the content surface goes: produced by the locator, read by the injector and by the
/// interceptor, and replaced whole on every re-detection.
#[derive(Clone, Copy, Debug, PartialEq, Eq, Structural)]
pub struct DesktopDetection {
    pub root: WindowHandle,
    /// Process that owns the shell root.
    pub shell_pid: u32,
    pub container: WindowHandle,
    /// The icon list control, or none.
    pub icon_list: WindowHandle,
    pub width: i32,
    pub height: i32,
}

pub open spec fn detection_spec(
    root: WindowHandle,
    shell_pid: u32,
    container: WindowHandle,
    icon_list: WindowHandle,
    monitors: Seq<ScreenRect>,
) -> DesktopDetection {
    let (w, h) = if monitors.len() == 0 {
        (0i32, 0i32)
    } else {
        let b = bounds_of(monitors, monitors.len());
        (extent(b.left, b.right), extent(b.top, b.bottom))
    };
    DesktopDetection { root, shell_pid, container, icon_list, width: w, height: h }
}

/// Puts a detection together; the content is sized to the whole virtual screen.
pub fn assemble_detection(
    root: WindowHandle,
    shell_pid: u32,
    container: WindowHandle,
    icon_list: WindowHandle,
    monitors: &[ScreenRect],
) -> (r: DesktopDetection)
    ensures
        r == detection_spec(root, shell_pid, container, icon_list, monitors@),
{
    let (width, height) = match virtual_bounds(monitors) {
        Some(b) => (span(b.left, b.right), span(b.top, b.bottom)),
        None => (0, 0),
    };
    DesktopDetection { root, shell_pid, container, icon_list, width, height }
}

} // verus!
