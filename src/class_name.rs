use vstd::prelude::*;

verus! {

/// Window class of the shell's root background window.
pub const SHELL_ROOT_CLASS: &'static str = "Progman";
/// Window class of a background-layer container.
pub const CONTAINER_CLASS: &'static str = "WorkerW";
/// Window class of the shell's icon view.
pub const ICON_VIEW_CLASS: &'static str = "SHELLDLL_DefView";
/// Window class of the list control that draws the desktop icons.
pub const ICON_LIST_CLASS: &'static str = "SysListView32";
/// Window class of the shell's immersive core window that can lie over the desktop.
pub const SHELL_CORE_CLASS: &'static str = "Windows.UI.Core.CoreWindow";
/// Window class of the embedded renderer's input-receiving window.
pub const RENDERER_INPUT_CLASS: &'static str = "Chrome_RenderWidgetHostHWND";

/// Whether a class name, as the UTF-16 units the platform reports, spells `expected`
/// unit for character.
pub open spec fn class_matches(name: Seq<u16>, expected: Seq<char>) -> bool {
    name.len() == expected.len() && forall|i: int| 0 <= i < name.len() ==> name[i] as u32 == expected[i] as u32
}

/// Compares a reported class name with an expected one without allocating: this runs on
/// the global input path for pointer events.
pub fn is_class_name(name: &[u16], expected: &str) -> (r: bool)
    ensures
        r == class_matches(name@, expected@),
{
    let n = expected.unicode_len();
    if name.len() != n {
        return false;
    }
    let mut i: usize = 0;
    while i < n
        invariant
            n == expected@.len(),
            name@.len() == n,
            i <= n,
            forall|j: int| 0 <= j < i ==> name@[j] as u32 == expected@[j] as u32,
        decreases n - i,
    {
        let c = expected.get_char(i);
        if name[i] as u32 != c as u32 {
            return false;
        }
        i = i + 1;
    }
    true
}

} // verus!
