//! What the host captures: the chosen monitor or window, the lists offered
//! in the settings panel, and where the cursor is drawn.

use vstd::prelude::*;

use crate::text::{trim, trimmed};

verus! {

/// The screen source a host streams.
#[derive(Clone, Copy, Debug, PartialEq, Eq, Structural)]
pub enum StreamTarget {
    /// A monitor, by its id.
    Monitor(u32),
    /// A window, by its id.
    Window(u32),
}

/// The target a session starts with: the first monitor, or monitor 0 when
/// there is none.
pub open spec fn initial_target_of(monitor_ids: Seq<u32>) -> StreamTarget {
    if monitor_ids.len() > 0 {
        StreamTarget::Monitor(monitor_ids[0])
    } else {
        StreamTarget::Monitor(0)
    }
}

/// The target a session starts with, from the ids of the attached monitors
/// in the order the system lists them.
pub fn initial_target(monitor_ids: &Vec<u32>) -> (t: StreamTarget)
    ensures
        t == initial_target_of(monitor_ids@),
{
    if monitor_ids.len() > 0 {
        StreamTarget::Monitor(monitor_ids[0])
    } else {
        StreamTarget::Monitor(0)
    }
}

/// The position of the first source whose id is `id`, in the order the
/// system lists the sources.
pub fn find_source(ids: &Vec<u32>, id: u32) -> (r: Option<usize>)
    ensures
        r matches Some(i) ==> i < ids@.len() && ids@[i as int] == id && forall|k: int|
            0 <= k < i ==> ids@[k] != id,
        r is None ==> forall|k: int| 0 <= k < ids@.len() ==> ids@[k] != id,
{
    let mut i: usize = 0;
    while i < ids.len()
        invariant
            0 <= i <= ids@.len(),
            forall|k: int| 0 <= k < i ==> ids@[k] != id,
        decreases ids@.len() - i,
    {
        if ids[i] == id {
            return Some(i);
        }
        i = i + 1;
    }
    None
}

/// Sources as id and name, by their views.
pub open spec fn sources_view(v: Seq<(u32, String)>) -> Seq<(u32, Seq<char>)> {
    v.map_values(|w: (u32, String)| (w.0, w.1@))
}

/// The windows offered for capture: those whose title is not blank, in the
/// order given.
pub open spec fn titled_windows(s: Seq<(u32, Seq<char>)>) -> Seq<(u32, Seq<char>)>
    decreases s.len(),
{
    if s.len() == 0 {
        s
    } else if trimmed(s.last().1).len() == 0 {
        titled_windows(s.drop_last())
    } else {
        titled_windows(s.drop_last()).push(s.last())
    }
}

/// Whether a window title is not blank.
pub fn has_title(title: &str) -> (r: bool)
    ensures
        r == (trimmed(title@).len() > 0),
{
    !trim(title).as_str().is_empty()
}

/// The windows to offer for capture, from all open windows.
pub fn titled_windows_of(windows: &Vec<(u32, String)>) -> (r: Vec<(u32, String)>)
    ensures
        sources_view(r@) == titled_windows(sources_view(windows@)),
{
    let ghost all = sources_view(windows@);
    let mut r: Vec<(u32, String)> = Vec::new();
    let mut i: usize = 0;
    while i < windows.len()
        invariant
            0 <= i <= windows@.len(),
            all == sources_view(windows@),
            sources_view(r@) == titled_windows(all.take(i as int)),
        decreases windows@.len() - i,
    {
        let id = windows[i].0;

        assert(all.take(i + 1).drop_last() =~= all.take(i as int));
        assert(all.take(i + 1).last() == all[i as int]);
        assert(all[i as int] == (windows@[i as int].0, windows@[i as int].1@));
        if has_title(windows[i].1.as_str()) {
            let name = windows[i].1.clone();
            r.push((id, name));
            assert(sources_view(r@) =~= titled_windows(all.take(i as int)).push(all[i as int]));
        }
        i = i + 1;
    }
    assert(all.take(i as int) =~= all);
    r
}

/// Whether the cursor at (`mouse_x`, `mouse_y`) lies on a frame of
/// `width` by `height` pixels. The sizes are compared as `i32`, as the
/// capture loop does.
pub open spec fn cursor_on_frame(mouse_x: i32, mouse_y: i32, width: u32, height: u32) -> bool {
    &&& mouse_x >= 0
    &&& mouse_y >= 0
    &&& mouse_x < width as i32
    &&& mouse_y < height as i32
}

/// Whether the cursor is drawn onto a captured frame.
pub fn cursor_visible(mouse_x: i32, mouse_y: i32, width: u32, height: u32) -> (r: bool)
    ensures
        r == cursor_on_frame(mouse_x, mouse_y, width, height),
{
    mouse_x >= 0 && mouse_y >= 0 && mouse_x < width as i32 && mouse_y < height as i32
}

/// The caption of the monitor list.
pub fn monitor_caption(target: StreamTarget) -> (r: &'static str)
    ensures
        target is Monitor ==> r@ == "Monitor Selected"@,
        target is Window ==> r@ == "Select Monitor..."@,
{
    match target {
        StreamTarget::Monitor(_) => "Monitor Selected",
        _ => "Select Monitor...",
    }
}

/// The caption of the window list.
pub fn window_caption(target: StreamTarget) -> (r: &'static str)
    ensures
        target is Window ==> r@ == "Window Selected"@,
        target is Monitor ==> r@ == "Select Window..."@,
{
    match target {
        StreamTarget::Window(_) => "Window Selected",
        _ => "Select Window...",
    }
}

} // verus!
