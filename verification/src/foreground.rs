//! Best-effort guess of the foreground application at capture time.
use vstd::prelude::*;

use crate::grab::WindowSnapshot;

verus! {

/// The application and window title a capture is attributed to.
#[derive(Debug, Clone, PartialEq, Eq)]
pub struct ForegroundInfo {
    pub app_name: String,
    pub window_title: String,
}

/// The window listing does not guarantee z-order, so the first window that
/// is not minimized stands for the foreground window.
pub fn foreground_from(windows: &Vec<WindowSnapshot>) -> (r: Option<ForegroundInfo>)
    ensures
        match r {
            Some(f) => exists|i: int|
                0 <= i < windows@.len() && !windows@[i].minimized && f.app_name == windows@[i].app_name
                    && f.window_title == windows@[i].title && forall|j: int|
                    0 <= j < i ==> windows@[j].minimized,
            None => forall|j: int| 0 <= j < windows@.len() ==> windows@[j].minimized,
        },
{
    let mut i: usize = 0;
    while i < windows.len()
        invariant
            i <= windows@.len(),
            forall|j: int| 0 <= j < i ==> windows@[j].minimized,
        decreases windows@.len() - i,
    {
        if !windows[i].minimized {
            let f = ForegroundInfo {
                app_name: windows[i].app_name.clone(),
                window_title: windows[i].title.clone(),
            };
            proof {
                assert(0 <= i < windows@.len() && !windows@[i as int].minimized);
            }
            return Some(f);
        }
        i = i + 1;
    }
    None
}

} // verus!
