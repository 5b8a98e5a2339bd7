//! Monitor selection rules of the portable (xcap) capture backend, where a
//! requested monitor may be given as an enumeration index or a native id.
use vstd::prelude::*;

use crate::capture_error::CaptureError;

verus! {

/// Where a request for monitor `requested` resolves among `ids`: the
/// enumeration index `requested` when it is in range, else the first
/// monitor whose id is `requested`.
pub open spec fn spec_resolve_index_first(ids: Seq<u32>, requested: u32) -> Option<int> {
    if requested < ids.len() {
        Some(requested as int)
    } else if exists|i: int| 0 <= i < ids.len() && ids[i] == requested {
        Some(
            choose|i: int|
                0 <= i < ids.len() && ids[i] == requested && forall|j: int|
                    0 <= j < i ==> ids[j] != requested,
        )
    } else {
        None
    }
}

/// Resolve a requested monitor: index semantics win over id matches, for
/// frontend callers that pass a monitor index.
pub fn resolve_requested_monitor_position(monitor_ids: &[u32], requested: u32) -> (r: Option<usize>)
    ensures
        requested < monitor_ids@.len() ==> r == Some(requested as usize),
        requested >= monitor_ids@.len() ==> match r {
            Some(i) => i < monitor_ids@.len() && monitor_ids@[i as int] == requested && forall|j: int|
                0 <= j < i ==> monitor_ids@[j] != requested,
            None => forall|j: int| 0 <= j < monitor_ids@.len() ==> monitor_ids@[j] != requested,
        },
{
    let index = requested as usize;
    if index < monitor_ids.len() {
        return Some(index);
    }
    let mut i: usize = 0;
    while i < monitor_ids.len()
        invariant
            i <= monitor_ids@.len(),
            monitor_ids@.len() <= requested,
            forall|j: int| 0 <= j < i ==> monitor_ids@[j] != requested,
        decreases monitor_ids@.len() - i,
    {
        if monitor_ids[i] == requested {
            return Some(i);
        }
        i = i + 1;
    }
    None
}

/// Which monitor this backend grabs. Ids the platform cannot read are
/// given as `u32::MAX`. A requested monitor that cannot be resolved falls
/// back, like no request at all, to the first primary monitor, else the
/// last one listed; an empty listing is `NoMonitors`.
pub fn select_monitor(ids: &Vec<u32>, primary: &Vec<bool>, monitor_id: Option<u32>) -> (r: Result<
    usize,
    CaptureError,
>)
    requires
        ids@.len() == primary@.len(),
    ensures
        ids@.len() == 0 ==> r == Err::<usize, CaptureError>(CaptureError::NoMonitors),
        ids@.len() > 0 ==> match r {
            Ok(i) => i < ids@.len() && {
                let resolved = match monitor_id {
                    Some(id) => spec_resolve_index_first(ids@, id),
                    None => None,
                };
                match resolved {
                    Some(p) => i == p,
                    None => if exists|j: int| 0 <= j < primary@.len() && primary@[j] {
                        primary@[i as int] && forall|j: int| 0 <= j < i ==> !primary@[j]
                    } else {
                        i == ids@.len() - 1
                    },
                }
            },
            Err(_) => false,
        },
{
    if ids.len() == 0 {
        return Err(CaptureError::NoMonitors);
    }
    if let Some(id) = monitor_id {
        let found = resolve_requested_monitor_position(ids.as_slice(), id);
        proof {
            if id >= ids@.len() {
                if exists|i: int| 0 <= i < ids@.len() && ids@[i] == id {
                    let c = choose|i: int|
                        0 <= i < ids@.len() && ids@[i] == id && forall|j: int|
                            0 <= j < i ==> ids@[j] != id;
                    match found {
                        Some(p) => {
                            if c < p {
                            } else if p < c {
                            }
                            assert(c == p);
                        },
                        None => {
                            let w = choose|i: int| 0 <= i < ids@.len() && ids@[i] == id;
                            assert(ids@[w] != id);
                        },
                    }
                }
            }
        }
        if let Some(pos) = found {
            return Ok(pos);
        }
        proof {
            if id < ids@.len() {
                assert(found == Some(id as usize));
            }
            assert(spec_resolve_index_first(ids@, id) is None);
        }
    }
    let mut i: usize = 0;
    while i < primary.len()
        invariant
            i <= primary@.len(),
            ids@.len() == primary@.len(),
            ids@.len() > 0,
            (match monitor_id {
                Some(id) => spec_resolve_index_first(ids@, id),
                None => None,
            }) is None,
            forall|j: int| 0 <= j < i ==> !primary@[j],
        decreases primary@.len() - i,
    {
        if primary[i] {
            return Ok(i);
        }
        i = i + 1;
    }
    Ok(ids.len() - 1)
}

} // verus!
