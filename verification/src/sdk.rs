//! Decisions the SDK makes while scanning for connected cameras.

use vstd::prelude::*;

use crate::error::QHYError;

verus! {

/// What the scan makes of one camera it found.
#[derive(Debug, Clone, Copy, PartialEq, Eq, Structural)]
pub enum ScanOutcome {
    /// The camera could not be opened or closed again; it is left out.
    Skipped,
    /// The camera is listed, without a filter wheel.
    Camera,
    /// The camera is listed, and a filter wheel plugged into it too.
    CameraWithFilterWheel,
}

/// Decides what to list for a camera found by the scan, given whether it
/// could be opened, what the filter wheel probe on the open camera reported,
/// and whether it could be closed again. A failed probe counts as no filter
/// wheel; a camera that fails to open or to close is left out.
pub fn scan_outcome(opened: bool, filter_wheel_probe: Result<bool, QHYError>, closed: bool) -> (o:
    ScanOutcome)
    ensures
        o == (if !opened || !closed {
            ScanOutcome::Skipped
        } else if filter_wheel_probe == Ok::<bool, QHYError>(true) {
            ScanOutcome::CameraWithFilterWheel
        } else {
            ScanOutcome::Camera
        }),
{
    if !opened || !closed {
        return ScanOutcome::Skipped;
    }
    match filter_wheel_probe {
        Ok(true) => ScanOutcome::CameraWithFilterWheel,
        _ => ScanOutcome::Camera,
    }
}

/// The cameras and filter wheels a scan lists, each by the index under which
/// the scan found its camera.
#[derive(Debug)]
pub struct ScanLists {
    /// Indices of the listed cameras, in scan order
    pub cameras: Vec<u32>,
    /// Indices of the cameras whose filter wheel is listed, in scan order
    pub filter_wheels: Vec<u32>,
}

/// The indices of the cameras listed after a scan whose outcomes, camera by
/// camera, are `outcomes`.
pub open spec fn listed_cameras(outcomes: Seq<ScanOutcome>) -> Seq<u32>
    decreases outcomes.len(),
{
    if outcomes.len() == 0 {
        Seq::empty()
    } else {
        let earlier = listed_cameras(outcomes.drop_last());
        if outcomes.last() == ScanOutcome::Skipped {
            earlier
        } else {
            earlier.push((outcomes.len() - 1) as u32)
        }
    }
}

/// The indices of the cameras whose filter wheel is listed after a scan
/// whose outcomes, camera by camera, are `outcomes`.
pub open spec fn listed_filter_wheels(outcomes: Seq<ScanOutcome>) -> Seq<u32>
    decreases outcomes.len(),
{
    if outcomes.len() == 0 {
        Seq::empty()
    } else {
        let earlier = listed_filter_wheels(outcomes.drop_last());
        if outcomes.last() == ScanOutcome::CameraWithFilterWheel {
            earlier.push((outcomes.len() - 1) as u32)
        } else {
            earlier
        }
    }
}

/// Records what the scan made of the camera with index `index`.
pub fn scan_step(lists: ScanLists, index: u32, outcome: ScanOutcome) -> (r: ScanLists)
    ensures
        r.cameras@ == (if outcome == ScanOutcome::Skipped {
            lists.cameras@
        } else {
            lists.cameras@.push(index)
        }),
        r.filter_wheels@ == (if outcome == ScanOutcome::CameraWithFilterWheel {
            lists.filter_wheels@.push(index)
        } else {
            lists.filter_wheels@
        }),
{
    let mut r = lists;
    match outcome {
        ScanOutcome::Skipped => {},
        ScanOutcome::Camera => {
            r.cameras.push(index);
        },
        ScanOutcome::CameraWithFilterWheel => {
            r.cameras.push(index);
            r.filter_wheels.push(index);
        },
    }
    r
}

/// The lists of a whole scan, whose outcomes, camera by camera, are
/// `outcomes`.
pub fn scan_lists(outcomes: &Vec<ScanOutcome>) -> (r: ScanLists)
    requires
        outcomes@.len() <= u32::MAX,
    ensures
        r.cameras@ == listed_cameras(outcomes@),
        r.filter_wheels@ == listed_filter_wheels(outcomes@),
{
    let mut lists = ScanLists { cameras: Vec::new(), filter_wheels: Vec::new() };
    let n = outcomes.len();
    for i in 0..n
        invariant
            n == outcomes@.len(),
            n <= u32::MAX,
            lists.cameras@ == listed_cameras(outcomes@.take(i as int)),
            lists.filter_wheels@ == listed_filter_wheels(outcomes@.take(i as int)),
    {
        assert(outcomes@.take(i + 1).drop_last() =~= outcomes@.take(i as int));
        lists = scan_step(lists, i as u32, outcomes[i]);
    }
    assert(outcomes@.take(n as int) =~= outcomes@);
    lists
}

/// A scan lists, in the order it found them, exactly the cameras that could
/// be opened and closed again, and exactly the filter wheels of those among
/// them whose probe reported one; every listed filter wheel's camera is
/// listed too.
pub proof fn lemma_scan_lists(outcomes: Seq<ScanOutcome>)
    requires
        outcomes.len() <= u32::MAX,
    ensures
        forall|i: u32|
            #[trigger] listed_cameras(outcomes).contains(i) <==> (i < outcomes.len()
                && outcomes[i as int] != ScanOutcome::Skipped),
        forall|i: u32|
            #[trigger] listed_filter_wheels(outcomes).contains(i) <==> (i < outcomes.len()
                && outcomes[i as int] == ScanOutcome::CameraWithFilterWheel),
        forall|j: int, k: int|
            0 <= j < k < listed_cameras(outcomes).len() ==> listed_cameras(outcomes)[j]
                < listed_cameras(outcomes)[k],
        forall|j: int, k: int|
            0 <= j < k < listed_filter_wheels(outcomes).len() ==> listed_filter_wheels(
                outcomes,
            )[j] < listed_filter_wheels(outcomes)[k],
        forall|i: u32|
            #[trigger] listed_filter_wheels(outcomes).contains(i) ==> listed_cameras(
                outcomes,
            ).contains(i),
    decreases outcomes.len(),
{
    if outcomes.len() > 0 {
        let earlier = outcomes.drop_last();
        lemma_scan_lists(earlier);
        let last = (outcomes.len() - 1) as u32;
        let cams = listed_cameras(outcomes);
        let wheels = listed_filter_wheels(outcomes);
        let earlier_cams = listed_cameras(earlier);
        let earlier_wheels = listed_filter_wheels(earlier);
        assert forall|i: u32| #[trigger] cams.contains(i) <==> (i < outcomes.len()
            && outcomes[i as int] != ScanOutcome::Skipped) by {
            if i < last {
                assert(outcomes[i as int] == earlier[i as int]);
            }
            if outcomes.last() != ScanOutcome::Skipped {
                if earlier_cams.contains(i) {
                    let j = choose|j: int| 0 <= j < earlier_cams.len() && earlier_cams[j] == i;
                    assert(cams[j] == i);
                }
                if i == last {
                    assert(cams[cams.len() - 1] == i);
                }
                if cams.contains(i) && i != last {
                    let j = choose|j: int| 0 <= j < cams.len() && cams[j] == i;
                    assert(earlier_cams[j] == i);
                }
            }
        }
        assert forall|i: u32| #[trigger] wheels.contains(i) <==> (i < outcomes.len()
            && outcomes[i as int] == ScanOutcome::CameraWithFilterWheel) by {
            if i < last {
                assert(outcomes[i as int] == earlier[i as int]);
            }
            if outcomes.last() == ScanOutcome::CameraWithFilterWheel {
                if earlier_wheels.contains(i) {
                    let j = choose|j: int| 0 <= j < earlier_wheels.len() && earlier_wheels[j] == i;
                    assert(wheels[j] == i);
                }
                if i == last {
                    assert(wheels[wheels.len() - 1] == i);
                }
                if wheels.contains(i) && i != last {
                    let j = choose|j: int| 0 <= j < wheels.len() && wheels[j] == i;
                    assert(earlier_wheels[j] == i);
                }
            }
        }
        assert forall|j: int, k: int| 0 <= j < k < cams.len() implies cams[j] < cams[k] by {
            if outcomes.last() != ScanOutcome::Skipped && k == cams.len() - 1 {
                assert(earlier_cams.contains(cams[j]));
            }
        }
        assert forall|j: int, k: int| 0 <= j < k < wheels.len() implies wheels[j] < wheels[k] by {
            if outcomes.last() == ScanOutcome::CameraWithFilterWheel && k == wheels.len() - 1 {
                assert(earlier_wheels.contains(wheels[j]));
            }
        }
    }
}

} // verus!
