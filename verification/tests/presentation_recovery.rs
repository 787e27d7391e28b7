use lmage::presentation::{classify, Recovery, SurfaceFailure};

#[test]
fn a_presented_frame_needs_no_recovery() {
    assert_eq!(classify(&Ok(())), Recovery::Proceed);
}

#[test]
fn a_lost_surface_is_reconfigured() {
    assert_eq!(classify(&Err(SurfaceFailure::Lost)), Recovery::Reconfigure);
}

#[test]
fn an_outdated_surface_is_reconfigured() {
    assert_eq!(classify(&Err(SurfaceFailure::Outdated)), Recovery::Reconfigure);
}

#[test]
fn out_of_memory_terminates() {
    assert_eq!(classify(&Err(SurfaceFailure::OutOfMemory)), Recovery::Terminate);
}

#[test]
fn a_timeout_skips_the_frame() {
    assert_eq!(classify(&Err(SurfaceFailure::Timeout)), Recovery::Skip);
}
