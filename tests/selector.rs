use ui_overlay::error::{Error, ErrorKind};
use ui_overlay::selection::Region;
use ui_overlay::selector::{outcome_from_select, region_or_cancelled};
use ui_overlay::session::OverlayError;

#[test]
fn outcomes_map_cancellation_to_none() {
    let r = Region::new(1, 2, 3, 4, 1000);
    assert!(matches!(outcome_from_select(Ok(r)), Ok(Some(x)) if x == r));
    assert!(matches!(outcome_from_select(Err(OverlayError::Cancelled)), Ok(None)));
    assert!(matches!(outcome_from_select(Err(OverlayError::Internal("x".to_string()))), Err(OverlayError::Internal(_))));
    assert!(matches!(region_or_cancelled(Ok(None)), Err(OverlayError::Cancelled)));
    assert!(matches!(region_or_cancelled(Ok(Some(r))), Ok(x) if x == r));
}

#[test]
fn error_keeps_kind_and_message() {
    let e = Error::new(ErrorKind::Capture, "no screen".to_string());
    assert_eq!(e.kind, ErrorKind::Capture);
    assert_eq!(e.message, "no screen");
    assert_eq!(ErrorKind::Capture.describe(), "capture failed");
}
