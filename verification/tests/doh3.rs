use upstream_core::doh3::{
    classify_h3_head_failure, h3_body_complete, h3_body_step, h3_head_within_bound, Doh3Error,
    DohProtocolError, H3BodyCollector, H3HeadFailure,
};

#[test]
fn the_response_head_is_bounded_by_its_field_count() {
    assert_eq!(h3_head_within_bound(32, 32), Ok(()));
    assert_eq!(h3_head_within_bound(33, 32), Err(DohProtocolError::ResponseHeadTooLarge));
    assert_eq!(
        classify_h3_head_failure(H3HeadFailure::HeaderTooBig),
        Doh3Error::Protocol(DohProtocolError::ResponseHeadTooLarge)
    );
    assert_eq!(
        classify_h3_head_failure(H3HeadFailure::Other),
        Doh3Error::Protocol(DohProtocolError::ResponseHeadNotReceived)
    );
}

#[test]
fn each_chunk_is_checked_against_the_body_bound() {
    assert_eq!(h3_body_step(60_000, 5_535, 65_535), Ok(()));
    assert_eq!(h3_body_step(60_000, 5_536, 65_535), Err(DohProtocolError::BodyTooLarge));
    assert_eq!(h3_body_step(usize::MAX, usize::MAX, 65_535), Err(DohProtocolError::BodyTooLarge));
    let mut body = H3BodyCollector::new(20);
    assert_eq!(body.push_chunk(&[1; 12]), Ok(()));
    assert_eq!(body.push_chunk(&[2; 9]), Err(DohProtocolError::BodyTooLarge));
    assert_eq!(body.push_chunk(&[3; 8]), Ok(()));
    let collected = body.finish(Some(20)).expect("complete");
    assert_eq!(collected.len(), 20);
    assert_eq!(&collected[..12], &[1; 12]);
    assert_eq!(&collected[12..], &[3; 8]);
}

#[test]
fn an_incomplete_body_is_never_accepted_as_a_prefix() {
    assert_eq!(h3_body_complete(0, None), Err(DohProtocolError::IncompleteBody));
    assert_eq!(h3_body_complete(40, Some(41)), Err(DohProtocolError::IncompleteBody));
    assert_eq!(h3_body_complete(11, None), Err(DohProtocolError::IncompleteBody));
    assert_eq!(h3_body_complete(12, None), Ok(()));
    assert_eq!(h3_body_complete(40, Some(40)), Ok(()));
    let mut body = H3BodyCollector::new(100);
    assert_eq!(body.push_chunk(&[0; 30]), Ok(()));
    assert_eq!(body.finish(Some(31)), Err(DohProtocolError::IncompleteBody));
}
