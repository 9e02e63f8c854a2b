use rqe_iterators::iterator::{IndexResult, RQEValidateStatus, SkipToOutcome, RS_FIELDMASK_ALL};
use rqe_iterators::leaves::{Empty, IdListIterator, RevalidateMode};
use rqe_iterators::optional::Optional;

const MAX_DOC_ID: u64 = 100;
const WEIGHT: f64 = 2.;
const CHILD_DOCS: [u64; 5] = [10, 20, 30, 50, 80];

const EMPTY_MAX_DOC_ID: u64 = 50;
const EMPTY_WEIGHT: f64 = 3.;

fn weight_of(r: &IndexResult) -> f64 {
    f64::from_bits(r.weight)
}

fn mock_child(mode: RevalidateMode) -> IdListIterator {
    IdListIterator::new(CHILD_DOCS.to_vec(), mode).expect("ascending ids")
}

fn setup_optional_iterator_with_mock_child() -> Optional<IdListIterator> {
    Optional::new(MAX_DOC_ID, WEIGHT.to_bits(), mock_child(RevalidateMode::Keep))
}

fn setup_optional_iterator_with_mock_child_and_mode(
    mode: RevalidateMode,
) -> Optional<IdListIterator> {
    Optional::new(MAX_DOC_ID, WEIGHT.to_bits(), mock_child(mode))
}

fn setup_optional_iterator_with_empty_child() -> Optional<Empty> {
    Optional::new(EMPTY_MAX_DOC_ID, EMPTY_WEIGHT.to_bits(), Empty::default())
}

fn assert_virtual(r: &IndexResult, doc_id: u64) {
    assert_eq!(r.doc_id, doc_id);
    assert_eq!(weight_of(r), 0.);
    assert_eq!(r.freq, 1);
    assert_eq!(r.field_mask, RS_FIELDMASK_ALL);
}

#[test]
fn test_cpp_read_mixed_results() {
    let mut it = setup_optional_iterator_with_mock_child();

    assert_eq!(MAX_DOC_ID as usize, it.num_estimated());

    for expected_id in 1..=MAX_DOC_ID {
        let outcome = it.read().expect("read without error").expect("some result");
        assert_eq!(outcome.doc_id, expected_id);

        let is_real_hit = CHILD_DOCS.contains(&outcome.doc_id);

        if is_real_hit {
            assert_eq!(weight_of(&outcome), WEIGHT);
            assert_eq!(
                weight_of(&it.current().expect("current to equal the returned result")),
                WEIGHT,
            );
        } else {
            assert_eq!(weight_of(&outcome), 0.);
            assert_eq!(outcome.freq, 1);
            assert_eq!(outcome.field_mask, RS_FIELDMASK_ALL);
        }

        assert_eq!(it.last_doc_id(), expected_id);
        assert_eq!(
            it.current()
                .expect("current to equal the returned result")
                .doc_id,
            expected_id,
        );
    }

    assert!(it.read().expect("no error to be returned").is_none());
    assert!(it.at_eof());
}

#[test]
fn test_cpp_skip_to_real_hit() {
    let mut it = setup_optional_iterator_with_mock_child();

    const SKIP_TO_DOC_ID: u64 = 20;

    match it
        .skip_to(SKIP_TO_DOC_ID)
        .expect("no error to be returned while skipping")
    {
        Some(SkipToOutcome::Found(result)) => {
            assert_eq!(result.doc_id, SKIP_TO_DOC_ID);
            assert_eq!(weight_of(&result), WEIGHT);
        }
        outcome @ (None | Some(SkipToOutcome::NotFound(_))) => {
            panic!("unexpected outcome: {outcome:?}");
        }
    }

    let current = it
        .current()
        .expect("to have a current result which is from child");
    assert_eq!(current.doc_id, SKIP_TO_DOC_ID);
    assert_eq!(weight_of(&current), WEIGHT);
    assert_eq!(it.last_doc_id(), SKIP_TO_DOC_ID);
}

#[test]
fn test_cpp_skip_to_virtual_hit() {
    let mut it = setup_optional_iterator_with_mock_child();

    const SKIP_TO_DOC_ID: u64 = 25;

    match it
        .skip_to(SKIP_TO_DOC_ID)
        .expect("no error to be returned while skipping")
    {
        Some(SkipToOutcome::Found(result)) => {
            assert_eq!(result.doc_id, SKIP_TO_DOC_ID);
            assert_eq!(weight_of(&result), 0.);
        }
        outcome @ (None | Some(SkipToOutcome::NotFound(_))) => {
            panic!("unexpected outcome: {outcome:?}");
        }
    }

    let current = it
        .current()
        .expect("to have a current result which is NOT from child");
    assert_eq!(current.doc_id, SKIP_TO_DOC_ID);
    assert_eq!(weight_of(&current), 0.);
    assert_eq!(it.last_doc_id(), SKIP_TO_DOC_ID);
}

#[test]
fn test_cpp_skip_to_sequence() {
    let mut it = setup_optional_iterator_with_mock_child();

    const TARGETS: [u64; 10] = [5, 15, 25, 35, 45, 55, 65, 75, 85, 95];

    for target in TARGETS {
        match it
            .skip_to(target)
            .expect("no error to be returned while skipping")
        {
            Some(SkipToOutcome::Found(result)) => {
                assert_eq!(result.doc_id, target);
            }
            outcome @ (None | Some(SkipToOutcome::NotFound(_))) => {
                panic!("unexpected outcome: {outcome:?}");
            }
        }

        assert_eq!(it.current().unwrap().doc_id, target);
        assert_eq!(it.last_doc_id(), target);

        let is_real_hit = CHILD_DOCS.contains(&target);

        if is_real_hit {
            assert_eq!(weight_of(&it.current().unwrap()), WEIGHT);
        } else {
            assert_eq!(weight_of(&it.current().unwrap()), 0.);
        }
    }
}

#[test]
fn test_cpp_rewind_behavior() {
    let mut it = setup_optional_iterator_with_mock_child();

    for _ in 0..10 {
        let _ = it
            .read()
            .expect("read without error")
            .expect("read some result, be it virtual or real");
    }
    assert_eq!(it.last_doc_id(), 10);

    it.rewind();
    assert_eq!(it.last_doc_id(), 0);
    assert!(!it.at_eof());

    assert_eq!(
        it.current()
            .expect("iterator to have a current result after rewind")
            .doc_id,
        0,
    );

    let result = it.read().expect("read without error").expect("some result");
    assert_eq!(result.doc_id, 1);
}

#[test]
fn test_cpp_eof_behavior() {
    let mut it = setup_optional_iterator_with_mock_child();

    match it
        .skip_to(MAX_DOC_ID)
        .expect("no error to be returned while skipping")
    {
        Some(SkipToOutcome::Found(result)) => {
            assert_eq!(result.doc_id, MAX_DOC_ID);
        }
        outcome @ (None | Some(SkipToOutcome::NotFound(_))) => {
            panic!("unexpected outcome: {outcome:?}");
        }
    }

    assert_eq!(it.current().unwrap().doc_id, MAX_DOC_ID);
    assert_eq!(it.last_doc_id(), MAX_DOC_ID);

    assert!(it.read().expect("no error to be returned").is_none());
    assert!(it.at_eof());

    assert!(it.read().expect("no error to be returned").is_none());
    assert!(
        it.skip_to(MAX_DOC_ID + 1)
            .expect("no error to be returned while skipping beyond max")
            .is_none()
    );
}

#[test]
fn test_cpp_weight_application() {
    let mut it = setup_optional_iterator_with_mock_child();

    for doc_id in CHILD_DOCS {
        it.rewind();
        match it
            .skip_to(doc_id)
            .expect("no error to be returned while skipping")
        {
            Some(SkipToOutcome::Found(result)) => {
                assert_eq!(result.doc_id, doc_id);
                assert_eq!(weight_of(&result), WEIGHT);
            }
            outcome @ (None | Some(SkipToOutcome::NotFound(_))) => {
                panic!("unexpected outcome: {outcome:?}");
            }
        }

        let current = it
            .current()
            .expect("to have a current result which should be from child");
        assert_eq!(current.doc_id, doc_id);
        assert_eq!(weight_of(&current), WEIGHT);
    }
}

#[test]
fn test_cpp_virtual_result_weight() {
    let mut it = setup_optional_iterator_with_mock_child();

    match it
        .skip_to(15)
        .expect("no error to be returned while skipping")
    {
        Some(SkipToOutcome::Found(result)) => {
            assert_eq!(result.doc_id, 15);
            assert_eq!(weight_of(&result), 0.);
        }
        outcome @ (None | Some(SkipToOutcome::NotFound(_))) => {
            panic!("unexpected outcome: {outcome:?}");
        }
    }

    let current = it
        .current()
        .expect("to have a current result which should be virtual");
    assert_eq!(current.doc_id, 15);
    assert_eq!(weight_of(&current), 0.);
    assert_eq!(it.last_doc_id(), 15);
}

#[test]
fn test_cpp_read_all_virtual_results() {
    let mut it = setup_optional_iterator_with_empty_child();

    for expected_id in 1..=EMPTY_MAX_DOC_ID {
        let result = it
            .read()
            .expect("read without error")
            .expect("read some result, be it virtual or real");
        assert_virtual(&result, expected_id);
        assert_eq!(it.last_doc_id(), expected_id);

        let current = it
            .current()
            .expect("to have a current result which should be virtual");
        assert_virtual(&current, expected_id);
    }

    assert!(it.read().expect("no error to be returned").is_none());
    assert!(it.at_eof());
}

#[test]
fn test_cpp_skip_to_virtual_hits() {
    let mut it = setup_optional_iterator_with_empty_child();

    const TARGETS: [u64; 5] = [5, 15, 25, 35, 45];

    for target in TARGETS {
        match it
            .skip_to(target)
            .expect("no error to be returned while skipping")
        {
            Some(SkipToOutcome::Found(result)) => {
                assert_eq!(result.doc_id, target);
                assert_eq!(it.last_doc_id(), target);
            }
            outcome @ (None | Some(SkipToOutcome::NotFound(_))) => {
                panic!("unexpected outcome: {outcome:?}");
            }
        }

        let current = it.current().expect("to have a current result");
        assert_eq!(current.doc_id, target);
        assert_eq!(weight_of(&current), 0.);
        assert_eq!(it.last_doc_id(), target);
    }
}

#[test]
fn optional_cpp_test_cpp_rewind_behavior() {
    let mut it = setup_optional_iterator_with_empty_child();

    for _ in 0..10 {
        let _ = it
            .read()
            .expect("read without error")
            .expect("read some result, be it virtual or real");
    }
    assert_eq!(it.last_doc_id(), 10);

    it.rewind();
    assert_eq!(it.last_doc_id(), 0);
    assert!(!it.at_eof());

    let result = it
        .read()
        .expect("read without error")
        .expect("read some result, be it virtual or real");
    assert_virtual(&result, 1);

    let current = it
        .current()
        .expect("to have a current result which should be virtual");
    assert_virtual(&current, 1);
    assert_eq!(it.last_doc_id(), 1);
}

#[test]
fn optional_cpp_test_cpp_eof_behavior() {
    let mut it = setup_optional_iterator_with_empty_child();

    match it
        .skip_to(EMPTY_MAX_DOC_ID)
        .expect("no error to be returned while skipping")
    {
        Some(SkipToOutcome::Found(result)) => {
            assert_virtual(&result, EMPTY_MAX_DOC_ID);
        }
        outcome @ (None | Some(SkipToOutcome::NotFound(_))) => {
            panic!("unexpected outcome: {outcome:?}");
        }
    }

    let current = it
        .current()
        .expect("to have a current result which should be virtual");
    assert_virtual(&current, EMPTY_MAX_DOC_ID);
    assert_eq!(it.last_doc_id(), EMPTY_MAX_DOC_ID);

    assert!(it.read().expect("no error to be returned").is_none());
    assert!(it.at_eof());

    assert!(it.read().expect("no error to be returned").is_none());
    assert!(
        it.skip_to(EMPTY_MAX_DOC_ID + 1)
            .expect("no error to be returned while skipping beyond max")
            .is_none()
    );
}

#[test]
fn test_cpp_virtual_result_properties() {
    let mut it = setup_optional_iterator_with_empty_child();

    let result = it
        .read()
        .expect("read without error")
        .expect("read some result, be it virtual or real");
    assert_virtual(&result, 1);

    let current = it
        .current()
        .expect("to have a current result which should be virtual");
    assert_virtual(&current, 1);
    assert_eq!(it.last_doc_id(), 1);
}

#[test]
fn test_cpp_revalidate_ok() {
    let mut it = setup_optional_iterator_with_mock_child_and_mode(RevalidateMode::Keep);

    let _ = it
        .read()
        .expect("read without error")
        .expect("read some result, be it virtual or real");
    let _ = it
        .read()
        .expect("read without error")
        .expect("read some result, be it virtual or real");

    let status = it.revalidate().expect("revalidate without error");
    assert!(matches!(status, RQEValidateStatus::Valid));

    assert_eq!(it.child().expect("child still there").revalidate_count(), 1);

    let _ = it
        .read()
        .expect("read without error after revalidate")
        .expect("read some result after revalidate");
}

#[test]
fn test_cpp_revalidate_aborted() {
    let mut it = setup_optional_iterator_with_mock_child_and_mode(RevalidateMode::Abort);

    let _ = it
        .read()
        .expect("read without error")
        .expect("read some result, be it virtual or real");

    let status = it.revalidate().expect("revalidate without error");
    assert!(matches!(status, RQEValidateStatus::Valid));

    let result = it
        .read()
        .expect("read without error after revalidate")
        .expect("read some result after revalidate");
    assert_eq!(weight_of(&result), 0.);
}

#[test]
fn test_cpp_revalidate_moved() {
    let mut it = setup_optional_iterator_with_mock_child_and_mode(RevalidateMode::Move);

    const DOC_ID: u64 = 10;
    match it
        .skip_to(DOC_ID)
        .expect("no error to be returned while skipping")
    {
        Some(SkipToOutcome::Found(result)) => {
            assert_eq!(result.doc_id, DOC_ID);
        }
        outcome @ (None | Some(SkipToOutcome::NotFound(_))) => {
            panic!("unexpected outcome: {outcome:?}");
        }
    }
    assert_eq!(it.last_doc_id(), DOC_ID);

    let status = it.revalidate().expect("revalidate without error");
    assert!(matches!(
        status,
        RQEValidateStatus::Valid | RQEValidateStatus::Moved { .. }
    ));

    let _ = it
        .read()
        .expect("read returns either some result or EOF after revalidate");
}

#[test]
fn test_cpp_revalidate_moved_virtual_result() {
    let mut it = setup_optional_iterator_with_mock_child_and_mode(RevalidateMode::Move);

    const DOC_ID: u64 = 15;
    match it
        .skip_to(DOC_ID)
        .expect("no error to be returned while skipping")
    {
        Some(SkipToOutcome::Found(result)) => {
            assert_eq!(result.doc_id, DOC_ID);
        }
        outcome @ (None | Some(SkipToOutcome::NotFound(_))) => {
            panic!("unexpected outcome: {outcome:?}");
        }
    }
    assert_eq!(it.last_doc_id(), DOC_ID);

    let status = it.revalidate().expect("revalidate without error");
    assert!(matches!(status, RQEValidateStatus::Valid));

    let _ = it
        .read()
        .expect("read without error after revalidate")
        .expect("read some result after revalidate");
}
