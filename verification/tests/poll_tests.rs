use ocr_job_runtime::bundle::{ActionOutcome, Marker, MarkerAction};
use ocr_job_runtime::poll::{idle_phase, is_awaited, poll_step, PollCommand, PollEvent, PollPhase};

fn candidates(names: &[&str]) -> Vec<String> {
    names.iter().map(|name| name.to_string()).collect()
}

fn expect_claim(command: &PollCommand, expected_bundle: &str) {
    match command {
        PollCommand::Perform { bundle, action } => {
            assert_eq!(bundle, expected_bundle);
            assert!(matches!(action, MarkerAction::CreateNew(Marker::Processing)));
        }
        _ => panic!("a claim is expected"),
    }
}

#[test]
fn a_tick_does_nothing_while_a_job_runs() {
    let (phase, command) = poll_step(idle_phase(), PollEvent::Tick { any_job_running: true });
    assert!(matches!(phase, PollPhase::Idle));
    assert!(matches!(command, PollCommand::Finish(Ok(()))));
}

#[test]
fn an_idle_tick_lists_the_inbox() {
    let (phase, command) = poll_step(idle_phase(), PollEvent::Tick { any_job_running: false });
    assert!(matches!(phase, PollPhase::Listing));
    assert!(matches!(command, PollCommand::ListInbox));
}

#[test]
fn a_failed_listing_ends_the_tick_with_its_error() {
    let (phase, command) = poll_step(PollPhase::Listing, PollEvent::Listed(Err("Inbox directory does not exist: /in".to_string())));
    assert!(matches!(phase, PollPhase::Idle));
    match command {
        PollCommand::Finish(Err(reason)) => assert_eq!(reason, "Inbox directory does not exist: /in"),
        _ => panic!("the tick must end with the listing's error"),
    }
}

#[test]
fn an_empty_listing_ends_the_tick() {
    let (phase, command) = poll_step(PollPhase::Listing, PollEvent::Listed(Ok(Vec::new())));
    assert!(matches!(phase, PollPhase::Idle));
    assert!(matches!(command, PollCommand::Finish(Ok(()))));
}

#[test]
fn a_tick_takes_the_first_bundle_it_can_claim_and_no_other() {
    let (phase, command) = poll_step(idle_phase(), PollEvent::Tick { any_job_running: false });
    assert!(matches!(command, PollCommand::ListInbox));
    let (phase, command) = poll_step(phase, PollEvent::Listed(Ok(candidates(&["/in/a", "/in/b", "/in/c"]))));
    expect_claim(&command, "/in/a");
    let (phase, command) = poll_step(phase, PollEvent::Acted(ActionOutcome::AlreadyPresent));
    expect_claim(&command, "/in/b");
    let (phase, command) = poll_step(phase, PollEvent::Acted(ActionOutcome::Done));
    match &command {
        PollCommand::CreateJob { bundle } => assert_eq!(bundle, "/in/b"),
        _ => panic!("the claimed bundle must become a job"),
    }
    let (phase, command) = poll_step(phase, PollEvent::JobCreated(Ok(())));
    match &command {
        PollCommand::Perform { bundle, action } => {
            assert_eq!(bundle, "/in/b");
            match action {
                MarkerAction::Write(Marker::Processed, content) => assert_eq!(content, ""),
                _ => panic!("the processed marker is written first"),
            }
        }
        _ => panic!("the bundle must be marked"),
    }
    let (phase, command) = poll_step(phase, PollEvent::Acted(ActionOutcome::Done));
    match &command {
        PollCommand::Perform { bundle, action } => {
            assert_eq!(bundle, "/in/b");
            assert!(matches!(action, MarkerAction::RemoveIfPresent(Marker::Processing)));
        }
        _ => panic!("the claim must be released"),
    }
    let (phase, command) = poll_step(phase, PollEvent::Acted(ActionOutcome::Done));
    assert!(matches!(phase, PollPhase::Idle));
    assert!(matches!(command, PollCommand::Finish(Ok(()))));
}

#[test]
fn a_tick_ends_when_every_candidate_is_taken() {
    let (phase, _) = poll_step(PollPhase::Listing, PollEvent::Listed(Ok(candidates(&["/in/a", "/in/b"]))));
    let (phase, command) = poll_step(phase, PollEvent::Acted(ActionOutcome::AlreadyPresent));
    expect_claim(&command, "/in/b");
    let (phase, command) = poll_step(phase, PollEvent::Acted(ActionOutcome::AlreadyPresent));
    assert!(matches!(phase, PollPhase::Idle));
    assert!(matches!(command, PollCommand::Finish(Ok(()))));
}

#[test]
fn a_claim_that_fails_ends_the_tick_with_an_error() {
    let (phase, _) = poll_step(PollPhase::Listing, PollEvent::Listed(Ok(candidates(&["/in/a", "/in/b"]))));
    let (phase, command) = poll_step(phase, PollEvent::Acted(ActionOutcome::Failed("read-only".to_string())));
    assert!(matches!(phase, PollPhase::Idle));
    match command {
        PollCommand::Finish(Err(reason)) => assert_eq!(reason, "Failed to create .processing marker"),
        _ => panic!("the tick must end with an error"),
    }
}

#[test]
fn a_job_that_cannot_be_created_marks_the_bundle_failed_and_ends_the_tick_with_the_error() {
    let phase = PollPhase::Creating { bundle: "/in/a".to_string() };
    let (phase, command) = poll_step(phase, PollEvent::JobCreated(Err("copy failed".to_string())));
    match &command {
        PollCommand::Perform { bundle, action } => {
            assert_eq!(bundle, "/in/a");
            match action {
                MarkerAction::Write(Marker::Failed, content) => assert_eq!(content, "copy failed"),
                _ => panic!("the failed marker is written first"),
            }
        }
        _ => panic!("the bundle must be marked"),
    }
    let (phase, command) = poll_step(phase, PollEvent::Acted(ActionOutcome::Done));
    assert!(matches!(command, PollCommand::Perform { action: MarkerAction::RemoveIfPresent(Marker::Processing), .. }));
    let (phase, command) = poll_step(phase, PollEvent::Acted(ActionOutcome::Failed("busy".to_string())));
    assert!(matches!(phase, PollPhase::Idle));
    match command {
        PollCommand::Finish(Err(reason)) => assert_eq!(reason, "copy failed"),
        _ => panic!("the tick must end with the creation's error"),
    }
}

#[test]
fn a_marker_that_cannot_be_written_ends_the_marking_but_not_the_result() {
    let phase = PollPhase::Creating { bundle: "/in/a".to_string() };
    let (phase, _) = poll_step(phase, PollEvent::JobCreated(Ok(())));
    let (phase, command) = poll_step(phase, PollEvent::Acted(ActionOutcome::Failed("disk full".to_string())));
    assert!(matches!(phase, PollPhase::Idle));
    assert!(matches!(command, PollCommand::Finish(Ok(()))));
}

#[test]
fn reports_that_are_not_awaited_end_the_tick() {
    let (phase, command) = poll_step(idle_phase(), PollEvent::JobCreated(Ok(())));
    assert!(matches!(phase, PollPhase::Idle));
    assert!(matches!(command, PollCommand::Finish(Ok(()))));
    let (phase, command) = poll_step(PollPhase::Listing, PollEvent::Tick { any_job_running: false });
    assert!(matches!(phase, PollPhase::Idle));
    assert!(matches!(command, PollCommand::Finish(Ok(()))));
    let beyond = PollPhase::Claiming { candidates: candidates(&["/in/a"]), next: 4 };
    let (phase, command) = poll_step(beyond, PollEvent::Acted(ActionOutcome::Done));
    assert!(matches!(phase, PollPhase::Idle));
    assert!(matches!(command, PollCommand::Finish(Ok(()))));
}

#[test]
fn the_machine_tells_which_report_it_awaits() {
    assert!(is_awaited(&idle_phase(), &PollEvent::Tick { any_job_running: true }));
    assert!(!is_awaited(&idle_phase(), &PollEvent::Listed(Ok(Vec::new()))));
    assert!(is_awaited(&PollPhase::Listing, &PollEvent::Listed(Ok(Vec::new()))));
    assert!(!is_awaited(&PollPhase::Listing, &PollEvent::Acted(ActionOutcome::Done)));
    let claiming = PollPhase::Claiming { candidates: candidates(&["/in/a"]), next: 0 };
    assert!(is_awaited(&claiming, &PollEvent::Acted(ActionOutcome::Done)));
    assert!(!is_awaited(&claiming, &PollEvent::JobCreated(Ok(()))));
    let creating = PollPhase::Creating { bundle: "/in/a".to_string() };
    assert!(is_awaited(&creating, &PollEvent::JobCreated(Ok(()))));
    assert!(!is_awaited(&creating, &PollEvent::Tick { any_job_running: false }));
}
