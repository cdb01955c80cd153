use rusty_tcp::capture::BuildAction;
use rusty_tcp::capture::BuildEvent;
use rusty_tcp::capture::Builder;
use rusty_tcp::capture::Capture;
use rusty_tcp::capture::CaptureError;
use rusty_tcp::capture::KernelResource;
use rusty_tcp::capture::StepOutcome;
use rusty_tcp::frame::encode_sample;

/// Drives construction through the success path and returns the capture.
fn build_ready(fd: i32) -> Capture {
    let mut b = Builder::new();
    match b.step(BuildEvent::LoaderInit { ok: true }) {
        StepOutcome::Advance { action } => assert_eq!(action, BuildAction::GetEventFd),
        _ => panic!("expected an advance after loader attachment"),
    }
    match b.step(BuildEvent::EventFd { fd }) {
        StepOutcome::Advance { action } => {
            assert_eq!(action, BuildAction::CreateChannel { fd })
        }
        _ => panic!("expected an advance after a good descriptor"),
    }
    match b.step(BuildEvent::ChannelCreate { ok: true }) {
        StepOutcome::Complete { capture } => capture,
        _ => panic!("expected completion after channel creation"),
    }
}

#[test]
fn teardown_null_loader_releases_nothing() {
    let mut b = Builder::new();
    match b.step(BuildEvent::LoaderInit { ok: false }) {
        StepOutcome::Abort { error, release } => {
            assert_eq!(error, CaptureError::Attach);
            assert!(release.is_empty());
        }
        _ => panic!("expected an abort on a null loader"),
    }
}

#[test]
fn teardown_negative_fd_releases_loader() {
    let mut b = Builder::new();
    let _ = b.step(BuildEvent::LoaderInit { ok: true });
    match b.step(BuildEvent::EventFd { fd: -1 }) {
        StepOutcome::Abort { error, release } => {
            assert_eq!(error, CaptureError::Descriptor(-1));
            assert_eq!(release, vec![KernelResource::Loader]);
        }
        _ => panic!("expected an abort on a negative descriptor"),
    }
}

#[test]
fn teardown_null_channel_releases_loader() {
    let mut b = Builder::new();
    let _ = b.step(BuildEvent::LoaderInit { ok: true });
    let _ = b.step(BuildEvent::EventFd { fd: 5 });
    match b.step(BuildEvent::ChannelCreate { ok: false }) {
        StepOutcome::Abort { error, release } => {
            assert_eq!(error, CaptureError::ChannelCreate);
            assert_eq!(release, vec![KernelResource::Loader]);
        }
        _ => panic!("expected an abort on a null channel"),
    }
}

#[test]
fn successful_build_keeps_descriptor() {
    let capture = build_ready(42);
    assert_eq!(capture.ringbuf_fd(), 42);
}

#[test]
fn close_releases_channel_before_loader() {
    let mut capture = build_ready(3);
    let release = capture.close();
    assert_eq!(release, vec![KernelResource::Channel, KernelResource::Loader]);
}

#[test]
fn no_data_poll_yields_none() {
    let mut capture = build_ready(3);
    capture.begin_poll();
    assert_eq!(capture.finish_poll(0), Ok(None));
}

#[test]
fn negative_poll_count_is_a_failure() {
    let mut capture = build_ready(3);
    capture.begin_poll();
    assert_eq!(capture.finish_poll(-7), Err(CaptureError::Poll(-7)));
    // the capture stays usable: the next cycle works
    capture.begin_poll();
    assert_eq!(capture.finish_poll(0), Ok(None));
}

#[test]
fn one_sample_is_delivered() {
    let mut capture = build_ready(3);
    capture.begin_poll();
    let payload = vec![1u8, 2, 3, 4, 5];
    capture.on_sample(&encode_sample(&payload));
    assert_eq!(capture.finish_poll(1), Ok(Some(payload)));
}

#[test]
fn second_sample_overwrites_first() {
    let mut capture = build_ready(3);
    capture.begin_poll();
    let a = vec![0xaau8; 10];
    let b = vec![0xbbu8; 7];
    capture.on_sample(&encode_sample(&a));
    capture.on_sample(&encode_sample(&b));
    assert_eq!(capture.finish_poll(2), Ok(Some(b)));
}

#[test]
fn three_samples_only_last_survives() {
    let mut capture = build_ready(3);
    capture.begin_poll();
    for k in 0u8..3 {
        capture.on_sample(&encode_sample(&[k; 4]));
    }
    assert_eq!(capture.finish_poll(3), Ok(Some(vec![2u8; 4])));
}

#[test]
fn stale_frame_is_cleared_by_next_cycle() {
    let mut capture = build_ready(3);
    capture.begin_poll();
    capture.on_sample(&encode_sample(&[9u8; 3]));
    // the frame is never read out; the next cycle must not see it
    capture.begin_poll();
    assert_eq!(capture.finish_poll(0), Ok(None));
}
