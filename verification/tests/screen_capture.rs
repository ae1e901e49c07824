use adabraka_gpui::screen_capture::{
    stream_termination_from_error, ScreenCaptureStreamTermination, TerminationTracker,
    SC_STREAM_ERROR_USER_STOPPED,
};
use adabraka_gpui::screen_capture::{screen_meta_for_display, source_metadata, ScreenDescription, ScreenMeta};

/// A capture source whose streams each own a termination callback; the
/// callbacks are modelled by the list of statuses each stream received.
struct TestSource {
    tracker: TerminationTracker,
    received: Vec<Vec<ScreenCaptureStreamTermination>>,
}

impl TestSource {
    fn new() -> Self {
        TestSource { tracker: TerminationTracker::new(), received: Vec::new() }
    }

    fn stream_with_termination(&mut self) -> usize {
        let (stream, replaced) = self.tracker.start_stream();
        self.received.push(Vec::new());
        if let Some(previous) = replaced {
            self.received[previous].push(ScreenCaptureStreamTermination::Cancelled);
        }
        stream
    }

    fn finish_stream(&mut self, termination: ScreenCaptureStreamTermination) {
        if let Some(stream) = self.tracker.finish_stream() {
            self.received[stream].push(termination);
        }
    }

    fn drop_stream(&mut self, stream: usize) {
        if self.tracker.drop_stream(stream) {
            self.received[stream].push(ScreenCaptureStreamTermination::Cancelled);
        }
    }
}

#[test]
fn user_stopped_stream_error_is_cancelled() {
    assert_eq!(
        stream_termination_from_error(-3817, "The stream was stopped by the user".into()),
        ScreenCaptureStreamTermination::Cancelled
    );
    assert_eq!(SC_STREAM_ERROR_USER_STOPPED, -3817);
}

#[test]
fn runtime_stream_error_preserves_its_failure_description() {
    assert_eq!(
        stream_termination_from_error(-3811, "Screen capture failed".into()),
        ScreenCaptureStreamTermination::Failed("Screen capture failed".into())
    );
}

#[test]
fn terminal_notification_is_delivered_once() {
    let mut source = TestSource::new();
    let stream = source.stream_with_termination();

    source.finish_stream(ScreenCaptureStreamTermination::Failed("capture device disconnected".into()));
    source.finish_stream(ScreenCaptureStreamTermination::Ended);

    assert_eq!(
        source.received[stream],
        vec![ScreenCaptureStreamTermination::Failed("capture device disconnected".into())]
    );
}

#[test]
fn screen_capture_source_reports_its_first_terminal_status() {
    let mut source = TestSource::new();
    let stream = source.stream_with_termination();

    source.finish_stream(ScreenCaptureStreamTermination::Failed("capture device disconnected".into()));
    source.finish_stream(ScreenCaptureStreamTermination::Ended);
    source.drop_stream(stream);

    assert_eq!(source.received[stream].len(), 1);
    assert!(matches!(
        &source.received[stream][0],
        ScreenCaptureStreamTermination::Failed(message) if message == "capture device disconnected"
    ));
}

#[test]
fn dropping_screen_capture_stream_reports_cancelled_once() {
    let mut source = TestSource::new();
    let stream = source.stream_with_termination();

    source.drop_stream(stream);
    assert_eq!(source.received[stream], vec![ScreenCaptureStreamTermination::Cancelled]);

    source.finish_stream(ScreenCaptureStreamTermination::Ended);
    assert_eq!(source.received[stream], vec![ScreenCaptureStreamTermination::Cancelled]);
}

#[test]
fn replacing_a_screen_capture_stream_keeps_callback_ownership_isolated() {
    let mut source = TestSource::new();
    let first_stream = source.stream_with_termination();
    let second_stream = source.stream_with_termination();

    assert_eq!(source.received[first_stream], vec![ScreenCaptureStreamTermination::Cancelled]);
    source.drop_stream(first_stream);
    assert!(source.received[second_stream].is_empty());

    source.finish_stream(ScreenCaptureStreamTermination::Ended);
    assert_eq!(source.received[second_stream], vec![ScreenCaptureStreamTermination::Ended]);
    source.drop_stream(second_stream);
    assert_eq!(source.received[second_stream], vec![ScreenCaptureStreamTermination::Ended]);
    assert_eq!(source.received[first_stream], vec![ScreenCaptureStreamTermination::Cancelled]);
}

#[test]
fn displays_are_labelled_by_the_last_named_screen_with_their_number() {
    let screens = vec![
        ScreenDescription { display_id: Some(1), name: Some("Built-in Retina Display".to_string()) },
        ScreenDescription { display_id: None, name: Some("Ghost".to_string()) },
        ScreenDescription { display_id: Some(2), name: None },
        ScreenDescription { display_id: Some(3), name: Some("DELL U2720Q".to_string()) },
        ScreenDescription { display_id: Some(3), name: Some("DELL U2720Q (2)".to_string()) },
    ];
    assert_eq!(
        screen_meta_for_display(&screens, 1),
        Some(ScreenMeta { label: "Built-in Retina Display".to_string(), is_main: true })
    );
    assert_eq!(screen_meta_for_display(&screens, 2), None);
    assert_eq!(
        screen_meta_for_display(&screens, 3),
        Some(ScreenMeta { label: "DELL U2720Q (2)".to_string(), is_main: false })
    );

    let meta = source_metadata(3, 3840, 2160, screen_meta_for_display(&screens, 3));
    assert_eq!(meta.id, 3);
    assert_eq!(meta.label.as_deref(), Some("DELL U2720Q (2)"));
    assert_eq!(meta.is_main, Some(false));
    assert_eq!((meta.width, meta.height), (3840, 2160));
    let unlabelled = source_metadata(2, 1, 1, None);
    assert_eq!((unlabelled.label, unlabelled.is_main), (None, None));
}
