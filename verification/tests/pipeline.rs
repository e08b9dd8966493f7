use video_encoder::config::{EncoderConfig, FrameData};
use video_encoder::error::PipelineError;
use video_encoder::pipeline::EncoderPipeline;
use video_encoder::worker::{worker_step, WorkerAction, WorkerEvent, WorkerState};

fn test_config() -> EncoderConfig {
    EncoderConfig {
        width: 1920,
        height: 1080,
        fps: 30,
        bitrate: 5000000,
    }
}

fn frame(timestamp: i64, len: usize) -> FrameData {
    FrameData {
        data: vec![0u8; len],
        timestamp,
    }
}

#[test]
fn test_encoder_creation() {
    let config = EncoderConfig {
        width: 1920,
        height: 1080,
        fps: 30,
        bitrate: 5000000,
    };

    let pipeline = EncoderPipeline::new(config);
    assert!(pipeline.is_ok());
}

#[test]
fn test_encoder_start_stop() {
    let config = EncoderConfig {
        width: 1920,
        height: 1080,
        fps: 30,
        bitrate: 5000000,
    };

    let mut pipeline = EncoderPipeline::new(config).unwrap();
    assert!(pipeline.start().is_ok());
    assert!(pipeline.stop().is_ok());
}

#[test]
fn test_frame_submission() {
    let config = EncoderConfig {
        width: 1920,
        height: 1080,
        fps: 30,
        bitrate: 5000000,
    };

    let mut pipeline = EncoderPipeline::new(config).unwrap();
    pipeline.start().unwrap();

    let frame = FrameData {
        data: vec![0u8; 1920 * 1080 * 3],
        timestamp: 0,
    };

    assert!(pipeline.submit_frame(frame).is_ok());

    pipeline.stop().unwrap();
    assert!(pipeline.get_encoded_frames() > 0);
}

#[test]
fn exact_count_after_stop() {
    let mut pipeline = EncoderPipeline::new(test_config()).unwrap();
    pipeline.start().unwrap();
    for i in 0..5 {
        assert!(pipeline.submit_frame(frame(i, 16)).is_ok());
    }
    assert!(pipeline.stop().is_ok());
    assert_eq!(pipeline.get_encoded_frames(), 5);
}

#[test]
fn submit_before_start_fails_not_running() {
    let mut pipeline = EncoderPipeline::new(test_config()).unwrap();
    assert_eq!(
        pipeline.submit_frame(frame(0, 8)),
        Err(PipelineError::NotRunning)
    );
}

#[test]
fn submit_after_stop_fails_not_running() {
    let mut pipeline = EncoderPipeline::new(test_config()).unwrap();
    pipeline.start().unwrap();
    pipeline.submit_frame(frame(0, 8)).unwrap();
    pipeline.stop().unwrap();
    assert_eq!(
        pipeline.submit_frame(frame(1, 8)),
        Err(PipelineError::NotRunning)
    );
    // The rejected frame is not counted.
    assert_eq!(pipeline.get_encoded_frames(), 1);
}

#[test]
fn double_start_fails_already_running() {
    let mut pipeline = EncoderPipeline::new(test_config()).unwrap();
    assert!(pipeline.start().is_ok());
    assert_eq!(pipeline.start(), Err(PipelineError::AlreadyRunning));
    // The failed start changed nothing: the pipeline still runs.
    assert!(pipeline.submit_frame(frame(0, 8)).is_ok());
    pipeline.stop().unwrap();
    assert_eq!(pipeline.get_encoded_frames(), 1);
}

#[test]
fn double_stop_is_idempotent() {
    let mut pipeline = EncoderPipeline::new(test_config()).unwrap();
    pipeline.start().unwrap();
    pipeline.submit_frame(frame(0, 8)).unwrap();
    assert!(pipeline.stop().is_ok());
    assert_eq!(pipeline.get_encoded_frames(), 1);
    assert!(pipeline.stop().is_ok());
    assert_eq!(pipeline.get_encoded_frames(), 1);
}

#[test]
fn stop_before_any_start_is_ok() {
    let mut pipeline = EncoderPipeline::new(test_config()).unwrap();
    assert!(pipeline.stop().is_ok());
    assert_eq!(pipeline.get_encoded_frames(), 0);
}

#[test]
fn empty_payload_accepted_and_counted() {
    let mut pipeline = EncoderPipeline::new(test_config()).unwrap();
    pipeline.start().unwrap();
    assert!(pipeline.submit_frame(frame(7, 0)).is_ok());
    pipeline.stop().unwrap();
    assert_eq!(pipeline.get_encoded_frames(), 1);
}

#[test]
fn full_queue_makes_room_without_loss() {
    let mut pipeline = EncoderPipeline::new(test_config()).unwrap();
    pipeline.start().unwrap();
    // 64 frames fill the queue; each of the next 6 submissions first hands
    // the oldest buffered frame to the processing step to make room.
    for i in 0..70 {
        assert!(pipeline.submit_frame(frame(i, 4)).is_ok());
    }
    assert_eq!(pipeline.get_encoded_frames(), 6);
    pipeline.stop().unwrap();
    assert_eq!(pipeline.get_encoded_frames(), 70);
}

#[test]
fn restart_keeps_accumulating() {
    let mut pipeline = EncoderPipeline::new(test_config()).unwrap();
    pipeline.start().unwrap();
    pipeline.submit_frame(frame(0, 8)).unwrap();
    pipeline.submit_frame(frame(1, 8)).unwrap();
    pipeline.stop().unwrap();
    assert_eq!(pipeline.get_encoded_frames(), 2);

    // A second start re-creates the queue the stop consumed.
    assert!(pipeline.start().is_ok());
    for i in 2..5 {
        assert!(pipeline.submit_frame(frame(i, 8)).is_ok());
    }
    pipeline.stop().unwrap();
    assert_eq!(pipeline.get_encoded_frames(), 5);
}

#[test]
fn concurrent_submitters_lose_nothing() {
    // Several callers submit concurrently; however their submissions
    // interleave, the count after the drain is the total submitted.
    let pipeline = std::sync::Arc::new(std::sync::Mutex::new(
        EncoderPipeline::new(test_config()).unwrap(),
    ));
    pipeline.lock().unwrap().start().unwrap();

    crossbeam::scope(|scope| {
        for caller in 0..4 {
            let pipeline = std::sync::Arc::clone(&pipeline);
            scope.spawn(move |_| {
                for i in 0..10 {
                    let mut guard = pipeline.lock().unwrap();
                    assert!(guard.submit_frame(frame(caller * 10 + i, 8)).is_ok());
                }
            });
        }
    })
    .unwrap();

    let mut guard = pipeline.lock().unwrap();
    guard.stop().unwrap();
    assert_eq!(guard.get_encoded_frames(), 40);
}

#[test]
fn config_is_kept() {
    let pipeline = EncoderPipeline::new(test_config()).unwrap();
    let config = pipeline.config();
    assert_eq!(config.width, 1920);
    assert_eq!(config.height, 1080);
    assert_eq!(config.fps, 30);
    assert_eq!(config.bitrate, 5000000);
}

#[test]
fn worker_processes_frame_even_when_stopping() {
    // A frame received after the running flag is cleared is still
    // processed: a stop drains, it does not discard.
    let (state, action) = worker_step(WorkerState::Draining, false, WorkerEvent::Frame(frame(0, 8)));
    assert_eq!(state, WorkerState::Draining);
    assert!(matches!(action, WorkerAction::Process(_)));
}

#[test]
fn worker_keeps_waiting_while_running() {
    let (state, action) = worker_step(WorkerState::Draining, true, WorkerEvent::TimedOut);
    assert_eq!(state, WorkerState::Draining);
    assert!(matches!(action, WorkerAction::Wait));
}

#[test]
fn worker_exits_on_timeout_once_stopped() {
    let (state, action) = worker_step(WorkerState::Draining, false, WorkerEvent::TimedOut);
    assert_eq!(state, WorkerState::Terminated);
    assert!(matches!(action, WorkerAction::Exit));
}

#[test]
fn worker_exits_when_queue_closes_even_while_running() {
    let (state, action) = worker_step(WorkerState::Draining, true, WorkerEvent::Closed);
    assert_eq!(state, WorkerState::Terminated);
    assert!(matches!(action, WorkerAction::Exit));
}

#[test]
fn worker_termination_is_final() {
    let (state, action) = worker_step(WorkerState::Terminated, true, WorkerEvent::Frame(frame(0, 8)));
    assert_eq!(state, WorkerState::Terminated);
    assert!(matches!(action, WorkerAction::Exit));
}

#[test]
fn error_descriptions() {
    assert_eq!(PipelineError::NotRunning.describe(), "encoder not running");
    assert_eq!(
        PipelineError::AlreadyRunning.describe(),
        "encoder already running"
    );
    assert_eq!(
        PipelineError::ChannelClosed.describe(),
        "encoder channel not available"
    );
    assert_eq!(
        PipelineError::JoinFailed.describe(),
        "failed to join worker thread"
    );
}
