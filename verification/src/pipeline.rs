//! The pipeline controller: lifecycle control and exact frame accounting.
//!
//! `EncoderPipeline` owns the bounded frame queue and the lifecycle state
//! (a running flag and the processed-frame counter).  Its view is a
//! `PipelineModel`, and every operation's contract pins the new model down
//! exactly through the spec transitions `spec_submit`, `spec_start` and
//! `spec_stop`.  The accounting laws at the end of this module are proved
//! over those same transitions.
//!
//! The controller is single-threaded by construction here: a host that
//! spreads it over threads runs the worker's loop itself (see
//! `crate::worker`) and keeps these transitions as the meaning of each
//! operation.

use vstd::prelude::*;

use crate::config::EncoderConfig;
use crate::config::FrameData;
use crate::error::PipelineError;
use crate::queue::FrameQueue;
use crate::queue::queue_capacity;
use crate::queue::queue_contents;
use crate::worker::drain;
use crate::worker::process_frame;

verus! {

/// How many frames the queue buffers at most; the bound exists for memory
/// control, not for shedding load.
pub const QUEUE_CAPACITY: usize = 64;

/// The pipeline as the contracts see it.
#[verifier::ext_equal]
pub struct PipelineModel {
    /// The configuration the pipeline was created with.
    pub config: EncoderConfig,
    /// Whether the pipeline is between a start and a stop.
    pub running: bool,
    /// Whether the queue (and with it the consumer end) still exists; a
    /// stop consumes it, and the next start re-creates it.
    pub queue_live: bool,
    /// The frames buffered but not yet processed, oldest first.
    pub queued: Seq<FrameData>,
    /// How many frames have been handed to the processing step.
    pub processed: nat,
}

/// The model after a submission.  While running, the frame is appended; if
/// the queue is at capacity, the submitter first makes room by handling the
/// oldest frame in the worker's stead, so no frame is ever dropped and the
/// buffer never grows past the bound.  While stopped, nothing changes.
pub open spec fn spec_submit(m: PipelineModel, frame: FrameData) -> PipelineModel {
    if !m.running {
        m
    } else if m.queued.len() < QUEUE_CAPACITY {
        PipelineModel { queued: m.queued.push(frame), ..m }
    } else {
        PipelineModel {
            queued: m.queued.drop_first().push(frame),
            processed: m.processed + 1,
            ..m
        }
    }
}

/// What a submission returns: it fails exactly when the pipeline is not
/// running.
pub open spec fn spec_submit_result(m: PipelineModel) -> Result<(), PipelineError> {
    if m.running {
        Ok(())
    } else {
        Err(PipelineError::NotRunning)
    }
}

/// The model after a start: the queue is re-created empty if a stop had
/// consumed it, and the running flag is set.  A second start without an
/// intervening stop changes nothing.
pub open spec fn spec_start(m: PipelineModel) -> PipelineModel {
    if m.running {
        m
    } else {
        PipelineModel {
            running: true,
            queue_live: true,
            queued: if m.queue_live {
                m.queued
            } else {
                Seq::<FrameData>::empty()
            },
            ..m
        }
    }
}

/// What a start returns: it fails exactly when the pipeline already runs.
pub open spec fn spec_start_result(m: PipelineModel) -> Result<(), PipelineError> {
    if m.running {
        Err(PipelineError::AlreadyRunning)
    } else {
        Ok(())
    }
}

/// The model after a stop: every buffered frame is drained into the
/// processed count, the queue is consumed, and the running flag is
/// cleared.  A stop of a stopped pipeline changes nothing.
pub open spec fn spec_stop(m: PipelineModel) -> PipelineModel {
    if !m.running {
        m
    } else {
        PipelineModel {
            running: false,
            queue_live: false,
            queued: Seq::<FrameData>::empty(),
            processed: m.processed + m.queued.len(),
            ..m
        }
    }
}

/// A bounded, back-pressured frame pipeline with start/stop lifecycle
/// control and a processed-frame count.
pub struct EncoderPipeline {
    config: EncoderConfig,
    queue: Option<FrameQueue>,
    running: bool,
    encoded_frames: u64,
}

impl View for EncoderPipeline {
    type V = PipelineModel;

    closed spec fn view(&self) -> PipelineModel {
        PipelineModel {
            config: self.config,
            running: self.running,
            queue_live: self.queue is Some,
            queued: match self.queue {
                Some(q) => queue_contents(q),
                None => Seq::<FrameData>::empty(),
            },
            processed: self.encoded_frames as nat,
        }
    }
}

impl EncoderPipeline {
    /// The pipeline's internal invariant: the queue, while it exists, was
    /// created with `QUEUE_CAPACITY` and never holds more than that, and a
    /// running pipeline always holds its queue.
    pub closed spec fn wf(self) -> bool {
        &&& match self.queue {
            Some(q) => queue_capacity(q) == QUEUE_CAPACITY && queue_contents(q).len()
                <= QUEUE_CAPACITY,
            None => true,
        }
        &&& self.running ==> self.queue is Some
    }

    /// Create a pipeline: queue allocated empty, stopped, nothing processed.
    pub fn new(config: EncoderConfig) -> (r: Result<EncoderPipeline, PipelineError>)
        ensures
            r is Ok,
            r->Ok_0.wf(),
            r->Ok_0@ =~= (PipelineModel {
                config,
                running: false,
                queue_live: true,
                queued: Seq::<FrameData>::empty(),
                processed: 0,
            }),
    {
        let queue = FrameQueue::with_capacity(QUEUE_CAPACITY);
        Ok(EncoderPipeline { config, queue: Some(queue), running: false, encoded_frames: 0 })
    }

    /// Submit a frame.
    ///
    /// Fails with `NotRunning` exactly when the pipeline is stopped, and
    /// then changes nothing.  While running it always succeeds: a frame is
    /// never rejected or dropped for lack of space — on a full queue the
    /// call makes room first by handling the oldest frame in the worker's
    /// stead, the synchronous shape of waiting for the worker to catch up.
    pub fn submit_frame(&mut self, frame: FrameData) -> (r: Result<(), PipelineError>)
        requires
            old(self).wf(),
            old(self)@.processed < u64::MAX,
        ensures
            final(self).wf(),
            r == spec_submit_result(old(self)@),
            final(self)@ =~= spec_submit(old(self)@, frame),
    {
        if !self.running {
            return Err(PipelineError::NotRunning);
        }
        match &mut self.queue {
            Some(queue) => {
                if queue.len() == QUEUE_CAPACITY {
                    match queue.pop() {
                        Some(oldest) => {
                            let _ok = process_frame(&oldest, &self.config);
                            self.encoded_frames = self.encoded_frames + 1;
                        },
                        None => {
                            proof {
                                assert(false);
                            }
                        },
                    }
                }
                queue.push(frame);
                Ok(())
            },
            None => {
                // A running pipeline always holds its queue (`wf`), so a
                // racing teardown cannot be observed here; the error is the
                // boundary's name for that impossibility.
                proof {
                    assert(false);
                }
                Err(PipelineError::ChannelClosed)
            },
        }
    }

    /// Start the pipeline.
    ///
    /// Fails with `AlreadyRunning` exactly when it is already running, and
    /// then changes nothing.  Otherwise it re-creates the queue if a prior
    /// stop consumed it — the consumer end can be taken only once — and
    /// sets the running flag; the worker is thereby bound to the queue's
    /// consumer end.
    pub fn start(&mut self) -> (r: Result<(), PipelineError>)
        requires
            old(self).wf(),
        ensures
            final(self).wf(),
            r == spec_start_result(old(self)@),
            final(self)@ =~= spec_start(old(self)@),
    {
        if self.running {
            return Err(PipelineError::AlreadyRunning);
        }
        if self.queue.is_none() {
            self.queue = Some(FrameQueue::with_capacity(QUEUE_CAPACITY));
        }
        self.running = true;
        Ok(())
    }

    /// Stop the pipeline.
    ///
    /// Idempotent: on a stopped pipeline it returns `Ok` at once and
    /// changes nothing.  Otherwise it clears the running flag, drains every
    /// buffered frame through the processing step — a stop never discards
    /// in-flight data — adds them to the processed count, and consumes the
    /// queue, whose consumer end the finished worker keeps.
    pub fn stop(&mut self) -> (r: Result<(), PipelineError>)
        requires
            old(self).wf(),
            old(self)@.processed + old(self)@.queued.len() <= u64::MAX,
        ensures
            final(self).wf(),
            r is Ok,
            final(self)@ =~= spec_stop(old(self)@),
    {
        if !self.running {
            return Ok(());
        }
        self.running = false;
        match self.queue.take() {
            Some(mut queue) => {
                let n = drain(&mut queue, &self.config);
                self.encoded_frames = self.encoded_frames + (n as u64);
            },
            None => {
                proof {
                    assert(false);
                }
            },
        }
        Ok(())
    }

    /// The number of frames handed to the processing step so far: a
    /// point-in-time snapshot of the counter.
    pub fn get_encoded_frames(&self) -> (n: u64)
        ensures
            n == self@.processed,
    {
        self.encoded_frames
    }

    /// The configuration the pipeline was created with.
    pub fn config(&self) -> (c: &EncoderConfig)
        ensures
            c == self@.config,
    {
        &self.config
    }
}

/// The model after a whole sequence of submissions, first element first.
pub open spec fn spec_submit_all(m: PipelineModel, frames: Seq<FrameData>) -> PipelineModel
    decreases frames.len(),
{
    if frames.len() == 0 {
        m
    } else {
        spec_submit_all(spec_submit(m, frames.first()), frames.drop_first())
    }
}

/// One submission to a running pipeline keeps it running, keeps the queue
/// alive, never grows the buffer past the capacity bound, and moves the
/// total of buffered and processed frames up by exactly one: the frame is
/// accounted for, nowhere lost and nowhere counted twice.
pub proof fn lemma_submit_accounts_one(m: PipelineModel, frame: FrameData)
    requires
        m.running,
    ensures
        spec_submit(m, frame).running,
        spec_submit(m, frame).queue_live == m.queue_live,
        spec_submit(m, frame).processed + spec_submit(m, frame).queued.len() == m.processed
            + m.queued.len() + 1,
        m.queued.len() <= QUEUE_CAPACITY ==> spec_submit(m, frame).queued.len()
            <= QUEUE_CAPACITY,
{
}

/// Exact accounting, for any number of frames and any interleaving.
///
/// Submit any sequence of frames to a running pipeline — concurrent
/// submitters serialize into such a sequence, in whatever order — and then
/// stop it: every one of them is accepted, and the processed count ends at
/// exactly the earlier count, plus what was already buffered, plus the
/// number of frames submitted.  No frame is lost and none is counted
/// twice, whatever the order; in particular, starting from a fresh start
/// (nothing buffered, count at zero), the count after the stop is exactly
/// the number of frames submitted.
pub proof fn lemma_exact_accounting(m: PipelineModel, frames: Seq<FrameData>)
    requires
        m.running,
    ensures
        spec_submit_all(m, frames).running,
        spec_stop(spec_submit_all(m, frames)).processed == m.processed + m.queued.len()
            + frames.len(),
    decreases frames.len(),
{
    if frames.len() == 0 {
    } else {
        let m1 = spec_submit(m, frames.first());
        lemma_submit_accounts_one(m, frames.first());
        lemma_exact_accounting(m1, frames.drop_first());
    }
}

/// The capacity bound is a real invariant: a well-formed pipeline never
/// buffers more than `QUEUE_CAPACITY` frames in flight.  Every operation's
/// contract preserves `wf`, so the bound holds across any sequence of
/// calls — the bound is there for memory control, and back-pressure, not
/// dropped frames, is what enforces it.
pub proof fn lemma_wf_bounds_queue(p: EncoderPipeline)
    requires
        p.wf(),
    ensures
        p@.queued.len() <= QUEUE_CAPACITY,
{
}

/// The processed count only ever climbs: a submission or a stop may move
/// it up, a start leaves it alone, and nothing lowers it.
pub proof fn lemma_processed_count_is_monotone(m: PipelineModel, frame: FrameData)
    ensures
        spec_submit(m, frame).processed >= m.processed,
        spec_start(m).processed == m.processed,
        spec_stop(m).processed >= m.processed,
{
}

/// A submission's fate never depends on the frame's payload: whether it is
/// accepted is decided by the running flag alone (`spec_submit_result` does
/// not even take the frame), and any two frames — an empty payload
/// included — leave the buffer at the same length and the processed count
/// at the same value.
pub proof fn lemma_submission_is_payload_agnostic(m: PipelineModel, a: FrameData, b: FrameData)
    ensures
        spec_submit(m, a).running == spec_submit(m, b).running,
        spec_submit(m, a).queue_live == spec_submit(m, b).queue_live,
        spec_submit(m, a).queued.len() == spec_submit(m, b).queued.len(),
        spec_submit(m, a).processed == spec_submit(m, b).processed,
{
}

/// Stopping is idempotent: a second stop in a row finds the pipeline
/// already stopped and is a no-op, so the model after two stops is the
/// model after one.  (Both calls succeed: `stop`'s contract returns `Ok`
/// unconditionally.)
pub proof fn lemma_stop_idempotent(m: PipelineModel)
    ensures
        spec_stop(spec_stop(m)) == spec_stop(m),
{
    assert(spec_stop(spec_stop(m)) =~= spec_stop(m));
}

} // verus!
