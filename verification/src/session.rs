use vstd::prelude::*;

use crate::acquire::assembled_bytes;
use crate::acquire::concat_bytes;
use crate::acquire::lemma_assembled_is_delivery_concat;
use crate::acquire::Chunk;
use crate::acquire::FrameAcquirer;
use crate::persist::artifact_bytes_spec;
use crate::persist::artifact_filename_seq;
use crate::persist::decoded_gray;
use crate::persist::FramePersister;
use crate::persist::OutputArtifact;
use crate::settings::CameraSettings;
use crate::timefmt::Timestamp;

verus! {

/// Everything the camera delivered for one acquisition: the chunks in
/// delivery order and the completion instant taken right after acquisition
/// finished.
pub struct CaptureDelivery {
    pub chunks: Vec<Chunk>,
    pub stamp: Timestamp,
}

/// A fatal condition that aborts the timed loop: the delivery channel
/// failed to supply an acquisition, or persistence gave up on a frame.
#[derive(Clone, Copy, PartialEq, Eq, Structural, Debug)]
pub enum SessionError {
    Acquisition,
    Persistence,
}

/// Fires capture requests at a fixed period. The first tick is due
/// immediately; after each firing the next deadline moves one period on,
/// so persistence latency stretches the effective cadence rather than
/// shrinking the wait below the period.
pub struct IntervalScheduler {
    pub period_ms: u64,
    pub next_deadline_ms: u64,
}

impl IntervalScheduler {
    pub fn new(now_ms: u64, period_ms: u64) -> (s: Self)
        ensures
            s.period_ms == period_ms,
            s.next_deadline_ms == now_ms,
    {
        IntervalScheduler { period_ms, next_deadline_ms: now_ms }
    }

    /// Milliseconds still to wait at `now_ms` before the pending tick may
    /// fire: zero once the deadline has passed.
    pub fn wait_before_tick(&self, now_ms: u64) -> (w: u64)
        ensures
            w == if now_ms >= self.next_deadline_ms {
                0u64
            } else {
                (self.next_deadline_ms - now_ms) as u64
            },
    {
        if now_ms >= self.next_deadline_ms {
            0
        } else {
            self.next_deadline_ms - now_ms
        }
    }

    /// Record that the pending tick fired: the next deadline moves exactly
    /// one period on.
    pub fn tick_fired(&mut self)
        requires
            old(self).next_deadline_ms + old(self).period_ms <= u64::MAX,
        ensures
            final(self).period_ms == old(self).period_ms,
            final(self).next_deadline_ms == old(self).next_deadline_ms + old(self).period_ms,
    {
        self.next_deadline_ms = self.next_deadline_ms + self.period_ms;
    }
}

/// With no errors the loop's cadence is never faster than the period:
/// when `times[0]` is the session start and `times[k]` the completion of
/// tick `k`, each at least one period after the one before, the `n`
/// persisted frames take total elapsed time at least `n * period`.
pub proof fn lemma_session_elapsed(times: Seq<int>, period: int, n: int)
    requires
        n >= 0,
        times.len() == n + 1,
        period >= 0,
        forall|k: int| 1 <= k <= n ==> #[trigger] times[k] >= times[k - 1] + period,
    ensures
        times[n] >= times[0] + n * period,
    decreases n,
{
    if n == 0 {
        assert(times[0] >= times[0] + 0 * period) by (nonlinear_arith);
    } else {
        let prefix = times.take(n);
        assert(prefix.len() == n);
        assert forall|k: int| 1 <= k <= n - 1 implies #[trigger] prefix[k] >= prefix[k - 1]
            + period by {
            assert(prefix[k] == times[k]);
            assert(prefix[k - 1] == times[k - 1]);
            assert(times[k] >= times[k - 1] + period);
        }
        lemma_session_elapsed(prefix, period, n - 1);
        assert(prefix[n - 1] == times[n - 1]);
        assert(prefix[0] == times[0]);
        assert(times[n] >= times[n - 1] + period);
        assert((n - 1) * period + period == n * period) by (nonlinear_arith);
    }
}

/// Whether persistence can produce a file for this delivery's frame under
/// these settings (it always can when the frame fails to decode; a
/// decodable frame needs one of the two re-encodes to succeed).
pub open spec fn delivery_ok(d: CaptureDelivery, settings: CameraSettings) -> bool {
    artifact_bytes_spec(
        assembled_bytes(d.chunks@),
        settings.encoding,
        settings.quality as u8,
    ) is Some
}

/// The bytes of the file planned for a delivery's frame.
pub open spec fn planned_bytes(d: CaptureDelivery, settings: CameraSettings) -> Seq<u8> {
    artifact_bytes_spec(
        assembled_bytes(d.chunks@),
        settings.encoding,
        settings.quality as u8,
    )->Some_0
}

/// The name of the file planned for a delivery's frame.
pub open spec fn planned_name(d: CaptureDelivery, settings: CameraSettings) -> Seq<char> {
    artifact_filename_seq(assembled_bytes(d.chunks@), settings.encoding, d.stamp)
}

/// Frame integrity through the pipeline: in a well-formed delivery (only
/// the last chunk carries the final flag) the frame handed to persistence
/// is exactly the delivery-order concatenation of the delivered chunks —
/// none dropped, none reordered — and when that frame fails declared-format
/// decoding, the planned file holds exactly those bytes.
pub proof fn lemma_delivery_frame_integrity(d: CaptureDelivery, settings: CameraSettings)
    requires
        forall|i: int| 0 <= i < d.chunks@.len() - 1 ==> !(#[trigger] d.chunks@[i]).is_final,
    ensures
        assembled_bytes(d.chunks@) == concat_bytes(d.chunks@),
        decoded_gray(concat_bytes(d.chunks@), settings.encoding is Png) is None ==> planned_bytes(
            d,
            settings,
        ) == concat_bytes(d.chunks@),
{
    lemma_assembled_is_delivery_concat(d.chunks@);
}

/// Run the strictly sequential capture-and-persist loop over a session's
/// deliveries: `deliveries[0]` is the priming acquisition issued on
/// reaching ready (assembled into the reused buffer, then discarded), and
/// each later delivery yields exactly one planned file, in tick order.
///
/// Succeeds with exactly `n` planned files if and only if the channel
/// supplied the priming acquisition plus `n` frames and persistence gave
/// up on none of them; a missing acquisition or an abandoned frame aborts
/// the session.
pub fn run_captures(deliveries: &Vec<CaptureDelivery>, settings: &CameraSettings, n: usize) -> (r:
    Result<Vec<OutputArtifact>, SessionError>)
    requires
        settings.valid(),
        forall|i: int|
            0 <= i < deliveries@.len() ==> assembled_bytes(#[trigger] deliveries@[i].chunks@).len()
                <= usize::MAX,
    ensures
        r is Ok <==> (deliveries@.len() > n && forall|k: int|
            1 <= k <= n ==> delivery_ok(#[trigger] deliveries@[k], *settings)),
        r is Ok ==> r->Ok_0@.len() == n,
        r is Ok ==> forall|k: int|
            0 <= k < n ==> (#[trigger] r->Ok_0@[k]).bytes@ == planned_bytes(
                deliveries@[k + 1],
                *settings,
            ),
        r is Ok ==> forall|k: int|
            0 <= k < n ==> (#[trigger] r->Ok_0@[k]).filename@ == planned_name(
                deliveries@[k + 1],
                *settings,
            ),
        r is Err ==> (r->Err_0 is Acquisition <==> deliveries@.len() <= n),
{
    let len = deliveries.len();
    if len <= n {
        return Err(SessionError::Acquisition);
    }
    let persister = FramePersister::new(settings);
    let mut acq = FrameAcquirer::new();
    acq.acquire_frame(&deliveries[0].chunks);
    let mut artifacts: Vec<OutputArtifact> = Vec::new();
    let mut k: usize = 1;
    while k <= n
        invariant
            1 <= k <= n + 1,
            len == deliveries@.len(),
            len > n,
            settings.valid(),
            persister.settings == *settings,
            artifacts@.len() == k - 1,
            forall|i: int|
                0 <= i < deliveries@.len() ==> assembled_bytes(
                    #[trigger] deliveries@[i].chunks@,
                ).len() <= usize::MAX,
            forall|j: int| 1 <= j < k ==> delivery_ok(#[trigger] deliveries@[j], *settings),
            forall|j: int|
                0 <= j < k - 1 ==> (#[trigger] artifacts@[j]).bytes@ == planned_bytes(
                    deliveries@[j + 1],
                    *settings,
                ),
            forall|j: int|
                0 <= j < k - 1 ==> (#[trigger] artifacts@[j]).filename@ == planned_name(
                    deliveries@[j + 1],
                    *settings,
                ),
        decreases n + 1 - k,
    {
        acq.acquire_frame(&deliveries[k].chunks);
        match persister.plan_artifact(acq.frame_bytes(), &deliveries[k].stamp) {
            Ok(artifact) => {
                artifacts.push(artifact);
            },
            Err(_) => {
                return Err(SessionError::Persistence);
            },
        }
        k = k + 1;
    }
    Ok(artifacts)
}

} // verus!
