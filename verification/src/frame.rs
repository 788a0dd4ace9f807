//! The shared frame buffer and its single-slot handoff protocol.
//!
//! One producer role calls [`FrameBuffer::submit_frame`] at its own rate; one
//! consumer role calls [`FrameBuffer::render_tick`] once per display refresh.
//! The two coordinate through the `updating` / `updated` flags alone: a
//! submission made while a write is in progress or a frame is still pending
//! is dropped, so the renderer only ever sees whole frames.

use vstd::prelude::*;

use crate::error::Error;

verus! {

/// Frame width in pixels, fixed at build time.
pub const WIDTH: usize = 128;

/// Frame height in pixels, fixed at build time.
pub const HEIGHT: usize = 128;

/// Bytes per pixel: red, green, blue, alpha.
pub const CHANNELS: usize = 4;

/// Capacity of the shared buffer: one whole frame, and nothing else ever.
pub const BUFFER_SIZE: usize = WIDTH * HEIGHT * CHANNELS;

/// Every byte of the initial sentinel frame: opaque white.
pub const SENTINEL_BYTE: u8 = 255;

/// The mathematical state of a frame buffer: the bytes it holds and the two
/// handoff flags.
#[verifier::ext_equal]
pub struct FrameModel {
    /// The bytes of the one frame slot.
    pub contents: Seq<u8>,
    /// True exactly while a producer write is in progress.
    pub updating: bool,
    /// True while the slot holds a frame the renderer has not yet consumed.
    pub updated: bool,
}

impl FrameModel {
    /// Well-formedness: the slot always holds exactly one frame's worth of
    /// bytes, and a write in progress and a pending frame never coexist.
    pub open spec fn wf(self) -> bool {
        &&& self.contents.len() == BUFFER_SIZE
        &&& !(self.updating && self.updated)
    }

    /// The slot is free: no write in progress, no frame pending.
    pub open spec fn idle(self) -> bool {
        !self.updating && !self.updated
    }
}

/// The initial sentinel frame: all bytes opaque white.
pub open spec fn sentinel_frame() -> Seq<u8> {
    Seq::new(BUFFER_SIZE as nat, |i: int| SENTINEL_BYTE)
}

/// A submission is accepted exactly when the image has the fixed capacity and
/// the slot is free. Otherwise it is dropped (wrong size) or silently
/// discarded (slot busy): the protocol favours the frame already pending.
pub open spec fn submit_accepts(m: FrameModel, image: Seq<u8>) -> bool {
    &&& image.len() == BUFFER_SIZE
    &&& !m.updated
    &&& !m.updating
}

/// What `submit_frame` returns: only a wrongly-sized buffer is an error; a
/// busy slot drops the frame but still reports success (backpressure, not a
/// failure).
pub open spec fn submit_result(image: Seq<u8>) -> Result<(), Error> {
    if image.len() == BUFFER_SIZE {
        Ok(())
    } else {
        Err(Error::SizeMismatch)
    }
}

/// The state after a submission: on acceptance the slot holds exactly the
/// submitted bytes and a frame is pending; otherwise nothing changes.
pub open spec fn submit_post(m: FrameModel, image: Seq<u8>) -> FrameModel {
    if submit_accepts(m, image) {
        FrameModel { contents: image, updating: false, updated: true }
    } else {
        m
    }
}

/// Whether a render tick presents the buffer to the surface: exactly when a
/// frame is pending.
pub open spec fn tick_presents(m: FrameModel) -> bool {
    m.updated
}

/// The state after a render tick: the pending flag is consumed, the bytes and
/// the write-in-progress flag are untouched.
pub open spec fn tick_post(m: FrameModel) -> FrameModel {
    FrameModel { contents: m.contents, updating: m.updating, updated: false }
}

/// One fixed-capacity RGBA frame slot with the two handoff flags.
///
/// `submit_frame` and `render_tick` are the only mutators; there is no raw
/// access to the bytes.
pub struct FrameBuffer {
    data: Vec<u8>,
    updating_flag: bool,
    updated_flag: bool,
}

impl View for FrameBuffer {
    type V = FrameModel;

    closed spec fn view(&self) -> FrameModel {
        FrameModel {
            contents: self.data@,
            updating: self.updating_flag,
            updated: self.updated_flag,
        }
    }
}

impl FrameBuffer {
    /// Well-formedness of the concrete buffer, stated over its model.
    pub open spec fn wf(self) -> bool {
        self@.wf()
    }

    /// A fresh buffer: the sentinel frame (all opaque white), both flags
    /// clear. Until a frame is submitted, every tick keeps presenting this
    /// sentinel — which is correct, not an error.
    pub fn new() -> (fb: FrameBuffer)
        ensures
            fb.wf(),
            fb@.idle(),
            fb@.contents =~= sentinel_frame(),
    {
        let mut data: Vec<u8> = Vec::new();
        let mut i: usize = 0;
        while i < BUFFER_SIZE
            invariant
                i <= BUFFER_SIZE,
                data@.len() == i,
                forall|j: int| 0 <= j < i ==> data@[j] == SENTINEL_BYTE,
            decreases BUFFER_SIZE - i,
        {
            data.push(SENTINEL_BYTE);
            i = i + 1;
        }
        FrameBuffer { data, updating_flag: false, updated_flag: false }
    }

    /// Producer entry point: offer a whole replacement frame.
    ///
    /// A wrongly-sized buffer is rejected with `SizeMismatch` and changes
    /// nothing. While a write is in progress or a frame is pending the call
    /// returns `Ok` without copying a byte — the new frame is dropped by
    /// design. Otherwise the bytes are copied in order, in place, and the
    /// frame becomes pending.
    pub fn submit_frame(&mut self, image: &Vec<u8>) -> (r: Result<(), Error>)
        requires
            old(self).wf(),
        ensures
            final(self).wf(),
            final(self)@ == submit_post(old(self)@, image@),
            r == submit_result(image@),
    {
        if image.len() != BUFFER_SIZE {
            return Err(Error::SizeMismatch);
        }
        if self.updated_flag || self.updating_flag {
            return Ok(());
        }
        self.updating_flag = true;
        let mut i: usize = 0;
        while i < BUFFER_SIZE
            invariant
                i <= BUFFER_SIZE,
                image@.len() == BUFFER_SIZE,
                self.data@.len() == BUFFER_SIZE,
                self.updating_flag,
                !self.updated_flag,
                forall|j: int| 0 <= j < i ==> self.data@[j] == image@[j],
            decreases BUFFER_SIZE - i,
        {
            let b = image[i];
            self.data.set(i, b);
            i = i + 1;
        }
        self.updating_flag = false;
        self.updated_flag = true;
        proof {
            assert(self@ =~= submit_post(old(self)@, image@));
        }
        Ok(())
    }

    /// Consumer entry point: one invocation of the render loop's body.
    ///
    /// Returns whether the caller must push the buffer to the GPU texture
    /// this cycle — exactly when a frame was pending — and consumes the
    /// pending flag. The bytes themselves are untouched, so the last-known
    /// frame keeps being drawn on the following ticks.
    pub fn render_tick(&mut self) -> (present: bool)
        requires
            old(self).wf(),
        ensures
            final(self).wf(),
            final(self)@ == tick_post(old(self)@),
            present == tick_presents(old(self)@),
    {
        if self.updated_flag {
            self.updated_flag = false;
            true
        } else {
            false
        }
    }

    /// Read-only view of the frame bytes, for the caller that pushes them to
    /// the surface.
    pub fn data(&self) -> (d: &Vec<u8>)
        ensures
            d@ == self@.contents,
    {
        &self.data
    }

    /// Whether a producer write is in progress.
    pub fn is_updating(&self) -> (b: bool)
        ensures
            b == self@.updating,
    {
        self.updating_flag
    }

    /// Whether the slot holds a frame the renderer has not yet consumed.
    pub fn is_updated(&self) -> (b: bool)
        ensures
            b == self@.updated,
    {
        self.updated_flag
    }
}

/// One event of the handoff protocol, as seen at the library boundary.
pub enum FrameEvent {
    /// A producer offered these bytes through `submit_frame`.
    Submit(Seq<u8>),
    /// The render loop ran one `render_tick`.
    Tick,
}

/// The state after one event of the protocol.
pub open spec fn step_post(m: FrameModel, e: FrameEvent) -> FrameModel {
    match e {
        FrameEvent::Submit(image) => submit_post(m, image),
        FrameEvent::Tick => tick_post(m),
    }
}

/// The state after a whole history of events, applied in order.
pub open spec fn run(m: FrameModel, evs: Seq<FrameEvent>) -> FrameModel
    decreases evs.len(),
{
    if evs.len() == 0 {
        m
    } else {
        step_post(run(m, evs.drop_last()), evs.last())
    }
}

/// Event `i` of the history is a submission of `image` that the protocol
/// accepted: the slot was free at that point and the image had the fixed
/// capacity.
pub open spec fn accepted_at(m0: FrameModel, evs: Seq<FrameEvent>, i: int, image: Seq<u8>) -> bool {
    &&& 0 <= i < evs.len()
    &&& evs[i] == FrameEvent::Submit(image)
    &&& submit_accepts(run(m0, evs.take(i)), image)
}

/// No tear, one step: whenever a submission leaves a frame pending, the slot
/// holds exactly the submitted bytes — the copy happens whole or not at all,
/// and the following tick presents those very bytes.
pub proof fn lemma_no_tear(m: FrameModel, image: Seq<u8>)
    requires
        submit_accepts(m, image),
    ensures
        submit_post(m, image).contents == image,
        submit_post(m, image).updated,
        tick_post(submit_post(m, image)).contents == image,
{
}

/// No tear, over whole histories: start from any state with no frame pending
/// and apply any interleaving of submissions and ticks. Whenever a frame is
/// pending, the slot holds exactly the bytes of one accepted submission —
/// never an interleaving of two submitted buffers.
pub proof fn lemma_no_tear_trace(m0: FrameModel, evs: Seq<FrameEvent>)
    requires
        !m0.updated,
    ensures
        run(m0, evs).updated ==> exists|i: int, image: Seq<u8>|
            accepted_at(m0, evs, i, image) && run(m0, evs).contents == image,
    decreases evs.len(),
{
    if evs.len() > 0 {
        let prefix = evs.drop_last();
        let m = run(m0, prefix);
        lemma_no_tear_trace(m0, prefix);
        match evs.last() {
            FrameEvent::Tick => {
                // a tick consumes the pending flag: nothing is pending after it
            }
            FrameEvent::Submit(image) => {
                if submit_accepts(m, image) {
                    assert(prefix =~= evs.take(evs.len() - 1));
                    assert(accepted_at(m0, evs, evs.len() - 1, image));
                } else if run(m0, evs).updated {
                    let w = choose|i: int, img: Seq<u8>|
                        accepted_at(m0, prefix, i, img) && m.contents == img;
                    assert(prefix.take(w.0) =~= evs.take(w.0));
                    assert(accepted_at(m0, evs, w.0, w.1) && run(m0, evs).contents == w.1);
                }
            }
        }
    }
}

/// Freshness: while a frame `a` is pending, a further submission `b` is
/// dropped whole — the slot still holds exactly `a`, never a mix. Once a
/// tick has consumed `a`, a correctly sized submission `b` is accepted, and
/// from then on the renderer observes only `b`: the next tick presents
/// exactly `b`'s bytes.
pub proof fn lemma_freshness(m0: FrameModel, a: Seq<u8>, b: Seq<u8>)
    requires
        m0.wf(),
        submit_accepts(m0, a),
    ensures
        submit_post(submit_post(m0, a), b) == submit_post(m0, a),
        submit_post(m0, a).contents == a,
        b.len() == BUFFER_SIZE ==> submit_accepts(tick_post(submit_post(m0, a)), b),
        b.len() == BUFFER_SIZE ==> submit_post(tick_post(submit_post(m0, a)), b).contents == b,
        b.len() == BUFFER_SIZE ==> tick_presents(submit_post(tick_post(submit_post(m0, a)), b)),
        b.len() == BUFFER_SIZE ==> tick_post(
            submit_post(tick_post(submit_post(m0, a)), b),
        ).contents == b,
{
}

/// The bytes of the most recently accepted submission in a history — the
/// starting contents where no submission was ever accepted.
pub open spec fn latest_frame(m0: FrameModel, evs: Seq<FrameEvent>) -> Seq<u8>
    decreases evs.len(),
{
    if evs.len() == 0 {
        m0.contents
    } else {
        match evs.last() {
            FrameEvent::Submit(image) => {
                if submit_accepts(run(m0, evs.drop_last()), image) {
                    image
                } else {
                    latest_frame(m0, evs.drop_last())
                }
            }
            FrameEvent::Tick => latest_frame(m0, evs.drop_last()),
        }
    }
}

/// Freshness, over whole histories: after any interleaving of submissions
/// and ticks, the slot holds exactly the bytes of the most recently accepted
/// submission — an earlier frame is never shown again once a newer one was
/// accepted, and a dropped submission leaves no trace.
pub proof fn lemma_freshness_trace(m0: FrameModel, evs: Seq<FrameEvent>)
    ensures
        run(m0, evs).contents == latest_frame(m0, evs),
    decreases evs.len(),
{
    if evs.len() > 0 {
        lemma_freshness_trace(m0, evs.drop_last());
    }
}

/// Idempotent persistence, one step: a tick never changes the bytes, and a
/// second tick right after one changes nothing at all — the last-known frame
/// keeps being drawn.
pub proof fn lemma_tick_idempotent(m: FrameModel)
    ensures
        tick_post(m).contents == m.contents,
        tick_post(tick_post(m)) == tick_post(m),
        !tick_presents(tick_post(m)),
{
}

/// Idempotent persistence, over whole histories: any number of ticks with no
/// intervening submission leaves the bytes exactly as they were, so every
/// one of those ticks draws the same content.
pub proof fn lemma_persistence(m: FrameModel, evs: Seq<FrameEvent>)
    requires
        forall|i: int| 0 <= i < evs.len() ==> evs[i] == FrameEvent::Tick,
    ensures
        run(m, evs).contents == m.contents,
        run(m, evs).updating == m.updating,
        evs.len() > 0 ==> !run(m, evs).updated,
    decreases evs.len(),
{
    if evs.len() > 0 {
        let prefix = evs.drop_last();
        assert(forall|i: int| 0 <= i < prefix.len() ==> prefix[i] == evs[i]);
        lemma_persistence(m, prefix);
        assert(evs.last() == FrameEvent::Tick);
    }
}

/// Busy drop: a submission made while a write is in progress or a frame is
/// pending changes nothing — the bytes and both flags stay as they were —
/// and a correctly sized one still reports success. Backpressure is silent
/// by design, not a failure.
pub proof fn lemma_busy_drop(m: FrameModel, image: Seq<u8>)
    requires
        m.updating || m.updated,
    ensures
        submit_post(m, image) == m,
        image.len() == BUFFER_SIZE ==> submit_result(image) == Ok::<(), Error>(()),
{
}

/// Size validation: a buffer whose length is not the fixed capacity is
/// rejected with `SizeMismatch`, and neither the bytes nor the flags change.
pub proof fn lemma_size_validation(m: FrameModel, image: Seq<u8>)
    requires
        image.len() != BUFFER_SIZE,
    ensures
        submit_post(m, image) == m,
        submit_result(image) == Err::<(), Error>(Error::SizeMismatch),
{
}

} // verus!
