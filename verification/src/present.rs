//! Presentation: which path a frame takes to the screen, and who owns the buffer meanwhile.
//!
//! A frame arrives either as a dmabuf, which the toolkit imports without a copy and which has to be
//! returned to the compositor afterwards, or as plain bytes read back from the GPU.

use crate::channel::Outbox;
use crate::channel::OutboxView;
use crossbeam_channel::Sender;
use vstd::prelude::*;

verus! {

/// One plane of a dmabuf. The file descriptor is borrowed from the compositor.
#[derive(Debug, Clone, Copy, PartialEq, Eq)]
pub struct DmabufPlane {
    /// File descriptor of the plane.
    pub fd: i32,
    /// Byte offset of the plane within its descriptor.
    pub offset: u32,
    /// Row stride in bytes.
    pub stride: u32,
}

/// The compositor's latest dmabuf: one slot of its buffer pool.
#[derive(Debug)]
pub struct DmabufFrame {
    /// Width in pixels.
    pub width: u32,
    /// Height in pixels.
    pub height: u32,
    /// DRM FourCC of the pixel format.
    pub fourcc: u32,
    /// DRM format modifier.
    pub modifier: u64,
    /// One entry per plane.
    pub planes: Vec<DmabufPlane>,
    /// The pool slot, to be handed back once nobody samples the buffer.
    pub buffer_id: u64,
}

/// One composited frame in memory: upright RGBA8 rows, `stride` bytes each.
#[derive(Debug)]
pub struct Frame {
    /// The pixels.
    pub bytes: Vec<u8>,
    /// Width in pixels.
    pub width: u32,
    /// Height in pixels.
    pub height: u32,
    /// Row stride in bytes.
    pub stride: usize,
}

/// What the toolkit's texture builder is told of one plane.
#[derive(Debug, Clone, Copy, PartialEq, Eq)]
pub struct PlaneSetting {
    /// The plane's number.
    pub index: u32,
    /// Its borrowed file descriptor.
    pub fd: i32,
    /// Its byte offset.
    pub offset: u32,
    /// Its row stride in bytes.
    pub stride: u32,
}

/// What the toolkit's texture builder is told of a dmabuf.
#[derive(Debug)]
pub struct TexturePlan {
    /// Width in pixels.
    pub width: u32,
    /// Height in pixels.
    pub height: u32,
    /// DRM FourCC of the pixel format.
    pub fourcc: u32,
    /// DRM format modifier.
    pub modifier: u64,
    /// Number of planes.
    pub n_planes: u32,
    /// Whether the colours are multiplied by alpha. They are not, on either path.
    pub premultiplied: bool,
    /// The planes, in order.
    pub planes: Vec<PlaneSetting>,
}

/// What `frame.planes[index]` becomes in the plan.
pub open spec fn plane_setting(frame: DmabufFrame, index: int) -> PlaneSetting {
    PlaneSetting {
        index: index as u32,
        fd: frame.planes@[index].fd,
        offset: frame.planes@[index].offset,
        stride: frame.planes@[index].stride,
    }
}

impl TexturePlan {
    /// The plan describes `frame`, plane for plane.
    pub open spec fn describes(self, frame: DmabufFrame) -> bool {
        &&& self.width == frame.width
        &&& self.height == frame.height
        &&& self.fourcc == frame.fourcc
        &&& self.modifier == frame.modifier
        &&& self.n_planes == frame.planes@.len() as u32
        &&& !self.premultiplied
        &&& self.planes@ == Seq::new(
            frame.planes@.len(),
            |index: int| plane_setting(frame, index),
        )
    }
}

/// The duty to return one pool slot to the compositor. It is met once, by
/// [`SlotRelease::release`], or given up, by [`SlotRelease::keep`]; either uses it up.
pub struct SlotRelease {
    slot: u64,
    outbox: Outbox<u64>,
}

/// A pool slot that has been returned to the compositor.
pub struct ReturnedSlot {
    slot: u64,
    outbox: Outbox<u64>,
}

/// A pool slot that somebody else is to return: the duty was given up, and nothing can be returned
/// through it any more.
pub struct KeptSlot {
    slot: u64,
    outbox: Outbox<u64>,
}

/// What is known of a [`SlotRelease`], a [`ReturnedSlot`] or a [`KeptSlot`]: the slot, and the slots
/// returned through it so far.
pub struct SlotReleaseView {
    pub slot: u64,
    pub outbox: OutboxView<u64>,
}

impl View for SlotRelease {
    type V = SlotReleaseView;

    closed spec fn view(&self) -> SlotReleaseView {
        SlotReleaseView { slot: self.slot, outbox: self.outbox@ }
    }
}

impl View for ReturnedSlot {
    type V = SlotReleaseView;

    closed spec fn view(&self) -> SlotReleaseView {
        SlotReleaseView { slot: self.slot, outbox: self.outbox@ }
    }
}

impl View for KeptSlot {
    type V = SlotReleaseView;

    closed spec fn view(&self) -> SlotReleaseView {
        SlotReleaseView { slot: self.slot, outbox: self.outbox@ }
    }
}

impl SlotReleaseView {
    /// The slot has not been returned yet.
    pub open spec fn due(slot: u64, channel: Sender<u64>) -> Self {
        SlotReleaseView { slot, outbox: OutboxView::unused(channel) }
    }

    /// The slot was returned.
    pub open spec fn released(self) -> Self {
        SlotReleaseView { slot: self.slot, outbox: self.outbox.with(self.slot) }
    }
}

impl SlotRelease {
    fn new(slot: u64, release_tx: Sender<u64>) -> (duty: Self)
        requires
            crate::channel::release_limit(release_tx) is None,
        ensures
            duty@ == SlotReleaseView::due(slot, release_tx),
    {
        SlotRelease { slot, outbox: Outbox::new(release_tx) }
    }

    /// The slot to return.
    pub fn slot(&self) -> (slot: u64)
        ensures
            slot == self@.slot,
    {
        self.slot
    }

    /// Returns the slot to the compositor.
    pub fn release(self) -> (returned: ReturnedSlot)
        ensures
            returned@ == self@.released(),
    {
        let mut outbox = self.outbox;
        outbox.post(self.slot);
        ReturnedSlot { slot: self.slot, outbox }
    }

    /// Leaves the slot to the texture that was built from it, and returns nothing.
    pub fn keep(self) -> (kept: KeptSlot)
        ensures
            kept@ == self@,
    {
        KeptSlot { slot: self.slot, outbox: self.outbox }
    }
}

impl KeptSlot {
    /// The slot that was kept.
    pub fn slot(&self) -> (slot: u64)
        ensures
            slot == self@.slot,
    {
        self.slot
    }
}

impl ReturnedSlot {
    /// The slot that was returned.
    pub fn slot(&self) -> (slot: u64)
        ensures
            slot == self@.slot,
    {
        self.slot
    }
}

/// A dmabuf on its way to becoming a texture.
///
/// The slot has to go back exactly once. `on_release` belongs to the texture and is used when the
/// toolkit lets go of it; a texture that was never built lets go of nothing, and then `on_failure`
/// is used instead.
pub struct DmabufImport {
    /// What to build.
    pub plan: TexturePlan,
    /// For the texture's release function.
    pub on_release: SlotRelease,
    /// For the case that the toolkit rejects the buffer.
    pub on_failure: SlotRelease,
}

impl DmabufImport {
    /// The import of `frame`, with nothing returned yet on either side.
    pub open spec fn imports(self, frame: DmabufFrame, release_tx: Sender<u64>) -> bool {
        &&& self.plan.describes(frame)
        &&& self.on_release@ == SlotReleaseView::due(frame.buffer_id, release_tx)
        &&& self.on_failure@ == SlotReleaseView::due(frame.buffer_id, release_tx)
    }
}

impl SlotReleaseView {
    /// What becomes of the failure side once the toolkit has taken or rejected the buffer.
    pub open spec fn settled(self, accepted: bool) -> Self {
        if accepted {
            self
        } else {
            self.released()
        }
    }

    /// What becomes of the texture's side by the time the toolkit is done: it runs the release
    /// function of a texture that it built, and no other.
    pub open spec fn finalized(self, accepted: bool) -> Self {
        if accepted {
            self.released()
        } else {
            self
        }
    }
}

/// The failure side of an import that has ended: kept if the toolkit took the buffer, returned if it
/// rejected it.
pub open spec fn settlement_view(settlement: Result<KeptSlot, ReturnedSlot>) -> SlotReleaseView {
    match settlement {
        Ok(kept) => kept@,
        Err(returned) => returned@,
    }
}

/// `settlement` is what becomes of the duty `on_failure` once the toolkit has taken or rejected the
/// buffer: nothing was returned through it in the first case, and the slot once in the second.
pub open spec fn settles(
    settlement: Result<KeptSlot, ReturnedSlot>,
    on_failure: SlotReleaseView,
    accepted: bool,
) -> bool {
    &&& settlement is Ok <==> accepted
    &&& settlement_view(settlement) == on_failure.settled(accepted)
}

/// However an import ends, its slot is returned to the compositor exactly once, and not before the
/// toolkit is done with it: while a texture that was built is in use, nothing has been returned on
/// either side.
pub proof fn law_slot_goes_back_exactly_once(
    import: DmabufImport,
    frame: DmabufFrame,
    release_tx: Sender<u64>,
    settlement: Result<KeptSlot, ReturnedSlot>,
    accepted: bool,
)
    requires
        import.imports(frame, release_tx),
        settles(settlement, import.on_failure@, accepted),
    ensures
        ({
            let texture_side = import.on_release@.finalized(accepted);
            let failure_side = settlement_view(settlement);
            &&& texture_side.outbox.offered + failure_side.outbox.offered == seq![frame.buffer_id]
            &&& texture_side.outbox.channel == release_tx
            &&& failure_side.outbox.channel == release_tx
            &&& accepted ==> import.on_release@.outbox.offered + failure_side.outbox.offered
                == Seq::<u64>::empty()
        }),
{
}

/// The builder settings for one dmabuf.
fn texture_plan(frame: &DmabufFrame) -> (plan: TexturePlan)
    ensures
        plan.describes(*frame),
{
    let mut planes: Vec<PlaneSetting> = Vec::new();
    for i in 0..frame.planes.len()
        invariant
            planes@.len() == i,
            forall|k: int| 0 <= k < i ==> #[trigger] planes@[k] == plane_setting(*frame, k),
    {
        let plane = frame.planes[i];
        planes.push(
            PlaneSetting {
                index: #[verifier::truncate] (i as u32),
                fd: plane.fd,
                offset: plane.offset,
                stride: plane.stride,
            },
        );
    }
    assert(planes@ =~= Seq::new(frame.planes@.len(), |index: int| plane_setting(*frame, index)));
    TexturePlan {
        width: frame.width,
        height: frame.height,
        fourcc: frame.fourcc,
        modifier: frame.modifier,
        n_planes: #[verifier::truncate] (frame.planes.len() as u32),
        premultiplied: false,
        planes,
    }
}

/// Prepares the import of one dmabuf: what to tell the texture builder, and the two ways in which
/// its slot can go back over `release_tx`, which has to be unbounded.
pub fn build_dmabuf_texture(frame: &DmabufFrame, release_tx: &Sender<u64>) -> (import: DmabufImport)
    requires
        crate::channel::release_limit(*release_tx) is None,
    ensures
        import.imports(*frame, *release_tx),
{
    DmabufImport {
        plan: texture_plan(frame),
        on_release: SlotRelease::new(frame.buffer_id, release_tx.clone()),
        on_failure: SlotRelease::new(frame.buffer_id, release_tx.clone()),
    }
}

/// A frame in memory as the toolkit's memory texture takes it: RGBA8, with signed sizes.
#[derive(Debug)]
pub struct MemoryTexture {
    /// The pixels.
    pub bytes: Vec<u8>,
    /// Width in pixels.
    pub width: i32,
    /// Height in pixels.
    pub height: i32,
    /// Row stride in bytes.
    pub stride: usize,
}

impl MemoryTexture {
    /// The texture shows `frame`, byte for byte.
    pub open spec fn shows(self, frame: Frame) -> bool {
        &&& self.bytes@ == frame.bytes@
        &&& self.width == frame.width as i32
        &&& self.height == frame.height as i32
        &&& self.stride == frame.stride
    }
}

/// Describes a frame in memory to the toolkit.
pub fn memory_texture(frame: Frame) -> (texture: MemoryTexture)
    ensures
        texture.shows(frame),
{
    MemoryTexture {
        bytes: frame.bytes,
        width: #[verifier::truncate] (frame.width as i32),
        height: #[verifier::truncate] (frame.height as i32),
        stride: frame.stride,
    }
}

/// The texture builder is told of a dmabuf what the compositor told of it: the size, the format and
/// the modifier, and for each plane, in order and by its number, the descriptor, offset and stride.
/// The colours are not multiplied by alpha.
pub proof fn law_plan_tells_what_the_frame_is(plan: TexturePlan, frame: DmabufFrame)
    ensures
        plan.describes(frame) <==> {
            &&& plan.width == frame.width
            &&& plan.height == frame.height
            &&& plan.fourcc == frame.fourcc
            &&& plan.modifier == frame.modifier
            &&& plan.premultiplied == false
            &&& plan.n_planes == frame.planes@.len() as u32
            &&& plan.planes@.len() == frame.planes@.len()
            &&& forall|i: int|
                0 <= i < frame.planes@.len() ==> {
                    &&& #[trigger] plan.planes@[i].index == i as u32
                    &&& plan.planes@[i].fd == frame.planes@[i].fd
                    &&& plan.planes@[i].offset == frame.planes@[i].offset
                    &&& plan.planes@[i].stride == frame.planes@[i].stride
                }
        },
{
    let told = Seq::new(frame.planes@.len(), |index: int| plane_setting(frame, index));
    if plan.describes(frame) {
        assert forall|i: int| 0 <= i < frame.planes@.len() implies {
            &&& #[trigger] plan.planes@[i].index == i as u32
            &&& plan.planes@[i].fd == frame.planes@[i].fd
            &&& plan.planes@[i].offset == frame.planes@[i].offset
            &&& plan.planes@[i].stride == frame.planes@[i].stride
        } by {
            assert(plan.planes@[i] == told[i]);
        }
    }
    if plan.planes@.len() == frame.planes@.len() && forall|i: int|
        0 <= i < frame.planes@.len() ==> {
            &&& #[trigger] plan.planes@[i].index == i as u32
            &&& plan.planes@[i].fd == frame.planes@[i].fd
            &&& plan.planes@[i].offset == frame.planes@[i].offset
            &&& plan.planes@[i].stride == frame.planes@[i].stride
        } {
        assert forall|i: int| 0 <= i < told.len() implies #[trigger] plan.planes@[i] == told[i] by {
            assert(plan.planes@[i].index == i as u32);
        }
        assert(plan.planes@ =~= told);
    }
}

/// A frame in memory reaches the toolkit whole: every byte in its place, and the size and stride
/// that go with them.
pub proof fn law_texture_shows_the_whole_frame(texture: MemoryTexture, frame: Frame)
    ensures
        texture.shows(frame) <==> {
            &&& texture.width == frame.width as i32
            &&& texture.height == frame.height as i32
            &&& texture.stride == frame.stride
            &&& texture.bytes@.len() == frame.bytes@.len()
            &&& forall|i: int|
                0 <= i < frame.bytes@.len() ==> #[trigger] texture.bytes@[i] == frame.bytes@[i]
        },
{
    if texture.bytes@.len() == frame.bytes@.len() && forall|i: int|
        0 <= i < frame.bytes@.len() ==> #[trigger] texture.bytes@[i] == frame.bytes@[i] {
        assert(texture.bytes@ =~= frame.bytes@);
    }
}

/// Meeting the duty sends its own slot, once, over its own channel, after whatever went before.
pub proof fn law_release_returns_the_slot(duty: SlotReleaseView)
    ensures
        duty.released().slot == duty.slot,
        duty.released().outbox.channel == duty.outbox.channel,
        duty.released().outbox.offered == duty.outbox.offered.push(duty.slot),
{
}

/// An import is prepared with two duties to return the frame's own slot over the channel given, and
/// neither has returned anything yet.
pub proof fn law_import_starts_with_nothing_returned(
    import: DmabufImport,
    frame: DmabufFrame,
    release_tx: Sender<u64>,
)
    requires
        import.imports(frame, release_tx),
    ensures
        import.plan.describes(frame),
        import.on_release@.slot == frame.buffer_id,
        import.on_release@.outbox.channel == release_tx,
        import.on_release@.outbox.offered.len() == 0,
        import.on_failure@.slot == frame.buffer_id,
        import.on_failure@.outbox.channel == release_tx,
        import.on_failure@.outbox.offered.len() == 0,
{
}

/// A buffer that the toolkit took is not returned on the failure side, and one that it rejected is,
/// once and at once.
pub proof fn law_only_a_rejected_buffer_goes_straight_back(
    settlement: Result<KeptSlot, ReturnedSlot>,
    on_failure: SlotReleaseView,
    accepted: bool,
)
    requires
        settles(settlement, on_failure, accepted),
    ensures
        match settlement {
            Ok(kept) => {
                &&& accepted
                &&& kept@.slot == on_failure.slot
                &&& kept@.outbox.channel == on_failure.outbox.channel
                &&& kept@.outbox.offered == on_failure.outbox.offered
            },
            Err(returned) => {
                &&& !accepted
                &&& returned@.slot == on_failure.slot
                &&& returned@.outbox.channel == on_failure.outbox.channel
                &&& returned@.outbox.offered == on_failure.outbox.offered.push(on_failure.slot)
            },
        },
{
}

} // verus!
