use vstd::prelude::*;

verus! {

/// One frame of raw pixels with its dimensions.
pub struct PixelPayload {
    pub width: i32,
    pub height: i32,
    pub data: Vec<u8>,
}

/// What a payload holds, as plain values.
pub ghost struct PayloadView {
    pub width: i32,
    pub height: i32,
    pub data: Seq<u8>,
}

impl View for PixelPayload {
    type V = PayloadView;

    open spec fn view(&self) -> PayloadView {
        PayloadView { width: self.width, height: self.height, data: self.data@ }
    }
}

/// The view of a payload that may be absent.
pub open spec fn payload_view(p: Option<PixelPayload>) -> Option<PayloadView> {
    match p {
        Some(p) => Some(p@),
        None => None,
    }
}

/// What a poll hands to the engine: the frame just received, or else the
/// last one it was handed.
pub open spec fn polled(last: Option<PayloadView>, received: Option<PayloadView>) -> Option<
    PayloadView,
> {
    match received {
        Some(p) => Some(p),
        None => last,
    }
}

impl PixelPayload {
    pub fn new(width: i32, height: i32, data: Vec<u8>) -> (r: Self)
        ensures
            r@ == (PayloadView { width, height, data: data@ }),
    {
        PixelPayload { width, height, data }
    }

    /// A second payload with the same pixels and dimensions.
    pub fn duplicate(&self) -> (r: Self)
        ensures
            r@ == self@,
    {
        let mut data: Vec<u8> = Vec::with_capacity(self.data.len());
        let mut i: usize = 0;
        while i < self.data.len()
            invariant
                i <= self.data@.len(),
                data@ == self.data@.subrange(0, i as int),
            decreases self.data@.len() - i,
        {
            data.push(self.data[i]);
            i += 1;
        }
        assert(data@ =~= self.data@);
        PixelPayload { width: self.width, height: self.height, data }
    }
}

/// Hands the engine's render thread the latest frame of a texture without
/// ever blocking it: a frame waiting in the channel is taken, and when none
/// waits the last frame is handed out again.
pub struct FrameProvider {
    frames: flume::Receiver<PixelPayload>,
    last: Option<PixelPayload>,
}

impl FrameProvider {
    /// The frame that the provider would hand out again if none arrived.
    pub closed spec fn last_frame(&self) -> Option<PayloadView> {
        payload_view(self.last)
    }

    /// A provider fed by `frames` that has handed out nothing yet.
    pub fn new(frames: flume::Receiver<PixelPayload>) -> (r: Self)
        ensures
            r.last_frame() is None,
    {
        FrameProvider { frames, last: None }
    }

    /// Hands out `received` when a frame arrived, else the last frame again,
    /// and remembers what it handed out.
    pub fn accept(&mut self, received: Option<PixelPayload>) -> (r: Option<PixelPayload>)
        ensures
            payload_view(r) == polled(old(self).last_frame(), payload_view(received)),
            final(self).last_frame() == payload_view(r),
    {
        match received {
            Some(p) => {
                self.last = Some(p.duplicate());
                Some(p)
            },
            None => match &self.last {
                Some(p) => Some(p.duplicate()),
                None => None,
            },
        }
    }

    /// Takes the frame waiting in the channel, if any, without blocking,
    /// and hands out what `accept` makes of it. `None` only before the first
    /// frame has arrived.
    pub fn poll(&mut self) -> (r: Option<PixelPayload>)
        ensures
            final(self).last_frame() == payload_view(r),
            r is Some || payload_view(r) == old(self).last_frame(),
            old(self).last_frame() is Some ==> r is Some,
    {
        let received = match self.frames.try_recv() {
            Ok(p) => Some(p),
            Err(_) => None,
        };
        self.accept(received)
    }
}

/// Polling twice with no new frame in between hands out the same payload
/// both times: once a poll has handed out a payload, a poll that receives
/// nothing hands out that payload again and leaves it as the last frame.
pub proof fn lemma_poll_without_new_frame_is_stable(
    last: Option<PayloadView>,
    received: Option<PayloadView>,
)
    ensures
        polled(polled(last, received), None) == polled(last, received),
{
}

} // verus!
