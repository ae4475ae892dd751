use vstd::prelude::*;
use crate::error::CaptureError;

verus! {

/// One audio device as the platform reports it.
#[derive(Debug)]
pub struct AudioDevice {
    pub id: String,
    /// Whether the device's output can be tapped.
    pub loopback: bool,
    /// The device's native rate in Hz; zero where the platform gave none.
    pub sample_rate: u32,
}

impl AudioDevice {
    /// A device that a source can be built on.
    pub open spec fn suitable(&self) -> bool {
        self.loopback && self.sample_rate > 0
    }

    /// A suitable device with the wanted identifier.
    pub open spec fn answers(&self, wanted: Seq<char>) -> bool {
        self.suitable() && self.id@ == wanted
    }
}

/// What the platform's audio subsystem reports at the moment a source is
/// opened.
#[derive(Debug)]
pub struct AudioHost {
    pub devices: Vec<AudioDevice>,
    /// Index of the default output device among `devices`.
    pub default_output: Option<usize>,
    /// Whether the platform lets this process open a capture stream.
    pub capture_permitted: bool,
}

impl AudioHost {
    /// Whether device `i` is the one that a request for `device_id` selects:
    /// the first suitable device with that identifier, or, for no identifier,
    /// the default output device if it is suitable.
    pub open spec fn selects(&self, device_id: Option<String>, i: int) -> bool {
        match device_id {
            Some(id) => {
                &&& 0 <= i < self.devices@.len()
                &&& self.devices@[i].answers(id@)
                &&& forall|j: int| 0 <= j < i ==> !(#[trigger] self.devices@[j]).answers(id@)
            },
            None => {
                &&& 0 <= i < self.devices@.len()
                &&& self.default_output == Some(i as usize)
                &&& self.devices@[i].suitable()
            },
        }
    }

    /// Whether `r` is the outcome of opening a source for `device_id` on this
    /// host: the selected device where there is one and capture is permitted,
    /// `DeviceUnavailable` where none is selected, `PermissionDenied`
    /// otherwise.
    pub open spec fn opens(&self, device_id: Option<String>, r: Result<SpeakerInput, CaptureError>) -> bool {
        match r {
            Ok(input) => {
                &&& self.capture_permitted
                &&& self.selects(device_id, input.device() as int)
                &&& input.rate() == self.devices@[input.device() as int].sample_rate
            },
            Err(e) => {
                if forall|i: int| !self.selects(device_id, i) {
                    e == CaptureError::DeviceUnavailable
                } else {
                    e == CaptureError::PermissionDenied && !self.capture_permitted
                }
            },
        }
    }
}

/// An opened loopback source: the device it taps and that device's native
/// rate, which stays fixed for the life of the source.
#[derive(Debug)]
pub struct SpeakerInput {
    device: usize,
    sample_rate: u32,
}

impl SpeakerInput {
    /// What holds of every opened source: its rate is not zero.
    #[verifier::type_invariant]
    pub closed spec fn wf(&self) -> bool {
        self.sample_rate > 0
    }

    /// A well-formed source has a positive rate.
    pub proof fn lemma_wf_rate(self)
        requires
            self.wf(),
        ensures
            self.rate() > 0,
    {
    }

    /// Index of the tapped device on the host it was opened on.
    pub closed spec fn device(&self) -> usize {
        self.device
    }

    /// The native rate in Hz.
    pub closed spec fn rate(&self) -> u32 {
        self.sample_rate
    }

    /// Opens the source for `device_id`, or for the default output device
    /// where no identifier is given.
    pub fn new(device_id: Option<String>, host: &AudioHost) -> (r: Result<SpeakerInput, CaptureError>)
        ensures
            host.opens(device_id, r),
    {
        let mut found: Option<usize> = None;
        match &device_id {
            Some(id) => {
                let mut i: usize = 0;
                while i < host.devices.len() && found.is_none()
                    invariant
                        i <= host.devices@.len(),
                        device_id == Some(*id),
                        found.is_none() ==> forall|j: int|
                            0 <= j < i ==> !(#[trigger] host.devices@[j]).answers(id@),
                        found.is_some() ==> host.selects(device_id, found.unwrap() as int),
                    decreases host.devices@.len() - i + (if found.is_none() { 1int } else { 0int }),
                {
                    let d = &host.devices[i];
                    if d.loopback && d.sample_rate > 0 && d.id == *id {
                        found = Some(i);
                    } else {
                        i += 1;
                    }
                }
            },
            None => {
                if let Some(i) = host.default_output {
                    if i < host.devices.len() {
                        let d = &host.devices[i];
                        if d.loopback && d.sample_rate > 0 {
                            found = Some(i);
                        }
                    }
                }
            },
        }
        match found {
            None => Err(CaptureError::DeviceUnavailable),
            Some(i) => {
                assert(host.selects(device_id, i as int));
                if host.capture_permitted {
                    Ok(SpeakerInput { device: i, sample_rate: host.devices[i].sample_rate })
                } else {
                    Err(CaptureError::PermissionDenied)
                }
            },
        }
    }

    pub fn device_index(&self) -> (r: usize)
        ensures
            r == self.device(),
    {
        self.device
    }

    pub fn sample_rate(&self) -> (r: u32)
        ensures
            r == self.rate(),
            r > 0,
    {
        proof {
            use_type_invariant(self);
        }
        self.sample_rate
    }

    /// Turns the source into its stream. The handoff buffer holds one second
    /// of audio.
    pub fn stream<T>(self) -> (r: SpeakerStream<T>)
        ensures
            r@.consistent(),
            r@ == (SpeakerStreamView::<T> {
                sample_rate: self.rate(),
                capacity: self.rate() as nat,
                pending: Seq::empty(),
                dropped: 0,
                ended: false,
            }),
    {
        proof {
            use_type_invariant(&self);
        }
        SpeakerStream {
            sample_rate: self.sample_rate,
            capacity: self.sample_rate as usize,
            buffer: Vec::new(),
            dropped: 0,
            ended: false,
        }
    }
}

/// What a stream answers when asked for its next sample.
pub enum StreamPoll<T> {
    /// The oldest unread sample.
    Item(T),
    /// Nothing to read yet.
    Pending,
    /// The stream has ended and yields no more samples.
    Ended,
}

/// The sample stream of one source: a bounded handoff buffer between the
/// platform's audio callback, which must never wait, and the reader.
pub struct SpeakerStream<T> {
    sample_rate: u32,
    capacity: usize,
    buffer: Vec<T>,
    dropped: u64,
    ended: bool,
}

/// The stream as contracts see it.
pub ghost struct SpeakerStreamView<T> {
    pub sample_rate: u32,
    /// How many unread samples the buffer holds at most.
    pub capacity: nat,
    /// The unread samples, oldest first.
    pub pending: Seq<T>,
    /// How many samples were dropped unread, counted up to `u64::MAX`.
    pub dropped: nat,
    pub ended: bool,
}

impl<T> SpeakerStreamView<T> {
    /// What holds of every stream.
    pub open spec fn consistent(self) -> bool {
        &&& self.sample_rate > 0
        &&& self.capacity > 0
        &&& self.pending.len() <= self.capacity
        &&& self.dropped <= u64::MAX
        &&& self.ended ==> self.pending.len() == 0
    }

    /// The stream after the platform delivered `sample`: an ended stream takes
    /// nothing; a full buffer gives up its oldest sample, which is counted.
    pub open spec fn offered(self, sample: T) -> SpeakerStreamView<T> {
        if self.ended {
            self
        } else if self.pending.len() >= self.capacity {
            SpeakerStreamView {
                pending: self.pending.subrange(1, self.pending.len() as int).push(sample),
                dropped: if self.dropped < u64::MAX { self.dropped + 1 } else { self.dropped },
                ..self
            }
        } else {
            SpeakerStreamView { pending: self.pending.push(sample), ..self }
        }
    }

    /// The stream after one read.
    pub open spec fn polled(self) -> SpeakerStreamView<T> {
        if self.pending.len() > 0 {
            SpeakerStreamView { pending: self.pending.subrange(1, self.pending.len() as int), ..self }
        } else {
            self
        }
    }

    /// What one read returns.
    pub open spec fn poll_answer(self) -> StreamPoll<T> {
        if self.pending.len() > 0 {
            StreamPoll::Item(self.pending[0])
        } else if self.ended {
            StreamPoll::Ended
        } else {
            StreamPoll::Pending
        }
    }

    /// The stream after its source failed or was closed.
    pub open spec fn closed(self) -> SpeakerStreamView<T> {
        SpeakerStreamView { pending: Seq::empty(), ended: true, ..self }
    }
}

impl<T> View for SpeakerStream<T> {
    type V = SpeakerStreamView<T>;

    closed spec fn view(&self) -> SpeakerStreamView<T> {
        SpeakerStreamView {
            sample_rate: self.sample_rate,
            capacity: self.capacity as nat,
            pending: self.buffer@,
            dropped: self.dropped as nat,
            ended: self.ended,
        }
    }
}

impl<T> SpeakerStream<T> {
    /// The device's native rate in Hz, fixed for the life of the stream.
    pub fn sample_rate(&self) -> (r: u32)
        ensures
            r == self@.sample_rate,
    {
        self.sample_rate
    }

    /// How many samples were dropped unread because the reader fell behind.
    pub fn dropped_samples(&self) -> (r: u64)
        ensures
            r == self@.dropped,
    {
        self.dropped
    }

    /// How many samples wait to be read.
    pub fn pending_samples(&self) -> (r: usize)
        ensures
            r == self@.pending.len(),
    {
        self.buffer.len()
    }

    pub fn is_ended(&self) -> (r: bool)
        ensures
            r == self@.ended,
    {
        self.ended
    }

    /// Takes one sample from the platform's callback without ever waiting:
    /// where the buffer is full the oldest unread sample makes room.
    pub fn offer(&mut self, sample: T)
        requires
            old(self)@.consistent(),
        ensures
            final(self)@.consistent(),
            final(self)@ == old(self)@.offered(sample),
    {
        if self.ended {
            return ;
        }
        if self.buffer.len() >= self.capacity {
            self.buffer.remove(0);
            if self.dropped < u64::MAX {
                self.dropped = self.dropped + 1;
            }
        }
        self.buffer.push(sample);
        assert(self@.pending =~= old(self)@.offered(sample).pending);
    }

    /// Hands out the oldest unread sample, or says why there is none.
    pub fn poll_next(&mut self) -> (r: StreamPoll<T>)
        requires
            old(self)@.consistent(),
        ensures
            final(self)@.consistent(),
            r == old(self)@.poll_answer(),
            final(self)@ == old(self)@.polled(),
    {
        if self.buffer.len() > 0 {
            let sample = self.buffer.remove(0);
            assert(self@.pending =~= old(self)@.polled().pending);
            StreamPoll::Item(sample)
        } else if self.ended {
            StreamPoll::Ended
        } else {
            StreamPoll::Pending
        }
    }

    /// Ends the stream for good: unread samples are discarded and no sample
    /// is taken or handed out afterwards.
    pub fn close(&mut self)
        requires
            old(self)@.consistent(),
        ensures
            final(self)@.consistent(),
            final(self)@ == old(self)@.closed(),
    {
        self.buffer.clear();
        self.ended = true;
        assert(self@.pending =~= Seq::<T>::empty());
    }
}

/// Reading never yields a sample once the stream is closed, whatever is
/// offered afterwards.
pub proof fn lemma_closed_stream_stays_silent<T>(s: SpeakerStreamView<T>, sample: T)
    ensures
        s.closed().offered(sample) == s.closed(),
        s.closed().poll_answer() == StreamPoll::<T>::Ended,
        s.closed().polled() == s.closed(),
{
}

/// An offered sample is never lost while there is room, the buffer never
/// grows past its capacity, and a full buffer loses exactly its oldest sample.
pub proof fn lemma_offer_drops_oldest<T>(s: SpeakerStreamView<T>, sample: T)
    requires
        s.consistent(),
        !s.ended,
    ensures
        s.offered(sample).consistent(),
        s.offered(sample).pending.last() == sample,
        s.pending.len() < s.capacity ==> s.offered(sample).pending == s.pending.push(sample)
            && s.offered(sample).dropped == s.dropped,
        s.pending.len() == s.capacity ==> s.offered(sample).pending.len() == s.capacity
            && s.offered(sample).pending.subrange(0, s.capacity - 1) =~= s.pending.subrange(1, s.capacity as int),
{
}

} // verus!
