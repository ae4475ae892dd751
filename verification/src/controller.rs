use vstd::prelude::*;
use crate::access::AccessStatus;
use crate::config::VadConfig;
use crate::error::CaptureError;
use crate::speaker::{AudioHost, SpeakerInput};

verus! {

/// Where the capture session stands.
#[derive(Clone, Copy, Debug, PartialEq, Eq, Structural)]
pub enum CaptureStatus {
    Idle,
    Capturing,
    /// A stop was requested and the background task has not been joined yet.
    Stopping,
}

impl CaptureStatus {
    /// The status's name as the front end reads it.
    pub open spec fn label(self) -> Seq<char> {
        match self {
            CaptureStatus::Idle => "Idle"@,
            CaptureStatus::Capturing => "Capturing"@,
            CaptureStatus::Stopping => "Stopping"@,
        }
    }

    pub fn as_str(&self) -> (r: &'static str)
        ensures
            r@ == self.label(),
    {
        match self {
            CaptureStatus::Idle => "Idle",
            CaptureStatus::Capturing => "Capturing",
            CaptureStatus::Stopping => "Stopping",
        }
    }
}

/// How waiting for the background task ended.
#[derive(Clone, Copy, Debug, PartialEq, Eq, Structural)]
pub enum JoinOutcome {
    Joined,
    /// The shutdown timeout ran out first.
    TimedOut,
}

/// The state of the capture session controller: the background task of the
/// active session, the flag that goes with it, and the detector's current
/// configuration. The task is known by the number its owner gave it.
pub struct AudioState {
    stream_task: Option<u64>,
    is_capturing: bool,
    stop_requested: bool,
    sample_rate: u32,
    vad_config: VadConfig,
}

/// The controller's state as contracts see it.
pub ghost struct AudioStateView {
    pub stream_task: Option<u64>,
    pub is_capturing: bool,
    pub stop_requested: bool,
    /// The active session's rate in Hz; zero while idle.
    pub sample_rate: u32,
    pub vad_config: VadConfig,
}

/// One command or event that the controller handles.
pub ghost enum Command {
    Start { access: AccessStatus, opened: Result<SpeakerInput, CaptureError>, task: u64 },
    RequestStop,
    Stop { outcome: JoinOutcome },
    StreamEnded { task: u64 },
    Configure { config: VadConfig },
}

impl AudioStateView {
    /// What holds of every state the controller can be in: the flag is set
    /// exactly when a task is present, a stop can be pending only on an active
    /// session, and the stored configuration is valid.
    pub open spec fn consistent(self) -> bool {
        &&& self.is_capturing <==> self.stream_task.is_some()
        &&& self.stop_requested ==> self.is_capturing
        &&& self.is_capturing <==> self.sample_rate > 0
        &&& self.vad_config.valid()
    }

    /// The state at process start.
    pub open spec fn initial() -> AudioStateView {
        AudioStateView {
            stream_task: None,
            is_capturing: false,
            stop_requested: false,
            sample_rate: 0,
            vad_config: VadConfig::initial(),
        }
    }

    pub open spec fn status(self) -> CaptureStatus {
        if !self.is_capturing {
            CaptureStatus::Idle
        } else if self.stop_requested {
            CaptureStatus::Stopping
        } else {
            CaptureStatus::Capturing
        }
    }

    /// This state with the session cleared; the configuration stays.
    pub open spec fn cleared(self) -> AudioStateView {
        AudioStateView {
            stream_task: None,
            is_capturing: false,
            stop_requested: false,
            sample_rate: 0,
            ..self
        }
    }

    /// Why a start is refused before any device is touched, if it is.
    pub open spec fn start_refusal(self, access: AccessStatus) -> Option<CaptureError> {
        if self.is_capturing {
            Some(CaptureError::AlreadyCapturing)
        } else if access == AccessStatus::Denied {
            Some(CaptureError::PermissionDenied)
        } else {
            None
        }
    }

    /// What a start returns, given the outcome of opening the source.
    pub open spec fn start_result(
        self,
        access: AccessStatus,
        opened: Result<SpeakerInput, CaptureError>,
    ) -> Result<SpeakerInput, CaptureError> {
        match self.start_refusal(access) {
            Some(e) => Err(e),
            None => opened,
        }
    }

    /// The state after a start: the session is installed exactly where the
    /// start succeeds.
    pub open spec fn started(
        self,
        access: AccessStatus,
        opened: Result<SpeakerInput, CaptureError>,
        task: u64,
    ) -> AudioStateView {
        match self.start_result(access, opened) {
            Ok(input) => AudioStateView {
                stream_task: Some(task),
                is_capturing: true,
                stop_requested: false,
                sample_rate: input.rate(),
                ..self
            },
            Err(_) => self,
        }
    }

    /// The state after a stop was requested.
    pub open spec fn stopping(self) -> AudioStateView {
        AudioStateView { stop_requested: self.is_capturing, ..self }
    }

    /// What completing a stop returns.
    pub open spec fn stop_result(self, outcome: JoinOutcome) -> Result<(), CaptureError> {
        if self.is_capturing && outcome == JoinOutcome::TimedOut {
            Err(CaptureError::ShutdownTimeout)
        } else {
            Ok(())
        }
    }

    /// The state after the stream of task `task` ended by itself. Word from a
    /// task that is no longer the session's changes nothing.
    pub open spec fn stream_ended(self, task: u64) -> AudioStateView {
        if self.stream_task == Some(task) {
            self.cleared()
        } else {
            self
        }
    }

    /// The state after an attempt to store `config`.
    pub open spec fn configured(self, config: VadConfig) -> AudioStateView {
        if config.valid() {
            AudioStateView { vad_config: config, ..self }
        } else {
            self
        }
    }

    pub open spec fn rate_result(self) -> Result<u32, CaptureError> {
        if self.is_capturing {
            Ok(self.sample_rate)
        } else {
            Err(CaptureError::NoActiveSession)
        }
    }

    /// The state after one command.
    pub open spec fn apply(self, c: Command) -> AudioStateView {
        match c {
            Command::Start { access, opened, task } => self.started(access, opened, task),
            Command::RequestStop => self.stopping(),
            Command::Stop { outcome } => self.cleared(),
            Command::StreamEnded { task } => self.stream_ended(task),
            Command::Configure { config } => self.configured(config),
        }
    }

    /// The state after a run of commands, first to last.
    pub open spec fn after(self, commands: Seq<Command>) -> AudioStateView
        decreases commands.len(),
    {
        if commands.len() == 0 {
            self
        } else {
            self.after(commands.drop_last()).apply(commands.last())
        }
    }
}

/// Whether a command can occur: a source that was opened is well formed.
pub open spec fn admissible(c: Command) -> bool {
    match c {
        Command::Start { access, opened, task } => opened is Ok ==> opened->Ok_0.wf(),
        _ => true,
    }
}

impl View for AudioState {
    type V = AudioStateView;

    closed spec fn view(&self) -> AudioStateView {
        AudioStateView {
            stream_task: self.stream_task,
            is_capturing: self.is_capturing,
            stop_requested: self.stop_requested,
            sample_rate: self.sample_rate,
            vad_config: self.vad_config,
        }
    }
}

impl AudioState {
    #[verifier::type_invariant]
    spec fn inv(&self) -> bool {
        self@.consistent()
    }

    /// The controller at process start: idle, with the default configuration.
    pub fn new() -> (r: AudioState)
        ensures
            r@ == AudioStateView::initial(),
            r@.consistent(),
    {
        AudioState {
            stream_task: None,
            is_capturing: false,
            stop_requested: false,
            sample_rate: 0,
            vad_config: VadConfig::default(),
        }
    }

    pub fn get_capture_status(&self) -> (r: CaptureStatus)
        ensures
            r == self@.status(),
            self@.consistent(),
    {
        proof {
            use_type_invariant(self);
        }
        if !self.is_capturing {
            CaptureStatus::Idle
        } else if self.stop_requested {
            CaptureStatus::Stopping
        } else {
            CaptureStatus::Capturing
        }
    }

    /// The task of the active session, if there is one.
    pub fn active_task(&self) -> (r: Option<u64>)
        ensures
            r == self@.stream_task,
            r.is_some() <==> self@.is_capturing,
    {
        proof {
            use_type_invariant(self);
        }
        self.stream_task
    }

    /// Whether a start would be refused before any device is touched, and why.
    pub fn check_start(&self, access: AccessStatus) -> (r: Option<CaptureError>)
        ensures
            r == self@.start_refusal(access),
    {
        if self.is_capturing {
            Some(CaptureError::AlreadyCapturing)
        } else {
            match access {
                AccessStatus::Denied => Some(CaptureError::PermissionDenied),
                _ => None,
            }
        }
    }

    /// The start transition, given the outcome of opening the source: an
    /// active session refuses with `AlreadyCapturing`, denied access with
    /// `PermissionDenied`, a source that failed to open with its own error;
    /// otherwise the session is installed with `task` and the source is handed
    /// back for the task to stream from.
    pub fn start_with(
        &mut self,
        access: AccessStatus,
        opened: Result<SpeakerInput, CaptureError>,
        task: u64,
    ) -> (r: Result<SpeakerInput, CaptureError>)
        ensures
            r == old(self)@.start_result(access, opened),
            final(self)@ == old(self)@.started(access, opened, task),
            final(self)@.consistent(),
    {
        proof {
            use_type_invariant(&*self);
        }
        match self.check_start(access) {
            Some(e) => Err(e),
            None => match opened {
                Ok(input) => {
                    proof {
                        use_type_invariant(&input);
                    }
                    *self = AudioState {
                        stream_task: Some(task),
                        is_capturing: true,
                        stop_requested: false,
                        sample_rate: input.sample_rate(),
                        vad_config: self.vad_config,
                    };
                    Ok(input)
                },
                Err(e) => Err(e),
            },
        }
    }

    /// Starts a session on the device `device_id`, or on the default output
    /// device. The source is opened only where the start is not refused
    /// beforehand.
    pub fn start_system_audio_capture(
        &mut self,
        device_id: Option<String>,
        access: AccessStatus,
        host: &AudioHost,
        task: u64,
    ) -> (r: Result<SpeakerInput, CaptureError>)
        ensures
            final(self)@.consistent(),
            match old(self)@.start_refusal(access) {
                Some(e) => r == Err::<SpeakerInput, CaptureError>(e) && final(self)@ == old(self)@,
                None => host.opens(device_id, r) && final(self)@ == old(self)@.started(
                    access,
                    r,
                    task,
                ),
            },
    {
        proof {
            use_type_invariant(&*self);
        }
        match self.check_start(access) {
            Some(e) => Err(e),
            None => {
                let opened = SpeakerInput::new(device_id, host);
                self.start_with(access, opened, task)
            },
        }
    }

    /// Notes that a stop is under way and names the task to cancel. On an
    /// idle controller there is nothing to cancel and nothing changes.
    pub fn request_stop(&mut self) -> (r: Option<u64>)
        ensures
            r == old(self)@.stream_task,
            final(self)@ == old(self)@.stopping(),
            final(self)@.consistent(),
    {
        proof {
            use_type_invariant(&*self);
        }
        if self.is_capturing {
            self.stop_requested = true;
        }
        self.stream_task
    }

    /// Completes a stop once the wait for the task is over: the session is
    /// cleared whatever the outcome, and a wait that timed out is reported.
    /// On an idle controller this changes nothing and is no error.
    pub fn stop_system_audio_capture(&mut self, outcome: JoinOutcome) -> (r: Result<
        (),
        CaptureError,
    >)
        ensures
            r == old(self)@.stop_result(outcome),
            final(self)@ == old(self)@.cleared(),
            final(self)@.consistent(),
            final(self)@.status() == CaptureStatus::Idle,
    {
        proof {
            use_type_invariant(&*self);
        }
        let timed_out = match outcome {
            JoinOutcome::TimedOut => true,
            JoinOutcome::Joined => false,
        };
        let was_capturing = self.is_capturing;
        *self = AudioState {
            stream_task: None,
            is_capturing: false,
            stop_requested: false,
            sample_rate: 0,
            vad_config: self.vad_config,
        };
        if was_capturing && timed_out {
            Err(CaptureError::ShutdownTimeout)
        } else {
            Ok(())
        }
    }

    /// The stop command of continuous mode: the same as
    /// `stop_system_audio_capture`.
    pub fn manual_stop_continuous(&mut self, outcome: JoinOutcome) -> (r: Result<(), CaptureError>)
        ensures
            r == old(self)@.stop_result(outcome),
            final(self)@ == old(self)@.cleared(),
            final(self)@.consistent(),
            final(self)@.status() == CaptureStatus::Idle,
    {
        self.stop_system_audio_capture(outcome)
    }

    /// Handles the end of the stream of task `task` in mid-session: the
    /// session is cleared as by a stop, and the error to pass on is returned.
    /// Word from a task that is not the session's is ignored.
    pub fn on_stream_ended(&mut self, task: u64) -> (r: Option<CaptureError>)
        ensures
            final(self)@ == old(self)@.stream_ended(task),
            final(self)@.consistent(),
            r == if old(self)@.stream_task == Some(task) {
                Some(CaptureError::StreamError)
            } else {
                None
            },
    {
        proof {
            use_type_invariant(&*self);
        }
        let ours = match self.stream_task {
            Some(t) => t == task,
            None => false,
        };
        if ours {
            *self = AudioState {
                stream_task: None,
                is_capturing: false,
                stop_requested: false,
                sample_rate: 0,
                vad_config: self.vad_config,
            };
            Some(CaptureError::StreamError)
        } else {
            None
        }
    }

    pub fn get_vad_config(&self) -> (r: VadConfig)
        ensures
            r == self@.vad_config,
            r.valid(),
    {
        proof {
            use_type_invariant(self);
        }
        self.vad_config
    }

    /// Replaces the configuration if `config` is valid; an invalid one is
    /// rejected with `InvalidConfig` and the stored one stays.
    pub fn update_vad_config(&mut self, config: VadConfig) -> (r: Result<(), CaptureError>)
        ensures
            final(self)@ == old(self)@.configured(config),
            final(self)@.consistent(),
            config.valid() ==> r == Ok::<(), CaptureError>(()) && final(self)@.vad_config == config,
            !config.valid() ==> r == Err::<(), CaptureError>(CaptureError::InvalidConfig)
                && final(self)@ == old(self)@,
    {
        proof {
            use_type_invariant(&*self);
        }
        match config.validate() {
            Ok(()) => {
                self.vad_config = config;
                Ok(())
            },
            Err(e) => Err(e),
        }
    }

    /// The active session's rate in Hz, or `NoActiveSession`.
    pub fn get_audio_sample_rate(&self) -> (r: Result<u32, CaptureError>)
        ensures
            r == self@.rate_result(),
    {
        if self.is_capturing {
            Ok(self.sample_rate)
        } else {
            Err(CaptureError::NoActiveSession)
        }
    }
}

impl Default for AudioState {
    fn default() -> (r: AudioState)
        ensures
            r@ == AudioStateView::initial(),
    {
        AudioState::new()
    }
}

} // verus!
