use vstd::prelude::*;

verus! {

/// The stages of acquiring the default output endpoint's volume control,
/// in the order they run.
#[derive(Clone, Copy, Debug, PartialEq, Eq, Structural)]
pub enum InitStage {
    /// Initialising the component-object subsystem on this thread.
    ComInit,
    /// Creating the device enumerator.
    CreateEnumerator,
    /// Resolving the default render endpoint.
    DefaultEndpoint,
    /// Activating the endpoint's volume-control interface.
    ActivateVolume,
}

/// A failed stage of acquiring the audio endpoint, with the status code the
/// system returned for it.
#[derive(Clone, Copy, Debug, PartialEq, Eq, Structural)]
pub struct AudioInitError {
    pub stage: InitStage,
    pub code: i32,
}

/// A status code reports failure when it is negative.
pub open spec fn failed(hr: i32) -> bool {
    hr < 0
}

/// Whether a status code reports failure.
pub fn hresult_failed(hr: i32) -> (r: bool)
    ensures
        r == failed(hr),
{
    hr < 0
}

/// Checks the outcome of one acquisition stage: `hr` is the status the
/// system returned and `acquired` whether the handle it was to produce is
/// present (stages that produce none pass true). The stage fails when the
/// status reports failure or the handle is missing.
pub fn check_stage(stage: InitStage, hr: i32, acquired: bool) -> (r: Result<(), AudioInitError>)
    ensures
        r is Ok <==> !failed(hr) && acquired,
        r is Err ==> r->Err_0 == (AudioInitError { stage, code: hr }),
{
    if hresult_failed(hr) || !acquired {
        Err(AudioInitError { stage, code: hr })
    } else {
        Ok(())
    }
}

impl AudioInitError {
    /// A sentence naming the stage that failed.
    pub fn message(&self) -> (r: &'static str)
        ensures
            r@ == (match self.stage {
                InitStage::ComInit => "CoInitialize failed"@,
                InitStage::CreateEnumerator => "Create IMMDeviceEnumerator instance failed"@,
                InitStage::DefaultEndpoint => "GetDefaultAudioEndpoint failed"@,
                InitStage::ActivateVolume => "Create IAudioEndpointVolume instance failed"@,
            }),
    {
        match self.stage {
            InitStage::ComInit => "CoInitialize failed",
            InitStage::CreateEnumerator => "Create IMMDeviceEnumerator instance failed",
            InitStage::DefaultEndpoint => "GetDefaultAudioEndpoint failed",
            InitStage::ActivateVolume => "Create IAudioEndpointVolume instance failed",
        }
    }
}

/// A mute flag read back from the endpoint means "muted" when it is nonzero.
pub open spec fn flag_is_muted(flag: i32) -> bool {
    flag != 0
}

/// The flag that toggling writes after reading `flag`: 1 after 0, else 0.
pub open spec fn toggled(flag: i32) -> i32 {
    if flag == 0 {
        1
    } else {
        0
    }
}

/// The flag to write to the endpoint to set it muted or unmuted.
pub fn mute_flag(muted: bool) -> (r: i32)
    ensures
        r == (if muted { 1i32 } else { 0i32 }),
        flag_is_muted(r) == muted,
{
    if muted {
        1
    } else {
        0
    }
}

/// Whether a mute flag read from the endpoint means "muted".
pub fn is_mute_flag(flag: i32) -> (r: bool)
    ensures
        r == flag_is_muted(flag),
{
    flag != 0
}

/// The flag that inverts the mute state read as `flag`.
pub fn toggle_flag(flag: i32) -> (r: i32)
    ensures
        r == toggled(flag),
{
    if flag == 0 {
        1
    } else {
        0
    }
}

/// Toggling inverts the mute state and toggling twice restores it, for every
/// flag the endpoint may report, given that the endpoint reads back what was
/// last written to it; a flag of 0 or 1 is restored exactly.
pub proof fn lemma_toggle_inverts(flag: i32)
    ensures
        flag_is_muted(toggled(flag)) == !flag_is_muted(flag),
        flag_is_muted(toggled(toggled(flag))) == flag_is_muted(flag),
        flag == 0 || flag == 1 ==> toggled(toggled(flag)) == flag,
{
}

} // verus!
