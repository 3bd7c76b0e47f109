//! Sound decisions: whether a transition sound plays, which file it is, and a log of
//! every decision. Playing the file is the caller's part; its outcome comes back in.

use vstd::prelude::*;

use crate::models::{SoundOverride, SoundScheme, SoundSetting};
use crate::text::{copy_opt_string, owned};

verus! {

#[derive(Debug, Clone, Copy, PartialEq, Eq, Structural)]
pub enum SoundEvent {
    StepTransition,
    RoutineCompleted,
}

#[derive(Debug, Clone, Copy, PartialEq, Eq, Structural)]
pub enum SoundPlaybackReason {
    Played,
    Muted,
    SettingDisabled,
    PlaybackDisabled,
    PlaybackFailed,
}

#[derive(Debug, Clone, Copy, PartialEq, Eq, Structural, Default)]
pub enum PlaybackMode {
    #[default]
    System,
    Disabled,
}

/// One playback decision. `timestamp` is in milliseconds since the Unix epoch.
#[derive(Debug, Clone, PartialEq, Eq)]
pub struct SoundPlaybackRecord {
    pub routine_id: Option<String>,
    pub step_id: Option<String>,
    pub event: SoundEvent,
    pub played: bool,
    pub reason: SoundPlaybackReason,
    pub sound_path: Option<String>,
    pub timestamp: u64,
}

impl SoundPlaybackRecord {
    /// A field-by-field copy.
    pub fn duplicate(&self) -> (r: SoundPlaybackRecord)
        ensures
            r == *self,
    {
        SoundPlaybackRecord {
            routine_id: copy_opt_string(&self.routine_id),
            step_id: copy_opt_string(&self.step_id),
            event: self.event,
            played: self.played,
            reason: self.reason,
            sound_path: copy_opt_string(&self.sound_path),
            timestamp: self.timestamp,
        }
    }
}

/// The audio manager as a mathematical value.
pub struct AudioState {
    pub global_mute: bool,
    pub playback_mode: PlaybackMode,
    pub log: Seq<SoundPlaybackRecord>,
    pub failure_notified: bool,
}

pub open spec fn effective(routine_default: SoundSetting, step_override: SoundOverride) -> SoundSetting {
    match step_override {
        SoundOverride::On => SoundSetting::On,
        SoundOverride::Off => SoundSetting::Off,
        SoundOverride::Inherit => routine_default,
    }
}

/// Why a sound will not be attempted, in order of precedence; `None` when the player is
/// to be tried.
pub open spec fn block_reason(
    s: AudioState,
    routine_default: SoundSetting,
    step_override: SoundOverride,
) -> Option<SoundPlaybackReason> {
    if s.global_mute {
        Some(SoundPlaybackReason::Muted)
    } else if effective(routine_default, step_override) == SoundSetting::Off {
        Some(SoundPlaybackReason::SettingDisabled)
    } else if s.playback_mode == PlaybackMode::Disabled {
        Some(SoundPlaybackReason::PlaybackDisabled)
    } else {
        None
    }
}

pub open spec fn opt_text(s: Option<&str>) -> Option<Seq<char>> {
    match s {
        Some(t) => Some(t@),
        None => None,
    }
}

pub open spec fn opt_view(s: Option<String>) -> Option<Seq<char>> {
    match s {
        Some(t) => Some(t@),
        None => None,
    }
}

/// The sound file for an event under a scheme: a distinct one ends a routine under
/// `EndDifferent`.
pub open spec fn sound_file(scheme: SoundScheme, event: SoundEvent) -> Seq<char> {
    if scheme == SoundScheme::EndDifferent && event == SoundEvent::RoutineCompleted {
        "/System/Library/Sounds/Glass.aiff"@
    } else {
        "/System/Library/Sounds/Ping.aiff"@
    }
}

fn owned_opt(s: Option<&str>) -> (r: Option<String>)
    ensures
        opt_view(r) == opt_text(s),
{
    match s {
        Some(t) => Some(owned(t)),
        None => None,
    }
}

pub struct AudioManager {
    global_mute: bool,
    playback_mode: PlaybackMode,
    log: Vec<SoundPlaybackRecord>,
    failure_notified: bool,
}

impl View for AudioManager {
    type V = AudioState;

    closed spec fn view(&self) -> AudioState {
        AudioState {
            global_mute: self.global_mute,
            playback_mode: self.playback_mode,
            log: self.log@,
            failure_notified: self.failure_notified,
        }
    }
}

impl AudioManager {
    pub fn new() -> (r: Self)
        ensures
            r@ == (AudioState {
                global_mute: false,
                playback_mode: PlaybackMode::System,
                log: Seq::empty(),
                failure_notified: false,
            }),
    {
        let r = AudioManager {
            global_mute: false,
            playback_mode: PlaybackMode::System,
            log: Vec::new(),
            failure_notified: false,
        };
        assert(r@.log =~= Seq::<SoundPlaybackRecord>::empty());
        r
    }

    pub fn with_playback_mode(playback_mode: PlaybackMode) -> (r: Self)
        ensures
            r@ == (AudioState {
                global_mute: false,
                playback_mode,
                log: Seq::empty(),
                failure_notified: false,
            }),
    {
        let r = AudioManager { global_mute: false, playback_mode, log: Vec::new(), failure_notified: false };
        assert(r@.log =~= Seq::<SoundPlaybackRecord>::empty());
        r
    }

    pub fn is_muted(&self) -> (r: bool)
        ensures
            r == self@.global_mute,
    {
        self.global_mute
    }

    pub fn set_global_mute(&mut self, muted: bool)
        ensures
            final(self)@ == (AudioState { global_mute: muted, ..old(self)@ }),
    {
        self.global_mute = muted;
    }

    pub fn toggle_global_mute(&mut self) -> (r: bool)
        ensures
            r == !old(self)@.global_mute,
            final(self)@ == (AudioState { global_mute: r, ..old(self)@ }),
    {
        self.global_mute = !self.global_mute;
        self.global_mute
    }

    /// The setting that applies to a step: its override, else the routine's default.
    pub fn effective_setting(&self, routine_default: SoundSetting, step_override: SoundOverride) -> (r:
        SoundSetting)
        ensures
            r == effective(routine_default, step_override),
    {
        match step_override {
            SoundOverride::On => SoundSetting::On,
            SoundOverride::Off => SoundSetting::Off,
            SoundOverride::Inherit => routine_default,
        }
    }

    pub fn should_play(&self, routine_default: SoundSetting, step_override: SoundOverride) -> (r: bool)
        ensures
            r == (!self@.global_mute && effective(routine_default, step_override)
                == SoundSetting::On),
    {
        if self.global_mute {
            return false;
        }
        self.effective_setting(routine_default, step_override) == SoundSetting::On
    }

    /// Why the sound will not be attempted; `None` when the player is to be tried.
    pub fn playback_block(&self, routine_default: SoundSetting, step_override: SoundOverride) -> (r:
        Option<SoundPlaybackReason>)
        ensures
            r == block_reason(self@, routine_default, step_override),
    {
        if self.global_mute {
            Some(SoundPlaybackReason::Muted)
        } else if self.effective_setting(routine_default, step_override) == SoundSetting::Off {
            Some(SoundPlaybackReason::SettingDisabled)
        } else if self.playback_mode == PlaybackMode::Disabled {
            Some(SoundPlaybackReason::PlaybackDisabled)
        } else {
            None
        }
    }

    /// The sound file for an event under a scheme.
    pub fn sound_path(&self, scheme: SoundScheme, event: SoundEvent) -> (r: String)
        ensures
            r@ == sound_file(scheme, event),
    {
        if scheme == SoundScheme::EndDifferent && event == SoundEvent::RoutineCompleted {
            owned("/System/Library/Sounds/Glass.aiff")
        } else {
            owned("/System/Library/Sounds/Ping.aiff")
        }
    }

    /// Decides and logs the sound for an event. When nothing blocks it, the outcome is
    /// `system_played`: what the system player reported for the file of
    /// [`AudioManager::sound_path`].
    pub fn play_for_event(
        &mut self,
        routine_id: Option<&str>,
        step_id: Option<&str>,
        routine_default: SoundSetting,
        step_override: SoundOverride,
        sound_scheme: SoundScheme,
        event: SoundEvent,
        system_played: bool,
        timestamp: u64,
    ) -> (r: SoundPlaybackRecord)
        ensures
            ({
                let block = block_reason(old(self)@, routine_default, step_override);
                &&& opt_view(r.routine_id) == opt_text(routine_id)
                &&& opt_view(r.step_id) == opt_text(step_id)
                &&& r.event == event
                &&& r.timestamp == timestamp
                &&& block matches Some(reason) ==> !r.played && r.reason == reason && r.sound_path is None
                &&& block is None ==> r.played == system_played && r.reason == (if system_played {
                    SoundPlaybackReason::Played
                } else {
                    SoundPlaybackReason::PlaybackFailed
                }) && opt_view(r.sound_path) == Some(sound_file(sound_scheme, event))
            }),
            final(self)@ == (AudioState { log: old(self)@.log.push(r), ..old(self)@ }),
    {
        let mut played = false;
        let mut sound_path: Option<String> = None;
        let reason = match self.playback_block(routine_default, step_override) {
            Some(reason) => reason,
            None => {
                sound_path = Some(self.sound_path(sound_scheme, event));
                if system_played {
                    played = true;
                    SoundPlaybackReason::Played
                } else {
                    SoundPlaybackReason::PlaybackFailed
                }
            },
        };
        let record = SoundPlaybackRecord {
            routine_id: owned_opt(routine_id),
            step_id: owned_opt(step_id),
            event,
            played,
            reason,
            sound_path,
            timestamp,
        };
        self.log.push(record.duplicate());
        record
    }

    pub fn logs(&self) -> (r: &[SoundPlaybackRecord])
        ensures
            r@ == self@.log,
    {
        self.log.as_slice()
    }

    /// Hands out the log and empties it.
    pub fn take_logs(&mut self) -> (r: Vec<SoundPlaybackRecord>)
        ensures
            r@ == old(self)@.log,
            final(self)@ == (AudioState { log: Seq::empty(), ..old(self)@ }),
    {
        let mut out: Vec<SoundPlaybackRecord> = Vec::new();
        std::mem::swap(&mut out, &mut self.log);
        assert(self@.log =~= Seq::<SoundPlaybackRecord>::empty());
        out
    }

    /// Whether a failed playback should be reported: once per run of failures, again only
    /// after a sound has played.
    pub fn should_notify_failure(&mut self, record: &SoundPlaybackRecord) -> (r: bool)
        ensures
            r == (record.reason == SoundPlaybackReason::PlaybackFailed && !old(
                self,
            )@.failure_notified),
            final(self)@ == (AudioState {
                failure_notified: match record.reason {
                    SoundPlaybackReason::Played => false,
                    SoundPlaybackReason::PlaybackFailed => true,
                    _ => old(self)@.failure_notified,
                },
                ..old(self)@
            }),
    {
        match record.reason {
            SoundPlaybackReason::Played => {
                self.failure_notified = false;
                false
            },
            SoundPlaybackReason::PlaybackFailed => {
                if self.failure_notified {
                    false
                } else {
                    self.failure_notified = true;
                    true
                }
            },
            _ => false,
        }
    }
}

} // verus!
