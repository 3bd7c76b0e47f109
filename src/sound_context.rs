//! What the sound subsystem needs to know of the engine for one event.

use vstd::prelude::*;

use crate::models::{SoundOverride, SoundScheme, SoundSetting, Step};
use crate::timer_engine::TimerEngine;

verus! {

#[derive(Debug, Clone)]
pub struct SoundContext {
    pub routine_id: Option<String>,
    pub step_id: Option<String>,
    pub routine_default: SoundSetting,
    pub step_override: SoundOverride,
    pub sound_scheme: SoundScheme,
}

/// The sound context of the running routine, for `step` if one is given; `None` when no
/// routine runs.
pub fn build_sound_context(engine: &TimerEngine, step: Option<&Step>) -> (r: Option<SoundContext>)
    ensures
        r is Some <==> engine@.routine is Some,
        r matches Some(c) ==> {
            let routine = engine@.routine->0;
            &&& c.routine_id == Some(routine.id)
            &&& c.step_id == (match step {
                Some(s) => Some(s.id),
                None => None,
            })
            &&& c.routine_default == routine.sound_default
            &&& c.step_override == (match step {
                Some(s) => s.sound_override,
                None => SoundOverride::Inherit,
            })
            &&& c.sound_scheme == routine.sound_scheme
        },
{
    let routine = match engine.current_routine() {
        Some(r) => r,
        None => {
            return None;
        },
    };
    let step_id = match step {
        Some(s) => Some(s.id.clone()),
        None => None,
    };
    let step_override = match step {
        Some(s) => s.sound_override,
        None => SoundOverride::Inherit,
    };
    Some(
        SoundContext {
            routine_id: Some(routine.id.clone()),
            step_id,
            routine_default: routine.sound_default,
            step_override,
            sound_scheme: routine.sound_scheme,
        },
    )
}

} // verus!
