//! Sound cues: a switch that turns them on and off, and the choice of cue by
//! name. Playing the cue is left to the caller.
use crate::answer::chars_of;
use vstd::prelude::*;
use vstd::string::StrSliceExecFns;

verus! {

/// The cues that can be played.
#[derive(Debug, Clone, Copy, PartialEq, Eq, Structural)]
pub enum SoundKind {
    Beep,
    Applause,
    Buzzer,
}

/// Why a cue cannot be played.
#[derive(Debug, Clone, Copy, PartialEq, Eq, Structural)]
pub enum AudioError {
    UnknownKind,
}

/// Whether sound cues are played.
#[derive(Debug, Clone, Copy, PartialEq, Eq, Structural)]
pub struct SoundSwitch {
    pub enabled: bool,
}

impl SoundSwitch {
    /// Sound starts enabled.
    pub fn new() -> (r: SoundSwitch)
        ensures
            r.enabled,
    {
        SoundSwitch { enabled: true }
    }
}

/// Turns sound cues on or off.
pub fn set_enabled(switch: &mut SoundSwitch, v: bool)
    ensures
        final(switch).enabled == v,
{
    switch.enabled = v;
}

/// Whether sound cues are on.
pub fn is_enabled(switch: &SoundSwitch) -> (r: bool)
    ensures
        r == switch.enabled,
{
    switch.enabled
}

/// The cue that `name` names.
pub open spec fn sound_kind_of(name: Seq<char>) -> Option<SoundKind> {
    if name == "beep"@ {
        Some(SoundKind::Beep)
    } else if name == "applause"@ {
        Some(SoundKind::Applause)
    } else if name == "buzzer"@ {
        Some(SoundKind::Buzzer)
    } else {
        None
    }
}

/// Whether the characters `s` spell `w`.
fn spells(s: &Vec<char>, w: &str) -> (r: bool)
    ensures
        r == (s@ == w@),
{
    let n = w.unicode_len();
    if s.len() != n {
        return false;
    }
    let mut i: usize = 0;
    while i < n
        invariant
            i <= n == s@.len() == w@.len(),
            s@.take(i as int) == w@.take(i as int),
        decreases n - i,
    {
        if s[i] != w.get_char(i) {
            return false;
        }
        assert(s@.take(i + 1) =~= s@.take(i as int).push(s@[i as int]));
        assert(w@.take(i + 1) =~= w@.take(i as int).push(w@[i as int]));
        i = i + 1;
    }
    assert(s@ =~= s@.take(n as int));
    assert(w@ =~= w@.take(n as int));
    true
}

/// Decides what playing the cue `kind` means: nothing while sound is off
/// (whatever the name), the named cue while it is on, and `UnknownKind` for
/// a name that is no cue.
pub fn play_kind(switch: &SoundSwitch, kind: &str) -> (r: Result<Option<SoundKind>, AudioError>)
    ensures
        !switch.enabled ==> r == Ok::<Option<SoundKind>, AudioError>(None),
        switch.enabled ==> r == match sound_kind_of(kind@) {
            Some(k) => Ok::<Option<SoundKind>, AudioError>(Some(k)),
            None => Err(AudioError::UnknownKind),
        },
{
    if !switch.enabled {
        return Ok(None);
    }
    let name = chars_of(kind);
    if spells(&name, "beep") {
        Ok(Some(SoundKind::Beep))
    } else if spells(&name, "applause") {
        Ok(Some(SoundKind::Applause))
    } else if spells(&name, "buzzer") {
        Ok(Some(SoundKind::Buzzer))
    } else {
        Err(AudioError::UnknownKind)
    }
}

} // verus!
