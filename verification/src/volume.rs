//! Output volume as a fixed-point fraction of full scale.
//!
//! A volume is a whole number of thousandths between 0 (silent) and 1000
//! (full scale). Whatever number a caller asks for, the volume that results
//! lies in that range.

use vstd::prelude::*;

verus! {

/// Full scale, in thousandths.
pub const FULL_SCALE: u16 = 1000;

/// One step of the volume keys, in thousandths.
pub const VOLUME_STEP: u16 = 100;

/// The volume that a first unmute goes back to, in thousandths.
pub const DEFAULT_VOLUME_BEFORE_MUTE: u16 = 700;

/// `raw` limited to the range from silent to full scale.
pub open spec fn clamp_permille(raw: int) -> nat {
    if raw < 0 {
        0
    } else if raw > 1000 {
        1000
    } else {
        raw as nat
    }
}

/// A volume between silent and full scale.
#[derive(Clone, Copy, Debug)]
pub struct Volume {
    permille: u16,
}

impl View for Volume {
    type V = nat;

    /// The volume in thousandths of full scale.
    closed spec fn view(&self) -> nat {
        self.permille as nat
    }
}

impl Volume {
    #[verifier::type_invariant]
    pub closed spec fn in_range(self) -> bool {
        self.permille <= 1000
    }

    /// The volume nearest to `raw` thousandths.
    pub closed spec fn of_raw(raw: int) -> Volume {
        Volume { permille: clamp_permille(raw) as u16 }
    }

    /// The volume nearest to `raw` thousandths.
    pub fn clamped(raw: i64) -> (v: Volume)
        ensures
            v == Self::of_raw(raw as int),
            v@ == clamp_permille(raw as int),
            v@ <= 1000,
    {
        if raw < 0 {
            Volume { permille: 0 }
        } else if raw > 1000 {
            Volume { permille: 1000 }
        } else {
            Volume { permille: raw as u16 }
        }
    }

    pub fn full() -> (v: Volume)
        ensures
            v@ == 1000,
    {
        Volume { permille: FULL_SCALE }
    }

    pub fn silent() -> (v: Volume)
        ensures
            v@ == 0,
    {
        Volume { permille: 0 }
    }

    /// The volume in thousandths of full scale.
    pub fn permille(&self) -> (p: u16)
        ensures
            p == self@,
            p <= 1000,
    {
        proof {
            use_type_invariant(self);
        }
        self.permille
    }

    /// One step louder, at most full scale.
    pub fn step_up(&self) -> (v: Volume)
        ensures
            v@ == clamp_permille(self@ as int + 100),
    {
        proof {
            use_type_invariant(self);
        }
        if self.permille >= FULL_SCALE - VOLUME_STEP {
            Volume { permille: FULL_SCALE }
        } else {
            Volume { permille: self.permille + VOLUME_STEP }
        }
    }

    /// One step quieter, at least silent.
    pub fn step_down(&self) -> (v: Volume)
        ensures
            v@ == clamp_permille(self@ - 100),
    {
        proof {
            use_type_invariant(self);
        }
        if self.permille <= VOLUME_STEP {
            Volume { permille: 0 }
        } else {
            Volume { permille: self.permille - VOLUME_STEP }
        }
    }
}

/// The volume made from `raw` thousandths is `raw` limited to the range from
/// silent to full scale, whatever `raw` is.
pub proof fn lemma_volume_is_clamped(raw: int)
    ensures
        Volume::of_raw(raw)@ == clamp_permille(raw),
        0 <= Volume::of_raw(raw)@ <= 1000,
{
}

/// The volume setting of the player: the level, whether it is muted, and the
/// level to go back to on unmute.
#[derive(Clone, Copy, Debug)]
pub struct VolumeControl {
    pub volume: Volume,
    pub muted: bool,
    pub volume_before_mute: Volume,
}

impl VolumeControl {
    /// The setting that is restored at startup from a saved level and mute
    /// flag.
    pub fn restored(volume: Volume, muted: bool) -> (c: VolumeControl)
        ensures
            c.volume@ == volume@,
            c.muted == muted,
            c.volume_before_mute@ == (if muted {
                volume@
            } else {
                700
            }),
    {
        let before = if muted {
            volume
        } else {
            Volume { permille: DEFAULT_VOLUME_BEFORE_MUTE }
        };
        VolumeControl { volume, muted, volume_before_mute: before }
    }

    /// Sets the level to `raw` thousandths, limited to the valid range, and
    /// returns the level to hand to the audio output.
    pub fn set_volume(&mut self, raw: i64) -> (applied: Volume)
        ensures
            final(self).volume@ == clamp_permille(raw as int),
            final(self).volume@ <= 1000,
            final(self).muted == old(self).muted,
            final(self).volume_before_mute == old(self).volume_before_mute,
            applied@ == final(self).volume@,
    {
        let v = Volume::clamped(raw);
        self.volume = v;
        v
    }

    /// Mutes, remembering the level, or unmutes, restoring it. Returns the
    /// level to hand to the audio output.
    pub fn toggle_mute(&mut self) -> (applied: Volume)
        ensures
            old(self).muted ==> {
                &&& !final(self).muted
                &&& final(self).volume@ == old(self).volume_before_mute@
                &&& final(self).volume_before_mute@ == old(self).volume_before_mute@
            },
            !old(self).muted ==> {
                &&& final(self).muted
                &&& final(self).volume@ == 0
                &&& final(self).volume_before_mute@ == old(self).volume@
            },
            applied@ == final(self).volume@,
    {
        if self.muted {
            self.volume = self.volume_before_mute;
            self.muted = false;
        } else {
            self.volume_before_mute = self.volume;
            self.volume = Volume::silent();
            self.muted = true;
        }
        self.volume
    }

    /// One step louder; this also unmutes. Returns the level to hand to the
    /// audio output.
    pub fn volume_up(&mut self) -> (applied: Volume)
        ensures
            final(self).volume@ == clamp_permille(old(self).volume@ as int + 100),
            !final(self).muted,
            final(self).volume_before_mute@ == old(self).volume_before_mute@,
            applied@ == final(self).volume@,
    {
        self.volume = self.volume.step_up();
        self.muted = false;
        self.volume
    }

    /// One step quieter. Returns the level to hand to the audio output.
    pub fn volume_down(&mut self) -> (applied: Volume)
        ensures
            final(self).volume@ == clamp_permille(old(self).volume@ - 100),
            final(self).muted == old(self).muted,
            final(self).volume_before_mute@ == old(self).volume_before_mute@,
            applied@ == final(self).volume@,
    {
        self.volume = self.volume.step_down();
        self.volume
    }
}

} // verus!
