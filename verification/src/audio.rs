//! Sound effect and background track catalogs.
//!
//! Playback itself is an external concern; the library only fixes which
//! sounds exist, their display names, and the asset files they map to.

use vstd::prelude::*;

verus! {

/// Sound effect types.
#[derive(Debug, Clone, Copy, PartialEq, Eq, Structural, Hash)]
pub enum Sfx {
    SelectMove,
    SelectConfirm,
    SelectBack,
    Countdown,
    Go,
    Single,
    Double,
    Triple,
    Quad,
    TSpinSingle,
    TSpinDouble,
    TSpinTriple,
}

impl Sfx {
    /// The asset file of each effect.
    pub open spec fn spec_filename(self) -> Seq<char> {
        match self {
            Sfx::SelectMove => "select_move.wav"@,
            Sfx::SelectConfirm => "select_confirm.wav"@,
            Sfx::SelectBack => "select_back.wav"@,
            Sfx::Countdown => "countdown.wav"@,
            Sfx::Go => "Go.wav"@,
            Sfx::Single => "single.wav"@,
            Sfx::Double => "double.wav"@,
            Sfx::Triple => "single.wav"@,
            Sfx::Quad => "quad.wav"@,
            Sfx::TSpinSingle => "t_spin_single.wav"@,
            Sfx::TSpinDouble => "t_spin_double.wav"@,
            Sfx::TSpinTriple => "t_spin_triple.wav"@,
        }
    }

    /// The asset file to play for this effect. The triple clear reuses the
    /// single clear sound.
    pub fn filename(&self) -> (r: &'static str)
        ensures
            r@ == self.spec_filename(),
    {
        match self {
            Sfx::SelectMove => "select_move.wav",
            Sfx::SelectConfirm => "select_confirm.wav",
            Sfx::SelectBack => "select_back.wav",
            Sfx::Countdown => "countdown.wav",
            Sfx::Go => "Go.wav",
            Sfx::Single => "single.wav",
            Sfx::Double => "double.wav",
            Sfx::Triple => "single.wav",
            Sfx::Quad => "quad.wav",
            Sfx::TSpinSingle => "t_spin_single.wav",
            Sfx::TSpinDouble => "t_spin_double.wav",
            Sfx::TSpinTriple => "t_spin_triple.wav",
        }
    }
}

/// Background music tracks.
#[derive(Debug, Clone, Copy, PartialEq, Eq, Structural, Hash)]
pub enum BgmTrack {
    Korobeiniki,
    KorobeinikiFast,
    Kalinka,
    IevanPolkka,
}

impl BgmTrack {
    /// The asset file of each track.
    pub open spec fn spec_filename(self) -> Seq<char> {
        match self {
            BgmTrack::Korobeiniki => "Korobeiniki.wav"@,
            BgmTrack::KorobeinikiFast => "Korobeiniki_Fast.wav"@,
            BgmTrack::Kalinka => "Kalinka.wav"@,
            BgmTrack::IevanPolkka => "Ivean_Polkka.wav"@,
        }
    }

    /// The asset file holding this track.
    pub fn filename(&self) -> (r: &'static str)
        ensures
            r@ == self.spec_filename(),
    {
        match self {
            BgmTrack::Korobeiniki => "Korobeiniki.wav",
            BgmTrack::KorobeinikiFast => "Korobeiniki_Fast.wav",
            BgmTrack::Kalinka => "Kalinka.wav",
            BgmTrack::IevanPolkka => "Ivean_Polkka.wav",
        }
    }

    /// The display name of each track.
    pub open spec fn spec_name(self) -> Seq<char> {
        match self {
            BgmTrack::Korobeiniki => "Korobeiniki"@,
            BgmTrack::KorobeinikiFast => "Korobeiniki (Fast)"@,
            BgmTrack::Kalinka => "Kalinka"@,
            BgmTrack::IevanPolkka => "Ievan Polkka"@,
        }
    }

    /// The display name of this track.
    pub fn name(&self) -> (r: &'static str)
        ensures
            r@ == self.spec_name(),
    {
        match self {
            BgmTrack::Korobeiniki => "Korobeiniki",
            BgmTrack::KorobeinikiFast => "Korobeiniki (Fast)",
            BgmTrack::Kalinka => "Kalinka",
            BgmTrack::IevanPolkka => "Ievan Polkka",
        }
    }

    /// All tracks, in menu order.
    pub fn all() -> (r: [BgmTrack; 4])
        ensures
            r@ == seq![
                BgmTrack::Korobeiniki,
                BgmTrack::KorobeinikiFast,
                BgmTrack::Kalinka,
                BgmTrack::IevanPolkka,
            ],
    {
        let r = [
            BgmTrack::Korobeiniki,
            BgmTrack::KorobeinikiFast,
            BgmTrack::Kalinka,
            BgmTrack::IevanPolkka,
        ];
        proof {
            assert(r@ =~= seq![
                BgmTrack::Korobeiniki,
                BgmTrack::KorobeinikiFast,
                BgmTrack::Kalinka,
                BgmTrack::IevanPolkka,
            ]);
        }
        r
    }
}

} // verus!
