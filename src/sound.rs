use vstd::prelude::*;

verus! {

/// Sound effects for Space Invaders
#[derive(Clone, Copy, Debug, PartialEq, Eq, Structural)]
pub enum SoundEffect {
    Ufo,  // Port 3, bit 0 - UFO (repeating)
    Shot,  // Port 3, bit 1 - Player shot
    PlayerDie,  // Port 3, bit 2 - Player explosion
    InvaderDie,  // Port 3, bit 3 - Invader explosion
    ExtendedPlay,  // Port 3, bit 4 - Extended play (extra ship)
    FleetMove1,  // Port 5, bit 0 - Fleet movement 1
    FleetMove2,  // Port 5, bit 1 - Fleet movement 2
    FleetMove3,  // Port 5, bit 2 - Fleet movement 3
    FleetMove4,  // Port 5, bit 3 - Fleet movement 4
    UfoHit,  // Port 5, bit 4 - UFO hit
}

/// Whether the bit `mask` went from 0 in `before` to 1 in `after`.
pub open spec fn rising(before: u8, after: u8, mask: u8) -> bool {
    before & mask == 0 && after & mask != 0
}

/// `e` alone when `b` holds, else nothing.
pub open spec fn effect_if(b: bool, e: SoundEffect) -> Seq<SoundEffect> {
    if b {
        seq![e]
    } else {
        Seq::empty()
    }
}

/// The effects to start when the sound latches go from (`o3`, `o5`) to
/// (`n3`, `n5`): one per rising bit 0 to 4, port 3's before port 5's.
pub open spec fn triggered(o3: u8, n3: u8, o5: u8, n5: u8) -> Seq<SoundEffect> {
    effect_if(rising(o3, n3, 0x01), SoundEffect::Ufo) + effect_if(rising(o3, n3, 0x02), SoundEffect::Shot)
        + effect_if(rising(o3, n3, 0x04), SoundEffect::PlayerDie) + effect_if(
        rising(o3, n3, 0x08),
        SoundEffect::InvaderDie,
    ) + effect_if(rising(o3, n3, 0x10), SoundEffect::ExtendedPlay) + effect_if(
        rising(o5, n5, 0x01),
        SoundEffect::FleetMove1,
    ) + effect_if(rising(o5, n5, 0x02), SoundEffect::FleetMove2) + effect_if(
        rising(o5, n5, 0x04),
        SoundEffect::FleetMove3,
    ) + effect_if(rising(o5, n5, 0x08), SoundEffect::FleetMove4) + effect_if(
        rising(o5, n5, 0x10),
        SoundEffect::UfoHit,
    )
}

/// Appends `e` to `out` when `b` holds.
fn push_if(out: &mut Vec<SoundEffect>, b: bool, e: SoundEffect)
    ensures
        final(out)@ == old(out)@ + effect_if(b, e),
{
    if b {
        out.push(e);
    } else {
        assert(out@ =~= out@ + Seq::<SoundEffect>::empty());
    }
}

/// Edge detector over the two sound latches: remembers the last values seen.
pub struct SoundTriggers {
    pub last_port3: u8,
    pub last_port5: u8,
}

impl SoundTriggers {
    /// Both latches seen as zero.
    pub fn new() -> (r: Self)
        ensures
            r.last_port3 == 0 && r.last_port5 == 0,
    {
        SoundTriggers { last_port3: 0, last_port5: 0 }
    }

    /// The effects that start on this frame's latch values, which become the
    /// last values seen.
    pub fn update(&mut self, port3: u8, port5: u8) -> (r: Vec<SoundEffect>)
        ensures
            r@ == triggered(old(self).last_port3, port3, old(self).last_port5, port5),
            final(self).last_port3 == port3,
            final(self).last_port5 == port5,
    {
        let o3 = self.last_port3;
        let o5 = self.last_port5;
        let mut out: Vec<SoundEffect> = Vec::new();
        push_if(&mut out, o3 & 0x01 == 0 && port3 & 0x01 != 0, SoundEffect::Ufo);
        push_if(&mut out, o3 & 0x02 == 0 && port3 & 0x02 != 0, SoundEffect::Shot);
        push_if(&mut out, o3 & 0x04 == 0 && port3 & 0x04 != 0, SoundEffect::PlayerDie);
        push_if(&mut out, o3 & 0x08 == 0 && port3 & 0x08 != 0, SoundEffect::InvaderDie);
        push_if(&mut out, o3 & 0x10 == 0 && port3 & 0x10 != 0, SoundEffect::ExtendedPlay);
        push_if(&mut out, o5 & 0x01 == 0 && port5 & 0x01 != 0, SoundEffect::FleetMove1);
        push_if(&mut out, o5 & 0x02 == 0 && port5 & 0x02 != 0, SoundEffect::FleetMove2);
        push_if(&mut out, o5 & 0x04 == 0 && port5 & 0x04 != 0, SoundEffect::FleetMove3);
        push_if(&mut out, o5 & 0x08 == 0 && port5 & 0x08 != 0, SoundEffect::FleetMove4);
        push_if(&mut out, o5 & 0x10 == 0 && port5 & 0x10 != 0, SoundEffect::UfoHit);
        assert(Seq::<SoundEffect>::empty() + effect_if(rising(o3, port3, 0x01), SoundEffect::Ufo)
            =~= effect_if(rising(o3, port3, 0x01), SoundEffect::Ufo));
        self.last_port3 = port3;
        self.last_port5 = port5;
        out
    }
}

} // verus!
