use vstd::prelude::*;
use crate::utils::Domain;

verus! {

/// A processing strategy that turns an audio signal into LED output.
pub trait EffectProcessing {
    /// Mel points this effect needs for `n_led` LEDs.
    spec fn mel_points(&self, n_led: usize) -> usize;

    /// Defines how many mel points should be calculated for this effect.
    fn n_mel(&self, n_led: usize) -> (r: usize)
        ensures
            r == self.mel_points(n_led),
    ;
}

/// Effect driven by the mel spectrum: one mel point per two LEDs.
#[derive(Clone, Copy, Debug, PartialEq, Eq, Structural)]
pub struct FrequencyEffect;

impl EffectProcessing for FrequencyEffect {
    open spec fn mel_points(&self, n_led: usize) -> usize {
        n_led / 2
    }

    fn n_mel(&self, n_led: usize) -> (r: usize) {
        n_led / 2
    }
}

/// The effect processors this library offers.
#[derive(Clone, Copy, Debug, PartialEq, Eq, Structural)]
pub enum EffectProcessor {
    Frequency(FrequencyEffect),
}

impl EffectProcessing for EffectProcessor {
    open spec fn mel_points(&self, n_led: usize) -> usize {
        match self {
            EffectProcessor::Frequency(e) => e.mel_points(n_led),
        }
    }

    fn n_mel(&self, n_led: usize) -> (r: usize) {
        match self {
            EffectProcessor::Frequency(e) => e.n_mel(n_led),
        }
    }
}

/// Display data of an effect.
#[derive(Clone, Copy, Debug)]
pub struct EffectInfo {
    pub name: &'static str,
    pub icon: &'static str,
    pub domain: Domain,
}

/// An effect: its display data and the processor that computes it.
pub struct Effect {
    info: EffectInfo,
    processor: EffectProcessor,
}

impl Effect {
    /// The display data of the effect.
    pub closed spec fn info(&self) -> EffectInfo {
        self.info
    }

    /// The processor of the effect.
    pub closed spec fn processor(&self) -> EffectProcessor {
        self.processor
    }

    pub fn new(name: &'static str, icon: &'static str, domain: Domain, processor: EffectProcessor) -> (r:
        Effect)
        ensures
            r.info() == (EffectInfo { name, icon, domain }),
            r.processor() == processor,
    {
        Effect { info: EffectInfo { name, icon, domain }, processor }
    }

    /// Name of the effect.
    pub fn name(&self) -> (r: &str)
        ensures
            r@ == self.info().name@,
    {
        self.info.name
    }

    /// Path to the icon of the effect.
    pub fn icon(&self) -> (r: &str)
        ensures
            r@ == self.info().icon@,
    {
        self.info.icon
    }

    /// Frequency or wave effect.
    pub fn domain(&self) -> (r: Domain)
        ensures
            r == self.info().domain,
    {
        self.info.domain
    }

    /// A fresh copy of the effect's processor.
    pub fn create(&self) -> (r: EffectProcessor)
        ensures
            r == self.processor(),
    {
        self.processor
    }

    /// A copy of the effect's display data.
    pub fn get_info(&self) -> (r: EffectInfo)
        ensures
            r == self.info(),
    {
        self.info
    }
}

} // verus!
