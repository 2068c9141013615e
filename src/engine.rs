use vstd::prelude::*;
use crate::effects::{Effect, EffectInfo, EffectProcessor, FrequencyEffect};
use crate::errors::ApplicationError;
use crate::filters::{Filter, FilterInfo};
use crate::utils::Domain;

verus! {

/// The engine's choice of processing: the effects and filters on offer,
/// which of them is selected, whether filtering is switched on, and the
/// number of LEDs driven.
pub struct Engine {
    n_led: usize,
    effects: Vec<Effect>,
    filters: Vec<Filter>,
    filtering: bool,
    current_effect: usize,
    current_filter: usize,
}

impl Engine {
    pub closed spec fn leds(&self) -> usize {
        self.n_led
    }

    pub closed spec fn effect_list(&self) -> Seq<Effect> {
        self.effects@
    }

    pub closed spec fn filter_list(&self) -> Seq<Filter> {
        self.filters@
    }

    pub closed spec fn filtering_on(&self) -> bool {
        self.filtering
    }

    pub closed spec fn effect_index(&self) -> usize {
        self.current_effect
    }

    pub closed spec fn filter_index(&self) -> usize {
        self.current_filter
    }

    /// An engine for `n_led` LEDs offering the frequency effect and no
    /// filter, with the first effect selected and filtering off.
    pub fn new(n_led: usize) -> (r: Engine)
        ensures
            r.leds() == n_led,
            r.effect_list().len() == 1,
            r.effect_list()[0].info().name@ == "Frequency Effect"@,
            r.effect_list()[0].info().icon@ == "/fdgfd"@,
            r.effect_list()[0].info().domain == Domain::FrequencyDomain,
            r.effect_list()[0].processor() == EffectProcessor::Frequency(FrequencyEffect),
            r.filter_list().len() == 0,
            !r.filtering_on(),
            r.effect_index() == 0,
            r.filter_index() == 0,
    {
        let mut effects: Vec<Effect> = Vec::new();
        effects.push(
            Effect::new(
                "Frequency Effect",
                "/fdgfd",
                Domain::FrequencyDomain,
                EffectProcessor::Frequency(FrequencyEffect),
            ),
        );
        Engine {
            n_led,
            effects,
            filters: Vec::new(),
            filtering: false,
            current_effect: 0,
            current_filter: 0,
        }
    }

    /// Number of LEDs driven.
    pub fn n_led(&self) -> (r: usize)
        ensures
            r == self.leds(),
    {
        self.n_led
    }

    /// The display data of every effect on offer, in order.
    pub fn get_effects(&self) -> (r: Vec<EffectInfo>)
        ensures
            r@.len() == self.effect_list().len(),
            forall|i: int| 0 <= i < r@.len() ==> #[trigger] r@[i] == self.effect_list()[i].info(),
    {
        let mut list: Vec<EffectInfo> = Vec::new();
        let mut i: usize = 0;
        while i < self.effects.len()
            invariant
                i <= self.effects@.len(),
                list@.len() == i,
                forall|k: int| 0 <= k < i ==> #[trigger] list@[k] == self.effects@[k].info(),
            decreases self.effects@.len() - i,
        {
            list.push(self.effects[i].get_info());
            i = i + 1;
        }
        list
    }

    /// The display data of every filter on offer, in order.
    pub fn get_filters(&self) -> (r: Vec<FilterInfo>)
        ensures
            r@.len() == self.filter_list().len(),
            forall|i: int| 0 <= i < r@.len() ==> #[trigger] r@[i] == self.filter_list()[i].info(),
    {
        let mut list: Vec<FilterInfo> = Vec::new();
        let mut i: usize = 0;
        while i < self.filters.len()
            invariant
                i <= self.filters@.len(),
                list@.len() == i,
                forall|k: int| 0 <= k < i ==> #[trigger] list@[k] == self.filters@[k].info(),
            decreases self.filters@.len() - i,
        {
            list.push(self.filters[i].get_info());
            i = i + 1;
        }
        list
    }

    /// Selects the effect at `position`; an unknown position is reported when
    /// the current effect is asked for.
    pub fn set_effect(&mut self, position: usize)
        ensures
            final(self).effect_index() == position,
            final(self).leds() == old(self).leds(),
            final(self).effect_list() == old(self).effect_list(),
            final(self).filter_list() == old(self).filter_list(),
            final(self).filtering_on() == old(self).filtering_on(),
            final(self).filter_index() == old(self).filter_index(),
    {
        self.current_effect = position;
    }

    /// Selects the filter at `position`.
    pub fn set_filter(&mut self, position: usize)
        ensures
            final(self).filter_index() == position,
            final(self).leds() == old(self).leds(),
            final(self).effect_list() == old(self).effect_list(),
            final(self).filter_list() == old(self).filter_list(),
            final(self).filtering_on() == old(self).filtering_on(),
            final(self).effect_index() == old(self).effect_index(),
    {
        self.current_filter = position;
    }

    pub fn is_filtering_activated(&self) -> (r: bool)
        ensures
            r == self.filtering_on(),
    {
        self.filtering
    }

    pub fn set_filtering(&mut self, value: bool)
        ensures
            final(self).filtering_on() == value,
            final(self).leds() == old(self).leds(),
            final(self).effect_list() == old(self).effect_list(),
            final(self).filter_list() == old(self).filter_list(),
            final(self).effect_index() == old(self).effect_index(),
            final(self).filter_index() == old(self).filter_index(),
    {
        self.filtering = value;
    }

    /// The selected effect, or `EffectNotFound` with the selected position
    /// when no effect stands there.
    pub fn get_current_effect(&self) -> (r: Result<&Effect, ApplicationError>)
        ensures
            self.effect_index() < self.effect_list().len() ==> (r matches Ok(e) && *e
                == self.effect_list()[self.effect_index() as int]),
            self.effect_index() >= self.effect_list().len() ==> (r matches Err(
                ApplicationError::EffectNotFound { id },
            ) && id == self.effect_index()),
    {
        if self.current_effect < self.effects.len() {
            Ok(&self.effects[self.current_effect])
        } else {
            Err(ApplicationError::EffectNotFound { id: self.current_effect })
        }
    }

    /// The selected filter. There is none while filtering is switched on,
    /// nor when no filter stands at the selected position.
    pub fn get_current_filter(&self) -> (r: Option<&Filter>)
        ensures
            self.filtering_on() ==> r is None,
            !self.filtering_on() && self.filter_index() < self.filter_list().len() ==> (r matches Some(f)
                && *f == self.filter_list()[self.filter_index() as int]),
            !self.filtering_on() && self.filter_index() >= self.filter_list().len() ==> r is None,
    {
        if self.filtering {
            return None;
        }
        if self.current_filter < self.filters.len() {
            Some(&self.filters[self.current_filter])
        } else {
            None
        }
    }
}

} // verus!
