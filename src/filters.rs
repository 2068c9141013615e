use vstd::prelude::*;
use crate::utils::Domain;

verus! {

/// Pre-emphasis filter that lifts the high frequencies of a signal.
#[derive(Clone, Copy, Debug, PartialEq, Eq, Structural)]
pub struct SimplePreEmphasisFilter;

/// The filter processors this library offers. A filter keeps the length of
/// the signal it processes.
#[derive(Clone, Copy, Debug, PartialEq, Eq, Structural)]
pub enum FilterProcessor {
    SimplePreEmphasis(SimplePreEmphasisFilter),
}

/// Display data of a filter.
#[derive(Clone, Copy, Debug)]
pub struct FilterInfo {
    pub name: &'static str,
    pub domain: Domain,
}

/// A filter: its display data and the processor that computes it.
pub struct Filter {
    info: FilterInfo,
    processor: FilterProcessor,
}

impl Filter {
    /// The display data of the filter.
    pub closed spec fn info(&self) -> FilterInfo {
        self.info
    }

    /// The processor of the filter.
    pub closed spec fn processor(&self) -> FilterProcessor {
        self.processor
    }

    pub fn new(name: &'static str, domain: Domain, processor: FilterProcessor) -> (r: Filter)
        ensures
            r.info() == (FilterInfo { name, domain }),
            r.processor() == processor,
    {
        Filter { info: FilterInfo { name, domain }, processor }
    }

    /// Name of the filter.
    pub fn name(&self) -> (r: &str)
        ensures
            r@ == self.info().name@,
    {
        self.info.name
    }

    /// Frequency or wave filter.
    pub fn domain(&self) -> (r: Domain)
        ensures
            r == self.info().domain,
    {
        self.info.domain
    }

    /// A fresh copy of the filter's processor.
    pub fn create(&self) -> (r: FilterProcessor)
        ensures
            r == self.processor(),
    {
        self.processor
    }

    /// A copy of the filter's display data.
    pub fn get_info(&self) -> (r: FilterInfo)
        ensures
            r == self.info(),
    {
        self.info
    }
}

} // verus!
