//! The processing step between discovery and the event sink: a discovered
//! token becomes a discovery event for the sink to publish.  The transport
//! itself (serialization, the pub/sub connection) lives outside the
//! library; a sink failure is the pipeline's only propagated hard error.

use vstd::prelude::*;
use crate::config::Config;
use crate::models::{Event, Token};

verus! {

/// Turns pipeline results into events for the external sink.
#[derive(Clone, Debug)]
pub struct Processor {
    pub config: Config,
}

impl Processor {
    /// A processor over the given configuration.
    pub fn new(config: Config) -> (p: Processor)
        ensures
            p.config == config,
    {
        Processor { config }
    }

    /// The event published for one discovered token: always the
    /// "token discovered" variant, carrying the record unchanged.
    pub fn discovery_event(&self, token: Token) -> (e: Event)
        ensures
            e == Event::TokenDiscovered(token),
    {
        Event::TokenDiscovered(token)
    }

    /// Records a token's graduation to a trading pair.  The core takes no
    /// action of its own here and the step never fails.
    pub fn process_token_graduated(&self, token_address: String, pair_address: String) -> (r:
        Result<(), ()>)
        ensures
            r is Ok,
    {
        let _ = token_address;
        let _ = pair_address;
        Ok(())
    }
}

} // verus!
