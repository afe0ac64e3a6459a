//! Messages of the background metadata enrichment.
use vstd::prelude::*;

use crate::track::Track;

verus! {

/// A message sent from the enrichment task back to the main thread.
#[derive(Debug)]
pub enum EnrichmentUpdate {
    TrackUpdated(Track),
}

} // verus!
