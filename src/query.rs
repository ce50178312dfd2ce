use vstd::prelude::*;
use crate::fleet::FLEET_LIMIT;

verus! {

/// Database that holds the reports.
pub const DATABASE_NAME: &'static str = "ais_map";

/// Collection of the reports in [`DATABASE_NAME`].
pub const COLLECTION_NAME: &'static str = "position_reports";

/// Path of a report's vessel identifier in a stored document.
pub const MMSI_FIELD: &'static str = "MetaData.MMSI";

/// Path of a report's UTC timestamp in a stored document.
pub const TIME_FIELD: &'static str = "MetaData.time_utc";

/// Selects the documents whose `field` equals `mmsi`.
pub struct VesselFilter {
    pub field: &'static str,
    pub mmsi: u32,
}

/// One stage of an aggregation over the stored reports.
pub enum Stage {
    /// Order the documents by `field`, greatest (most recent) first.
    SortDescending { field: &'static str },
    /// Group the documents by the value of `key`, keeping the first document of
    /// each group.
    KeepFirstPerKey { key: &'static str },
    /// Put in place of each group the document it kept.
    UnwrapKept,
    /// Pass on at most `count` documents.
    Limit { count: u64 },
}

/// The filter that finds the report of vessel `mmsi`.
pub fn vessel_filter(mmsi: u32) -> (r: VesselFilter)
    ensures
        r == (VesselFilter { field: MMSI_FIELD, mmsi }),
{
    VesselFilter { field: MMSI_FIELD, mmsi }
}

/// The aggregation that yields the fleet snapshot: all reports from the most
/// recent down, the first of each vessel, at most `FLEET_LIMIT` of them.
pub fn fleet_pipeline() -> (r: Vec<Stage>)
    ensures
        r@ == seq![
            Stage::SortDescending { field: TIME_FIELD },
            Stage::KeepFirstPerKey { key: MMSI_FIELD },
            Stage::UnwrapKept,
            Stage::Limit { count: FLEET_LIMIT as u64 },
        ],
{
    let mut r: Vec<Stage> = Vec::new();
    r.push(Stage::SortDescending { field: TIME_FIELD });
    r.push(Stage::KeepFirstPerKey { key: MMSI_FIELD });
    r.push(Stage::UnwrapKept);
    r.push(Stage::Limit { count: FLEET_LIMIT as u64 });
    r
}

} // verus!
