use vstd::prelude::*;

verus! {

/// One timestamped position report of a vessel, as read from the store.
///
/// Only the vessel identifier and the timestamp are read by the library; the
/// stored document itself is carried through untouched as its encoded bytes.
pub struct PositionReport {
    /// Maritime identifier of the vessel (MMSI).
    pub mmsi: u32,
    /// UTC timestamp of the report, in milliseconds since the Unix epoch.
    pub time_utc: i64,
    /// The whole stored document, encoded; opaque to the library.
    pub document: Vec<u8>,
}

/// Mathematical value of a position report.
pub struct ReportView {
    pub mmsi: u32,
    pub time_utc: i64,
    pub document: Seq<u8>,
}

impl View for PositionReport {
    type V = ReportView;

    open spec fn view(&self) -> ReportView {
        ReportView { mmsi: self.mmsi, time_utc: self.time_utc, document: self.document@ }
    }
}

impl PositionReport {
    pub fn new(mmsi: u32, time_utc: i64, document: Vec<u8>) -> (r: PositionReport)
        ensures
            r.mmsi == mmsi,
            r.time_utc == time_utc,
            r.document == document,
    {
        PositionReport { mmsi, time_utc, document }
    }

    /// A copy of the report with the same value.
    pub fn duplicate(&self) -> (r: PositionReport)
        ensures
            r@ == self@,
    {
        let document = self.document.clone();
        assert(document@ =~= self.document@);
        PositionReport { mmsi: self.mmsi, time_utc: self.time_utc, document }
    }
}

} // verus!
