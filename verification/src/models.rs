use vstd::prelude::*;

verus! {

/// One mail message, normalized into plain values: header-derived fields,
/// the provider's labels, and the importance score the classifier assigned.
/// `date` is a UTC timestamp in whole seconds since the Unix epoch.
#[derive(Debug, Clone)]
pub struct EmailSummary {
    pub id: String,
    pub subject: String,
    pub sender: String,
    pub sender_email: String,
    pub date: i64,
    pub snippet: String,
    pub is_read: bool,
    pub labels: Vec<String>,
    pub importance_score: u8,
}

/// The three priority tiers a message can be assigned. They serialize as the
/// integers that `as_u8` returns: low priority is 1, normal 2, high 3.
#[derive(Debug, Clone, Copy, PartialEq, Eq, Structural)]
pub enum ImportanceScore {
    Low,
    Normal,
    High,
}

impl ImportanceScore {
    /// The numeric value of this tier.
    pub open spec fn spec_value(self) -> u8 {
        match self {
            ImportanceScore::Low => 1,
            ImportanceScore::Normal => 2,
            ImportanceScore::High => 3,
        }
    }

    /// The numeric value of this tier, as it appears in serialized summaries.
    pub fn as_u8(self) -> (r: u8)
        ensures
            r == self.spec_value(),
    {
        match self {
            ImportanceScore::Low => 1,
            ImportanceScore::Normal => 2,
            ImportanceScore::High => 3,
        }
    }
}

/// A search request: the provider query string and the smallest importance
/// score a returned message may have.
#[derive(Debug)]
pub struct SearchQuery {
    pub query: String,
    pub min_score: u8,
}

/// The lower bound used for `min_score` when a search request leaves it out:
/// it admits every message.
pub fn default_min_score() -> (r: u8)
    ensures
        r == 1,
{
    1
}

/// A request to delete several messages by provider id.
#[derive(Debug)]
pub struct BulkDeleteRequest {
    pub ids: Vec<String>,
}

} // verus!
