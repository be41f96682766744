// A small news-feed library: records that can summarize themselves through
// one shared capability, with the summaries' exact text proved.

pub mod functions;
pub mod summary;
