//! What the display reads: the history of rates behind the traffic graph.

pub mod graph;
