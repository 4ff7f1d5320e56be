use vstd::prelude::*;

verus! {

/// What is kept between runs: affection and a few counters.
#[derive(Debug, Clone, Copy, PartialEq, Eq, Structural)]
pub struct SaveData {
    pub affection: u32,
    pub total_feeds: u32,
    pub total_seconds: u64,
    pub last_save_timestamp: u64,
}

impl Default for SaveData {
    fn default() -> (s: Self)
        ensures
            s == (SaveData { affection: 0, total_feeds: 0, total_seconds: 0, last_save_timestamp: 0 }),
    {
        SaveData { affection: 0, total_feeds: 0, total_seconds: 0, last_save_timestamp: 0 }
    }
}

} // verus!
