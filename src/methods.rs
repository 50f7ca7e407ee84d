//! A race that records its lap times.
use vstd::prelude::*;

verus! {

broadcast use vstd::string::to_string_from_display_ensures_for_str;

/// A named race and its lap times, in the order they were run.
#[derive(Debug)]
pub struct Race {
    pub name: String,
    pub laps: Vec<i32>,
}

impl Race {
    /// A race called `name`, with no laps yet.
    pub fn new(name: &str) -> (r: Self)
        ensures
            r.name@ == name@,
            r.laps@ == Seq::<i32>::empty(),
    {
        Self { name: name.to_string(), laps: Vec::new() }
    }

    /// Records one more lap time.
    pub fn add_lap(&mut self, lap: i32)
        ensures
            final(self).name == old(self).name,
            final(self).laps@ == old(self).laps@.push(lap),
    {
        self.laps.push(lap);
    }
}

} // verus!
