//! Records of state changes, kept in the order in which they were emitted.

use vstd::prelude::*;

verus! {

/// Kind of the record emitted for every bet placed and every position sold.
pub const EVENT_BET_UPDATE: u32 = 1;

/// One emitted record: its kind and its payload words.
#[derive(Debug, PartialEq, Eq)]
pub struct Event {
    pub kind: u32,
    pub data: Vec<u64>,
}

impl View for Event {
    type V = (u32, Seq<u64>);

    open spec fn view(&self) -> (u32, Seq<u64>) {
        (self.kind, self.data@)
    }
}

/// The records emitted so far, oldest first.
pub struct EventLog {
    pub events: Vec<Event>,
}

impl View for EventLog {
    type V = Seq<(u32, Seq<u64>)>;

    open spec fn view(&self) -> Seq<(u32, Seq<u64>)> {
        self.events@.map_values(|e: Event| e@)
    }
}

impl EventLog {
    /// A log without records.
    pub fn new() -> (log: Self)
        ensures
            log@ == Seq::<(u32, Seq<u64>)>::empty(),
    {
        let log = EventLog { events: Vec::new() };
        assert(log@ =~= Seq::<(u32, Seq<u64>)>::empty());
        log
    }

    /// Appends a record of `kind` that carries the words of `data`, and
    /// leaves `data` empty.
    pub fn insert_event(&mut self, kind: u32, data: &mut Vec<u64>)
        ensures
            final(self)@ == old(self)@.push((kind, old(data)@)),
            final(data)@ == Seq::<u64>::empty(),
    {
        let mut payload: Vec<u64> = Vec::new();
        payload.append(data);
        let event = Event { kind, data: payload };
        self.events.push(event);
        assert(self@ =~= old(self)@.push((kind, old(data)@)));
    }
}

} // verus!
