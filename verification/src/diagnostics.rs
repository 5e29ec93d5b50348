//! Where the core's log messages go.

use vstd::prelude::*;

verus! {

#[derive(Clone, Copy, Debug, PartialEq, Eq, Structural)]
pub enum Level {
    Trace,
    Info,
    Warn,
}

/// A receiver of log messages.
pub trait LogSink {
    /// The sink has received the message. A sink that does not say what this
    /// means of it may do anything with a message.
    open spec fn logged(&self, level: Level, target: Seq<char>, message: Seq<char>) -> bool {
        true
    }

    fn log(&self, level: Level, target: &str, message: &str)
        ensures
            self.logged(level, target@, message@),
    ;
}

/// The place for a sink, which is filled once.
pub struct LogSlot<S: LogSink> {
    sink: Option<S>,
}

impl<S: LogSink> LogSlot<S> {
    /// The sink, if one was set.
    pub closed spec fn view(self) -> Option<S> {
        self.sink
    }

    /// A place without a sink.
    pub fn new() -> (slot: Self)
        ensures
            slot@ is None,
    {
        LogSlot { sink: None }
    }
}

/// What comes of a sink that is offered, and the place after it.
pub open spec fn offered<S>(slot: Option<S>, sink: S) -> (Result<(), S>, Option<S>) {
    match slot {
        None => (Ok(()), Some(sink)),
        Some(_) => (Err(sink), slot),
    }
}

/// Set the sink. Only the first one is taken; any other is handed back.
pub fn try_set_log_sink<S: LogSink>(slot: &mut LogSlot<S>, sink: S) -> (result: Result<(), S>)
    ensures
        (result, final(slot)@) == offered(old(slot)@, sink),
{
    if slot.sink.is_some() {
        Err(sink)
    } else {
        slot.sink = Some(sink);
        Ok(())
    }
}

/// Whether a sink was set.
pub fn has_log_sink<S: LogSink>(slot: &LogSlot<S>) -> (set: bool)
    ensures
        set == (slot@ is Some),
{
    slot.sink.is_some()
}

/// The sink, if there is one, has received the message.
pub open spec fn received<S: LogSink>(
    slot: Option<S>,
    level: Level,
    target: Seq<char>,
    message: Seq<char>,
) -> bool {
    slot matches Some(sink) ==> sink.logged(level, target, message)
}

/// Hand a message to the sink, if there is one.
pub fn emit<S: LogSink>(slot: &LogSlot<S>, level: Level, target: &str, message: &str) -> (handed:
    bool)
    ensures
        handed == (slot@ is Some),
        received(slot@, level, target@, message@),
{
    match &slot.sink {
        Some(sink) => {
            sink.log(level, target, message);
            true
        },
        None => false,
    }
}

/// The place after sinks were offered one by one, as [`try_set_log_sink`] takes
/// them.
pub open spec fn after_offers<S>(slot: Option<S>, sinks: Seq<S>) -> Option<S>
    decreases sinks.len(),
{
    if sinks.len() == 0 {
        slot
    } else {
        offered(after_offers(slot, sinks.drop_last()), sinks.last()).1
    }
}

/// A sink that is offered to an empty place is taken; to a taken one, it comes back
/// to who offered it, and the place keeps what it had.
pub proof fn law_sinks_are_taken_or_come_back<S>(first: S, sink: S)
    ensures
        offered(None, sink).0 is Ok,
        offered(None, sink).1 == Some(sink),
        offered(Some(first), sink).0 == Err::<(), S>(sink),
        offered(Some(first), sink).1 == Some(first),
{
}

/// Of all sinks ever offered, the first one stays.
pub proof fn law_first_sink_stays<S>(slot: Option<S>, sinks: Seq<S>)
    requires
        sinks.len() > 0,
    ensures
        after_offers(slot, sinks) == match slot {
            None => Some(sinks[0]),
            Some(sink) => Some(sink),
        },
    decreases sinks.len(),
{
    if sinks.len() > 1 {
        law_first_sink_stays(slot, sinks.drop_last());
    } else {
        assert(after_offers(slot, sinks.drop_last()) == slot);
    }
}

/// Whatever sinks are offered later, the first one goes on to receive the
/// messages that are emitted.
pub proof fn law_first_sink_receives<S: LogSink>(
    first: S,
    offered: Seq<S>,
    level: Level,
    target: Seq<char>,
    message: Seq<char>,
)
    requires
        received(after_offers(Some(first), offered), level, target, message),
    ensures
        first.logged(level, target, message),
{
    if offered.len() > 0 {
        law_first_sink_stays(Some(first), offered);
    }
}

} // verus!
