//! The events that tell the cluster what was done to a pod.

use vstd::prelude::*;
use vstd::string::StringExecFns;

verus! {

/// How serious an event is.
#[derive(Clone, Copy, Debug, PartialEq, Eq, Structural)]
pub enum EventType {
    Normal,
    Warning,
}

/// Something that happened to a pod, to be published to the cluster.
#[derive(Debug)]
pub struct Event {
    pub type_: EventType,
    pub reason: String,
    pub note: Option<String>,
    pub action: String,
}

/// An event as a plain value.
pub struct EventView {
    pub type_: EventType,
    pub reason: Seq<char>,
    pub note: Option<Seq<char>>,
    pub action: Seq<char>,
}

impl View for Event {
    type V = EventView;

    open spec fn view(&self) -> EventView {
        EventView {
            type_: self.type_,
            reason: self.reason@,
            note: match self.note {
                Some(note) => Some(note@),
                None => None,
            },
            action: self.action@,
        }
    }
}

/// The object that an event is about.
#[derive(Debug, Default)]
pub struct ObjectReference {
    pub name: Option<String>,
    pub namespace: Option<String>,
    pub uid: Option<String>,
}

/// Where events go. Publishing may fail; the failure is told in words.
pub trait EventSink {
    fn publish(&mut self, subject: &ObjectReference, event: &Event) -> Result<(), String>;
}

/// The word that events use for what is done to a sidecar and why.
pub open spec fn killing() -> Seq<char> {
    "Killing"@
}

/// The event that tells of a sidecar that was shut down.
pub open spec fn shutdown_event(container: Seq<char>) -> EventView {
    EventView {
        type_: EventType::Normal,
        reason: killing(),
        note: Some("Shut down container "@ + container),
        action: killing(),
    }
}

/// The event that tells of a sidecar that could not be shut down, and why.
pub open spec fn failure_event(container: Seq<char>, reason: Seq<char>) -> EventView {
    EventView {
        type_: EventType::Warning,
        reason: killing(),
        note: Some("Unsuccessfully shut down container "@ + container + ": "@ + reason),
        action: killing(),
    }
}

impl Event {
    /// The event for a sidecar that was shut down.
    pub fn shutdown(container: &str) -> (event: Event)
        ensures
            event@ == shutdown_event(container@),
    {
        let mut note = String::from_str("Shut down container ");
        note.append(container);
        Event {
            type_: EventType::Normal,
            reason: String::from_str("Killing"),
            note: Some(note),
            action: String::from_str("Killing"),
        }
    }

    /// The event for a sidecar that could not be shut down.
    pub fn failure(container: &str, reason: &str) -> (event: Event)
        ensures
            event@ == failure_event(container@, reason@),
    {
        let mut note = String::from_str("Unsuccessfully shut down container ");
        note.append(container);
        note.append(": ");
        note.append(reason);
        Event {
            type_: EventType::Warning,
            reason: String::from_str("Killing"),
            note: Some(note),
            action: String::from_str("Killing"),
        }
    }
}

/// Who reports events: the controller, and the instance of it that runs.
#[derive(Debug)]
pub struct Reporter {
    pub controller: String,
    pub instance: Option<String>,
}

/// A point in time: seconds since the Unix epoch, and the nanoseconds
/// into that second.
#[derive(Clone, Copy, Debug, PartialEq, Eq, Structural)]
pub struct Timestamp {
    pub seconds: i64,
    pub nanoseconds: u32,
}

/// An event as the cluster stores it.
#[derive(Debug)]
pub struct EventRecord {
    pub action: String,
    pub reason: String,
    pub type_: String,
    pub message: String,
    pub first_timestamp: Timestamp,
    pub last_timestamp: Timestamp,
    pub involved_object: ObjectReference,
    pub namespace: Option<String>,
    pub generate_name: String,
    pub reporting_component: String,
    pub reporting_instance: String,
}

/// Writes the events about one object, in the name of one reporter.
#[derive(Debug)]
pub struct Recorder {
    pub reporter: Reporter,
    pub reference: ObjectReference,
}

impl Reporter {
    /// The instance that reports: the one named, else the controller itself.
    pub open spec fn reporting_instance(&self) -> Seq<char> {
        match self.instance {
            Some(instance) => instance@,
            None => self.controller@,
        }
    }
}

impl Recorder {
    /// Whether `record` is the event of the given type and message that
    /// this recorder writes at the time `now`. It happens once, at that
    /// time, to the recorder's object and in its namespace; its name is
    /// generated from the controller's name and a hyphen.
    pub open spec fn writes(
        &self,
        record: EventRecord,
        type_: Seq<char>,
        message: Seq<char>,
        now: Timestamp,
    ) -> bool {
        &&& record.action@ == killing()
        &&& record.reason@ == killing()
        &&& record.type_@ == type_
        &&& record.message@ == message
        &&& record.first_timestamp == now
        &&& record.last_timestamp == now
        &&& record.involved_object == self.reference
        &&& record.namespace == self.reference.namespace
        &&& record.generate_name@ == self.reporter.controller@ + "-"@
        &&& record.reporting_component@ == self.reporter.controller@
        &&& record.reporting_instance@ == self.reporter.reporting_instance()
    }

    /// A recorder of events about `reference`.
    pub fn new(reporter: Reporter, reference: ObjectReference) -> (recorder: Recorder)
        ensures
            recorder.reporter == reporter,
            recorder.reference == reference,
    {
        Recorder { reporter, reference }
    }

    /// The event of type `Normal` with this message.
    pub fn info(&self, message: String, now: Timestamp) -> (record: EventRecord)
        ensures
            self.writes(record, "Normal"@, message@, now),
    {
        self.event(String::from_str("Normal"), message, now)
    }

    /// The event of type `Warning` with this message.
    pub fn warn(&self, message: String, now: Timestamp) -> (record: EventRecord)
        ensures
            self.writes(record, "Warning"@, message@, now),
    {
        self.event(String::from_str("Warning"), message, now)
    }

    fn event(&self, type_: String, message: String, now: Timestamp) -> (record: EventRecord)
        ensures
            self.writes(record, type_@, message@, now),
    {
        let mut generate_name = self.reporter.controller.clone();
        generate_name.append("-");
        let reporting_instance = match &self.reporter.instance {
            Some(instance) => instance.clone(),
            None => self.reporter.controller.clone(),
        };
        EventRecord {
            action: String::from_str("Killing"),
            reason: String::from_str("Killing"),
            type_,
            message,
            first_timestamp: now,
            last_timestamp: now,
            involved_object: self.reference.clone(),
            namespace: copy_text(&self.reference.namespace),
            generate_name,
            reporting_component: self.reporter.controller.clone(),
            reporting_instance,
        }
    }
}

/// Copies a text that may be missing.
pub fn copy_text(text: &Option<String>) -> (copy: Option<String>)
    ensures
        copy == *text,
{
    match text {
        Some(text) => Some(text.clone()),
        None => None,
    }
}

impl Clone for ObjectReference {
    fn clone(&self) -> (copy: ObjectReference)
        ensures
            copy == *self,
    {
        ObjectReference {
            name: copy_text(&self.name),
            namespace: copy_text(&self.namespace),
            uid: copy_text(&self.uid),
        }
    }
}

} // verus!
