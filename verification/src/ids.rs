//! Identifiers of apps, tasks, instances, models, nodes and media.
use regex::Regex;
use vstd::prelude::*;
use vstd::string::StringExecFns;

use crate::text::{lacks, lemma_split_joined, lemma_split_whole, split_at_sep, split_from};

verus! {

/// Id of a media track node in a task
#[derive(Clone, Debug, PartialEq, Eq, PartialOrd, Ord, Hash)]
pub struct TrackNodeId(String);

impl View for TrackNodeId {
    type V = Seq<char>;

    closed spec fn view(&self) -> Seq<char> {
        self.0@
    }
}

impl TrackNodeId {
    /// Wraps the given text.
    pub fn new(value: String) -> (id: Self)
        ensures
            id@ == value@,
    {
        TrackNodeId(value)
    }

    /// The text of the id.
    pub fn to_string(&self) -> (s: String)
        ensures
            s@ == self@,
    {
        self.0.clone()
    }

    /// The text of the id, borrowed.
    pub fn as_str(&self) -> (s: &str)
        ensures
            s@ == self@,
    {
        self.0.as_str()
    }
}

/// Media item on a track
#[derive(Clone, Debug, PartialEq, Eq, PartialOrd, Ord, Hash)]
pub struct TrackMediaId(String);

impl View for TrackMediaId {
    type V = Seq<char>;

    closed spec fn view(&self) -> Seq<char> {
        self.0@
    }
}

impl TrackMediaId {
    /// Wraps the given text.
    pub fn new(value: String) -> (id: Self)
        ensures
            id@ == value@,
    {
        TrackMediaId(value)
    }

    /// The text of the id.
    pub fn to_string(&self) -> (s: String)
        ensures
            s@ == self@,
    {
        self.0.clone()
    }

    /// The text of the id, borrowed.
    pub fn as_str(&self) -> (s: &str)
        ensures
            s@ == self@,
    {
        self.0.as_str()
    }
}

/// Id of a mixer node in a task
#[derive(Clone, Debug, PartialEq, Eq, PartialOrd, Ord, Hash)]
pub struct MixerNodeId(String);

impl View for MixerNodeId {
    type V = Seq<char>;

    closed spec fn view(&self) -> Seq<char> {
        self.0@
    }
}

impl MixerNodeId {
    /// Wraps the given text.
    pub fn new(value: String) -> (id: Self)
        ensures
            id@ == value@,
    {
        MixerNodeId(value)
    }

    /// The text of the id.
    pub fn to_string(&self) -> (s: String)
        ensures
            s@ == self@,
    {
        self.0.clone()
    }

    /// The text of the id, borrowed.
    pub fn as_str(&self) -> (s: &str)
        ensures
            s@ == self@,
    {
        self.0.as_str()
    }
}

/// Id of a dynamic instance node in a task
#[derive(Clone, Debug, PartialEq, Eq, PartialOrd, Ord, Hash)]
pub struct DynamicInstanceNodeId(String);

impl View for DynamicInstanceNodeId {
    type V = Seq<char>;

    closed spec fn view(&self) -> Seq<char> {
        self.0@
    }
}

impl DynamicInstanceNodeId {
    /// Wraps the given text.
    pub fn new(value: String) -> (id: Self)
        ensures
            id@ == value@,
    {
        DynamicInstanceNodeId(value)
    }

    /// The text of the id.
    pub fn to_string(&self) -> (s: String)
        ensures
            s@ == self@,
    {
        self.0.clone()
    }

    /// The text of the id, borrowed.
    pub fn as_str(&self) -> (s: &str)
        ensures
            s@ == self@,
    {
        self.0.as_str()
    }
}

/// Id of a fixed instance node in a task
#[derive(Clone, Debug, PartialEq, Eq, PartialOrd, Ord, Hash)]
pub struct FixedInstanceNodeId(String);

impl View for FixedInstanceNodeId {
    type V = Seq<char>;

    closed spec fn view(&self) -> Seq<char> {
        self.0@
    }
}

impl FixedInstanceNodeId {
    /// Wraps the given text.
    pub fn new(value: String) -> (id: Self)
        ensures
            id@ == value@,
    {
        FixedInstanceNodeId(value)
    }

    /// The text of the id.
    pub fn to_string(&self) -> (s: String)
        ensures
            s@ == self@,
    {
        self.0.clone()
    }

    /// The text of the id, borrowed.
    pub fn as_str(&self) -> (s: &str)
        ensures
            s@ == self@,
    {
        self.0.as_str()
    }
}

/// Id of a connection between nodes of a task
#[derive(Clone, Debug, PartialEq, Eq, PartialOrd, Ord, Hash)]
pub struct NodeConnectionId(String);

impl View for NodeConnectionId {
    type V = Seq<char>;

    closed spec fn view(&self) -> Seq<char> {
        self.0@
    }
}

impl NodeConnectionId {
    /// Wraps the given text.
    pub fn new(value: String) -> (id: Self)
        ensures
            id@ == value@,
    {
        NodeConnectionId(value)
    }

    /// The text of the id.
    pub fn to_string(&self) -> (s: String)
        ensures
            s@ == self@,
    {
        self.0.clone()
    }

    /// The text of the id, borrowed.
    pub fn as_str(&self) -> (s: &str)
        ensures
            s@ == self@,
    {
        self.0.as_str()
    }
}

/// Id of an app registered with the cloud
#[derive(Clone, Debug, PartialEq, Eq, PartialOrd, Ord, Hash)]
pub struct AppId(String);

impl View for AppId {
    type V = Seq<char>;

    closed spec fn view(&self) -> Seq<char> {
        self.0@
    }
}

impl AppId {
    /// Wraps the given text.
    pub fn new(value: String) -> (id: Self)
        ensures
            id@ == value@,
    {
        AppId(value)
    }

    /// The text of the id.
    pub fn to_string(&self) -> (s: String)
        ensures
            s@ == self@,
    {
        self.0.clone()
    }

    /// The text of the id, borrowed.
    pub fn as_str(&self) -> (s: &str)
        ensures
            s@ == self@,
    {
        self.0.as_str()
    }
}

/// Id of a task
#[derive(Clone, Debug, PartialEq, Eq, PartialOrd, Ord, Hash)]
pub struct TaskId(String);

impl View for TaskId {
    type V = Seq<char>;

    closed spec fn view(&self) -> Seq<char> {
        self.0@
    }
}

impl TaskId {
    /// Wraps the given text.
    pub fn new(value: String) -> (id: Self)
        ensures
            id@ == value@,
    {
        TaskId(value)
    }

    /// The text of the id.
    pub fn to_string(&self) -> (s: String)
        ensures
            s@ == self@,
    {
        self.0.clone()
    }

    /// The text of the id, borrowed.
    pub fn as_str(&self) -> (s: &str)
        ensures
            s@ == self@,
    {
        self.0.as_str()
    }
}

/// Id of a request
#[derive(Clone, Debug, PartialEq, Eq, PartialOrd, Ord, Hash)]
pub struct RequestId(String);

impl View for RequestId {
    type V = Seq<char>;

    closed spec fn view(&self) -> Seq<char> {
        self.0@
    }
}

impl RequestId {
    /// Wraps the given text.
    pub fn new(value: String) -> (id: Self)
        ensures
            id@ == value@,
    {
        RequestId(value)
    }

    /// The text of the id.
    pub fn to_string(&self) -> (s: String)
        ensures
            s@ == self@,
    {
        self.0.clone()
    }

    /// The text of the id, borrowed.
    pub fn as_str(&self) -> (s: &str)
        ensures
            s@ == self@,
    {
        self.0.as_str()
    }
}

/// Id of an audio engine (there may be more than one in a domain)
#[derive(Clone, Debug, PartialEq, Eq, PartialOrd, Ord, Hash)]
pub struct EngineId(String);

impl View for EngineId {
    type V = Seq<char>;

    closed spec fn view(&self) -> Seq<char> {
        self.0@
    }
}

impl EngineId {
    /// Wraps the given text.
    pub fn new(value: String) -> (id: Self)
        ensures
            id@ == value@,
    {
        EngineId(value)
    }

    /// The text of the id.
    pub fn to_string(&self) -> (s: String)
        ensures
            s@ == self@,
    {
        self.0.clone()
    }

    /// The text of the id, borrowed.
    pub fn as_str(&self) -> (s: &str)
        ensures
            s@ == self@,
    {
        self.0.as_str()
    }
}

/// Id of an fixed instance driver (there may be more than one in a domain)
#[derive(Clone, Debug, PartialEq, Eq, PartialOrd, Ord, Hash)]
pub struct InstanceDriverId(String);

impl View for InstanceDriverId {
    type V = Seq<char>;

    closed spec fn view(&self) -> Seq<char> {
        self.0@
    }
}

impl InstanceDriverId {
    /// Wraps the given text.
    pub fn new(value: String) -> (id: Self)
        ensures
            id@ == value@,
    {
        InstanceDriverId(value)
    }

    /// The text of the id.
    pub fn to_string(&self) -> (s: String)
        ensures
            s@ == self@,
    {
        self.0.clone()
    }

    /// The text of the id, borrowed.
    pub fn as_str(&self) -> (s: &str)
        ensures
            s@ == self@,
    {
        self.0.as_str()
    }
}

/// Id of a socket (there may be more than one streaming connection per task in a domain)
#[derive(Clone, Debug, PartialEq, Eq, PartialOrd, Ord, Hash)]
pub struct SocketId(String);

impl View for SocketId {
    type V = Seq<char>;

    closed spec fn view(&self) -> Seq<char> {
        self.0@
    }
}

impl SocketId {
    /// Wraps the given text.
    pub fn new(value: String) -> (id: Self)
        ensures
            id@ == value@,
    {
        SocketId(value)
    }

    /// The text of the id.
    pub fn to_string(&self) -> (s: String)
        ensures
            s@ == self@,
    {
        self.0.clone()
    }

    /// The text of the id, borrowed.
    pub fn as_str(&self) -> (s: &str)
        ensures
            s@ == self@,
    {
        self.0.as_str()
    }
}

/// A client identifier to group sockets belonging to the same client
#[derive(Clone, Debug, PartialEq, Eq, PartialOrd, Ord, Hash)]
pub struct ClientId(String);

impl View for ClientId {
    type V = Seq<char>;

    closed spec fn view(&self) -> Seq<char> {
        self.0@
    }
}

impl ClientId {
    /// Wraps the given text.
    pub fn new(value: String) -> (id: Self)
        ensures
            id@ == value@,
    {
        ClientId(value)
    }

    /// The text of the id.
    pub fn to_string(&self) -> (s: String)
        ensures
            s@ == self@,
    {
        self.0.clone()
    }

    /// The text of the id, borrowed.
    pub fn as_str(&self) -> (s: &str)
        ensures
            s@ == self@,
    {
        self.0.as_str()
    }
}

/// Id of a media object
#[derive(Clone, Debug, PartialEq, Eq, PartialOrd, Ord, Hash)]
pub struct MediaObjectId(String);

impl View for MediaObjectId {
    type V = Seq<char>;

    closed spec fn view(&self) -> Seq<char> {
        self.0@
    }
}

impl MediaObjectId {
    /// Wraps the given text.
    pub fn new(value: String) -> (id: Self)
        ensures
            id@ == value@,
    {
        MediaObjectId(value)
    }

    /// The text of the id.
    pub fn to_string(&self) -> (s: String)
        ensures
            s@ == self@,
    {
        self.0.clone()
    }

    /// The text of the id, borrowed.
    pub fn as_str(&self) -> (s: &str)
        ensures
            s@ == self@,
    {
        self.0.as_str()
    }
}

/// A password for direct task control on the domain
#[derive(Clone, Debug, PartialEq, Eq, PartialOrd, Ord, Hash)]
pub struct SecureKey(String);

impl View for SecureKey {
    type V = Seq<char>;

    closed spec fn view(&self) -> Seq<char> {
        self.0@
    }
}

impl SecureKey {
    /// Wraps the given text.
    pub fn new(value: String) -> (id: Self)
        ensures
            id@ == value@,
    {
        SecureKey(value)
    }

    /// The text of the id.
    pub fn to_string(&self) -> (s: String)
        ensures
            s@ == self@,
    {
        self.0.clone()
    }

    /// The text of the id, borrowed.
    pub fn as_str(&self) -> (s: &str)
        ensures
            s@ == self@,
    {
        self.0.as_str()
    }
}

/// Domain Id
#[derive(Clone, Debug, PartialEq, Eq, PartialOrd, Ord, Hash)]
pub struct DomainId(String);

impl View for DomainId {
    type V = Seq<char>;

    closed spec fn view(&self) -> Seq<char> {
        self.0@
    }
}

impl DomainId {
    /// Wraps the given text.
    pub fn new(value: String) -> (id: Self)
        ensures
            id@ == value@,
    {
        DomainId(value)
    }

    /// The text of the id.
    pub fn to_string(&self) -> (s: String)
        ensures
            s@ == self@,
    {
        self.0.clone()
    }

    /// The text of the id, borrowed.
    pub fn as_str(&self) -> (s: &str)
        ensures
            s@ == self@,
    {
        self.0.as_str()
    }
}

/// Parameter Id within a model
#[derive(Clone, Debug, PartialEq, Eq, PartialOrd, Ord, Hash)]
pub struct ParameterId(String);

impl View for ParameterId {
    type V = Seq<char>;

    closed spec fn view(&self) -> Seq<char> {
        self.0@
    }
}

impl ParameterId {
    /// Wraps the given text.
    pub fn new(value: String) -> (id: Self)
        ensures
            id@ == value@,
    {
        ParameterId(value)
    }

    /// The text of the id.
    pub fn to_string(&self) -> (s: String)
        ensures
            s@ == self@,
    {
        self.0.clone()
    }

    /// The text of the id, borrowed.
    pub fn as_str(&self) -> (s: &str)
        ensures
            s@ == self@,
    {
        self.0.as_str()
    }
}

/// Report Id within a model
#[derive(Clone, Debug, PartialEq, Eq, PartialOrd, Ord, Hash)]
pub struct ReportId(String);

impl View for ReportId {
    type V = Seq<char>;

    closed spec fn view(&self) -> Seq<char> {
        self.0@
    }
}

impl ReportId {
    /// Wraps the given text.
    pub fn new(value: String) -> (id: Self)
        ensures
            id@ == value@,
    {
        ReportId(value)
    }

    /// The text of the id.
    pub fn to_string(&self) -> (s: String)
        ensures
            s@ == self@,
    {
        self.0.clone()
    }

    /// The text of the id, borrowed.
    pub fn as_str(&self) -> (s: &str)
        ensures
            s@ == self@,
    {
        self.0.as_str()
    }
}

impl AppId {
    /// Whether this is the administrator app.
    pub fn is_admin(&self) -> (r: bool)
        ensures
            r == (self@ == "admin"@),
    {
        self.0 == String::from_str("admin")
    }

    /// The administrator app.
    pub fn admin() -> (id: AppId)
        ensures
            id@ == "admin"@,
    {
        AppId(String::from_str("admin"))
    }

    /// The test app.
    pub fn test() -> (id: AppId)
        ensures
            id@ == "test"@,
    {
        AppId(String::from_str("test"))
    }
}

impl EngineId {
    /// Subject on which commands for the engine are published.
    pub fn engine_command_subject(&self) -> (s: String)
        ensures
            s@ == "ac.engn."@ + self@ + ".cmds"@,
    {
        let mut s = String::from_str("ac.engn.");
        s.append(self.0.as_str());
        s.append(".cmds");
        s
    }

    /// Subject on which the engine publishes its events.
    pub fn engine_event_subject(&self) -> (s: String)
        ensures
            s@ == "ac.engn."@ + self@ + ".evts"@,
    {
        let mut s = String::from_str("ac.engn.");
        s.append(self.0.as_str());
        s.append(".evts");
        s
    }
}

/// Why a textual id could not be read.
#[derive(Clone, Copy, Debug, PartialEq, Eq)]
pub enum IdParseError {
    /// A fixed instance id without a name part.
    MissingName,
    /// A fixed instance id without an instance part.
    MissingInstance,
    /// A two part id without its second part.
    MissingSecond,
}

impl IdParseError {
    /// The message reported for the error.
    pub fn message(&self) -> (m: &'static str)
        ensures
            m@ == match self {
                IdParseError::MissingName => "expected manufacturer"@,
                IdParseError::MissingInstance => "expected instance"@,
                IdParseError::MissingSecond => "could not extract second string"@,
            },
    {
        match self {
            IdParseError::MissingName => "expected manufacturer",
            IdParseError::MissingInstance => "expected instance",
            IdParseError::MissingSecond => "could not extract second string",
        }
    }
}

/// Id of a fixed instance
#[derive(Clone, Debug, PartialEq, Eq, Hash)]
pub struct FixedInstanceId {
    /// manufacturer name, may not contain ':' or whitespace
    pub manufacturer: String,
    /// product name, may not contain ':' or whitespace
    pub name: String,
    /// unique instance name (given the same manufacturer and product name), may not contain ':' or whitespace
    pub instance: String,
}

/// `a`, a slash, then `b`.
pub open spec fn slash_join(a: Seq<char>, b: Seq<char>) -> Seq<char> {
    a + seq!['/'] + b
}

/// `a`, a colon, then `b`.
pub open spec fn colon_join(a: Seq<char>, b: Seq<char>) -> Seq<char> {
    a + seq![':'] + b
}

/// The three slash separated parts of a fixed instance id; text after a third
/// slash is ignored.
pub open spec fn parsed_fixed_instance_id(s: Seq<char>) -> Result<
    (Seq<char>, Seq<char>, Seq<char>),
    IdParseError,
> {
    let (m, r1) = split_at_sep(s, '/');
    match r1 {
        None => Err(IdParseError::MissingName),
        Some(t1) => {
            let (n, r2) = split_at_sep(t1, '/');
            match r2 {
                None => Err(IdParseError::MissingInstance),
                Some(t2) => Ok((m, n, split_at_sep(t2, '/').0)),
            }
        },
    }
}

/// The two colon separated parts of an id; text after a second colon is
/// ignored.
pub open spec fn parsed_pair(s: Seq<char>) -> Result<(Seq<char>, Seq<char>), IdParseError> {
    let (a, r1) = split_at_sep(s, ':');
    match r1 {
        None => Err(IdParseError::MissingSecond),
        Some(t) => Ok((a, split_at_sep(t, ':').0)),
    }
}

impl FixedInstanceId {
    /// Makes an id from its parts.
    pub fn new(manufacturer: String, name: String, instance: String) -> (id: Self)
        ensures
            id.manufacturer == manufacturer,
            id.name == name,
            id.instance == instance,
    {
        FixedInstanceId { manufacturer, name, instance }
    }

    /// Subject on which the instance's driver publishes its events.
    pub fn driver_event_subject(&self) -> (s: String)
        ensures
            s@ == "ac.inst."@ + self.manufacturer@ + "."@ + self.name@ + "."@ + self.instance@
                + ".evts"@,
    {
        let mut s = String::from_str("ac.inst.");
        s.append(self.manufacturer.as_str());
        s.append(".");
        s.append(self.name.as_str());
        s.append(".");
        s.append(self.instance.as_str());
        s.append(".evts");
        s
    }

    /// The model this instance is an instance of.
    pub fn model_id(&self) -> (m: ModelId)
        ensures
            m.manufacturer == self.manufacturer,
            m.name == self.name,
    {
        ModelId { manufacturer: self.manufacturer.clone(), name: self.name.clone() }
    }

    /// The instance named `instance` of a model.
    pub fn from_model_id(model_id: ModelId, instance: String) -> (id: Self)
        ensures
            id.manufacturer == model_id.manufacturer,
            id.name == model_id.name,
            id.instance == instance,
    {
        let ModelId { manufacturer, name } = model_id;
        Self::new(manufacturer, name, instance)
    }

    /// The textual form `manufacturer/name/instance`.
    pub fn to_string(&self) -> (s: String)
        ensures
            s@ == slash_join(slash_join(self.manufacturer@, self.name@), self.instance@),
    {
        let mut s = self.manufacturer.clone();
        s.append("/");
        s.append(self.name.as_str());
        s.append("/");
        s.append(self.instance.as_str());
        proof {
            reveal_strlit("/");
        }
        s
    }

    /// Reads the textual form `manufacturer/name/instance`.
    pub fn parse(s: &str) -> (r: Result<Self, IdParseError>)
        ensures
            match parsed_fixed_instance_id(s@) {
                Ok((m, n, i)) => r matches Ok(id) && id.manufacturer@ == m && id.name@ == n
                    && id.instance@ == i,
                Err(e) => r == Err::<Self, IdParseError>(e),
            },
    {
        let (manufacturer, next) = split_from(s, 0, '/');
        assert(s@.skip(0) =~= s@);
        match next {
            None => Err(IdParseError::MissingName),
            Some(p1) => {
                let (name, next) = split_from(s, p1, '/');
                match next {
                    None => Err(IdParseError::MissingInstance),
                    Some(p2) => {
                        let (instance, _) = split_from(s, p2, '/');
                        Ok(FixedInstanceId { manufacturer, name, instance })
                    },
                }
            },
        }
    }
}

/// Id of a product that may be instanced, either dynamically (software) or in fixed instances (hardware)
#[derive(Clone, Debug, PartialEq, Eq, Hash)]
pub struct ModelId {
    /// manufacturer name, may not contain ':' or whitespace
    pub manufacturer: String,
    /// product name, may not contain ':' or whitespace
    pub name: String,
}

impl ModelId {
    /// Makes an id from its parts.
    pub fn new(manufacturer: String, name: String) -> (id: Self)
        ensures
            id.manufacturer == manufacturer,
            id.name == name,
    {
        ModelId { manufacturer, name }
    }

    /// The fixed instance named `instance` of this model.
    pub fn instance(self, instance: String) -> (id: FixedInstanceId)
        ensures
            id.manufacturer == self.manufacturer,
            id.name == self.name,
            id.instance == instance,
    {
        FixedInstanceId::from_model_id(self, instance)
    }

    /// The textual form `manufacturer:name`.
    pub fn to_string(&self) -> (s: String)
        ensures
            s@ == colon_join(self.manufacturer@, self.name@),
    {
        let mut s = self.manufacturer.clone();
        s.append(":");
        s.append(self.name.as_str());
        proof {
            reveal_strlit(":");
        }
        s
    }

    /// Reads the textual form `manufacturer:name`.
    pub fn parse(s: &str) -> (r: Result<Self, IdParseError>)
        ensures
            match parsed_pair(s@) {
                Ok((a, b)) => r matches Ok(id) && id.manufacturer@ == a && id.name@ == b,
                Err(e) => r == Err::<Self, IdParseError>(e),
            },
    {
        match Tuple2Visitor::new().visit_str(s) {
            Ok((manufacturer, name)) => Ok(ModelId { manufacturer, name }),
            Err(e) => Err(e),
        }
    }
}

impl vstd::std_specs::convert::FromSpecImpl<(String, String)> for ModelId {
    open spec fn obeys_from_spec() -> bool {
        true
    }

    open spec fn from_spec(v: (String, String)) -> ModelId {
        ModelId { manufacturer: v.0, name: v.1 }
    }
}

impl From<(String, String)> for ModelId {
    fn from(v: (String, String)) -> ModelId {
        let (manufacturer, name) = v;
        ModelId::new(manufacturer, name)
    }
}

/// Reads the two colon separated parts of textual ids.
pub struct Tuple2Visitor;

impl Tuple2Visitor {
    pub fn new() -> (v: Self) {
        Tuple2Visitor
    }

    /// Splits `v` into the text before the first colon and the text between
    /// the first and the second colon (or the end).
    pub fn visit_str(&self, v: &str) -> (r: Result<(String, String), IdParseError>)
        ensures
            match parsed_pair(v@) {
                Ok((a, b)) => r matches Ok(p) && p.0@ == a && p.1@ == b,
                Err(e) => r == Err::<(String, String), IdParseError>(e),
            },
    {
        let (first, next) = split_from(v, 0, ':');
        assert(v@.skip(0) =~= v@);
        match next {
            None => Err(IdParseError::MissingSecond),
            Some(p) => {
                let (second, _) = split_from(v, p, ':');
                Ok((first, second))
            },
        }
    }
}

/// What kind of filter
#[derive(Clone, Copy, Debug, PartialEq, Eq, PartialOrd)]
pub enum FilterId {
    HighPass,
    Low,
    LowMid,
    Mid,
    HighMid,
    High,
    LowPass,
    BandPass,
    Dynamics,
    DeEsser,
}

/// An input pad of a node in a task graph.
#[derive(Clone, Debug, PartialEq, Eq)]
pub enum InputPadId {
    MixerInput(MixerNodeId),
    DynamicInstanceInput(DynamicInstanceNodeId),
    FixedInstanceInput(FixedInstanceNodeId),
}

/// An output pad of a node in a task graph.
#[derive(Clone, Debug, PartialEq, Eq)]
pub enum OutputPadId {
    TrackOutput(TrackNodeId),
    MixerOutput(MixerNodeId),
    DynamicInstanceOutput(DynamicInstanceNodeId),
    FixedInstanceOutput(FixedInstanceNodeId),
}

impl TrackNodeId {
    /// The output pad of the track.
    pub fn source(self) -> (p: OutputPadId)
        ensures
            p == OutputPadId::TrackOutput(self),
    {
        OutputPadId::TrackOutput(self)
    }
}

impl MixerNodeId {
    /// The input pad of the mixer.
    pub fn input_flow(self) -> (p: InputPadId)
        ensures
            p == InputPadId::MixerInput(self),
    {
        InputPadId::MixerInput(self)
    }

    /// The output pad of the mixer.
    pub fn output_flow(self) -> (p: OutputPadId)
        ensures
            p == OutputPadId::MixerOutput(self),
    {
        OutputPadId::MixerOutput(self)
    }
}

impl DynamicInstanceNodeId {
    /// The input pad of the dynamic instance.
    pub fn input_flow(self) -> (p: InputPadId)
        ensures
            p == InputPadId::DynamicInstanceInput(self),
    {
        InputPadId::DynamicInstanceInput(self)
    }

    /// The output pad of the dynamic instance.
    pub fn output_flow(self) -> (p: OutputPadId)
        ensures
            p == OutputPadId::DynamicInstanceOutput(self),
    {
        OutputPadId::DynamicInstanceOutput(self)
    }
}

impl FixedInstanceNodeId {
    /// The input pad of the fixed instance.
    pub fn input_flow(self) -> (p: InputPadId)
        ensures
            p == InputPadId::FixedInstanceInput(self),
    {
        InputPadId::FixedInstanceInput(self)
    }

    /// The output pad of the fixed instance.
    pub fn output_flow(self) -> (p: OutputPadId)
        ensures
            p == OutputPadId::FixedInstanceOutput(self),
    {
        OutputPadId::FixedInstanceOutput(self)
    }
}

/// A socket of a client.
#[derive(Clone, Debug, PartialEq, Eq, PartialOrd, Ord, Hash)]
pub struct ClientSocketId {
    pub client_id: ClientId,
    pub socket_id: SocketId,
}

impl ClientSocketId {
    /// Makes an id from its parts.
    pub fn new(client_id: ClientId, socket_id: SocketId) -> (id: Self)
        ensures
            id.client_id == client_id,
            id.socket_id == socket_id,
    {
        ClientSocketId { client_id, socket_id }
    }

    /// The textual form `client.socket`.
    pub fn to_string(&self) -> (s: String)
        ensures
            s@ == self.client_id@ + "."@ + self.socket_id@,
    {
        let mut s = self.client_id.to_string();
        s.append(".");
        s.append(self.socket_id.as_str());
        s
    }
}

/// A task by an app
#[derive(Clone, Debug, PartialEq, Eq, PartialOrd, Ord, Hash)]
pub struct AppTaskId {
    /// App registering the task
    pub app_id: AppId,
    /// Task id
    pub task_id: TaskId,
}

impl AppTaskId {
    /// Makes an id from its parts.
    pub fn new(app_id: AppId, task_id: TaskId) -> (id: Self)
        ensures
            id.app_id == app_id,
            id.task_id == task_id,
    {
        AppTaskId { app_id, task_id }
    }

    /// The textual form `app:task`.
    pub fn to_string(&self) -> (s: String)
        ensures
            s@ == colon_join(self.app_id@, self.task_id@),
    {
        let mut s = self.app_id.to_string();
        s.append(":");
        s.append(self.task_id.as_str());
        proof {
            reveal_strlit(":");
        }
        s
    }

    /// Reads the textual form `app:task`.
    pub fn from_str(s: &str) -> (r: Result<Self, IdParseError>)
        ensures
            match parsed_pair(s@) {
                Ok((a, b)) => r matches Ok(id) && id.app_id@ == a && id.task_id@ == b,
                Err(e) => r == Err::<Self, IdParseError>(e),
            },
    {
        match Tuple2Visitor::new().visit_str(s) {
            Ok((app, task)) => Ok(AppTaskId { app_id: AppId::new(app), task_id: TaskId::new(task) }),
            Err(e) => Err(e),
        }
    }
}

impl vstd::std_specs::convert::FromSpecImpl<(AppId, TaskId)> for AppTaskId {
    open spec fn obeys_from_spec() -> bool {
        true
    }

    open spec fn from_spec(v: (AppId, TaskId)) -> AppTaskId {
        AppTaskId { app_id: v.0, task_id: v.1 }
    }
}

impl From<(AppId, TaskId)> for AppTaskId {
    fn from(v: (AppId, TaskId)) -> AppTaskId {
        let (app_id, task_id) = v;
        AppTaskId::new(app_id, task_id)
    }
}

impl MediaObjectId {
    /// The media object owned by `app_id`.
    pub fn for_app(self, app_id: AppId) -> (id: AppMediaObjectId)
        ensures
            id.app_id == app_id,
            id.media_id == self,
    {
        AppMediaObjectId { app_id, media_id: self }
    }
}

/// Media object owned by an app
#[derive(Clone, Debug, PartialEq, Eq, PartialOrd, Ord, Hash)]
pub struct AppMediaObjectId {
    /// App owner
    pub app_id: AppId,
    /// Media object Id
    pub media_id: MediaObjectId,
}

impl AppMediaObjectId {
    /// Makes an id from its parts.
    pub fn new(app_id: AppId, media_id: MediaObjectId) -> (id: Self)
        ensures
            id.app_id == app_id,
            id.media_id == media_id,
    {
        AppMediaObjectId { app_id, media_id }
    }

    /// The form `app/media` used in paths.
    pub fn slashed(&self) -> (s: String)
        ensures
            s@ == slash_join(self.app_id@, self.media_id@),
    {
        let mut s = self.app_id.to_string();
        s.append("/");
        s.append(self.media_id.as_str());
        proof {
            reveal_strlit("/");
        }
        s
    }

    /// The textual form `app:media`.
    pub fn to_string(&self) -> (s: String)
        ensures
            s@ == colon_join(self.app_id@, self.media_id@),
    {
        let mut s = self.app_id.to_string();
        s.append(":");
        s.append(self.media_id.as_str());
        proof {
            reveal_strlit(":");
        }
        s
    }

    /// Reads the textual form `app:media`.
    pub fn from_str(s: &str) -> (r: Result<Self, IdParseError>)
        ensures
            match parsed_pair(s@) {
                Ok((a, b)) => r matches Ok(id) && id.app_id@ == a && id.media_id@ == b,
                Err(e) => r == Err::<Self, IdParseError>(e),
            },
    {
        match Tuple2Visitor::new().visit_str(s) {
            Ok((app, media)) => Ok(
                AppMediaObjectId { app_id: AppId::new(app), media_id: MediaObjectId::new(media) },
            ),
            Err(e) => Err(e),
        }
    }
}

impl vstd::std_specs::convert::FromSpecImpl<(AppId, MediaObjectId)> for AppMediaObjectId {
    open spec fn obeys_from_spec() -> bool {
        true
    }

    open spec fn from_spec(v: (AppId, MediaObjectId)) -> AppMediaObjectId {
        AppMediaObjectId { app_id: v.0, media_id: v.1 }
    }
}

impl From<(AppId, MediaObjectId)> for AppMediaObjectId {
    fn from(v: (AppId, MediaObjectId)) -> AppMediaObjectId {
        let (app_id, media_id) = v;
        AppMediaObjectId::new(app_id, media_id)
    }
}

/// A character allowed in task and media object ids: an ASCII letter or
/// digit, `_` or `-`.
pub open spec fn is_id_char(c: char) -> bool {
    ('a' <= c && c <= 'z') || ('A' <= c && c <= 'Z') || ('0' <= c && c <= '9') || c == '_' || c
        == '-'
}

/// A non-empty text of id characters only.
pub open spec fn is_plain_id(s: Seq<char>) -> bool {
    s.len() > 0 && forall|i: int| 0 <= i < s.len() ==> is_id_char(s[i])
}

/// `Regex::find` with the anchored pattern `^[a-zA-Z0-9_\-]+$`: it finds a
/// match exactly when the whole text is one or more of the listed ASCII
/// characters.
#[verifier::external_body]
fn matches_id_pattern(s: &str) -> (r: bool)
    ensures
        r == is_plain_id(s@),
{
    Regex::new(r"^[a-zA-Z0-9_\-]+$").unwrap().find(s).is_some()
}

/// An id that does not have the form required of it.
#[derive(Clone, Debug, PartialEq, Eq)]
pub enum IdValidationError {
    /// The task id of an app task is not a plain id.
    InvalidAppTaskId { task_id: String },
    /// The media object id of an app media object is not a plain id.
    InvalidAppMediaObjectId { object_id: String },
}

impl IdValidationError {
    /// The message reported for the error.
    pub fn message(&self) -> (m: String)
        ensures
            m@ == match self {
                IdValidationError::InvalidAppTaskId { task_id } => task_id@
                    + " is an invalid app task ID"@,
                IdValidationError::InvalidAppMediaObjectId { object_id } => object_id@
                    + " is an invalid app media object ID"@,
            },
    {
        match self {
            IdValidationError::InvalidAppTaskId { task_id } => {
                let mut m = task_id.clone();
                m.append(" is an invalid app task ID");
                m
            },
            IdValidationError::InvalidAppMediaObjectId { object_id } => {
                let mut m = object_id.clone();
                m.append(" is an invalid app media object ID");
                m
            },
        }
    }
}

impl TaskId {
    /// Accepts the id when it is a non-empty run of ASCII letters, digits,
    /// `_` and `-`.
    pub fn validate(self) -> (r: Result<Self, IdValidationError>)
        ensures
            is_plain_id(self@) ==> r == Ok::<Self, IdValidationError>(self),
            !is_plain_id(self@) ==> (r matches Err(IdValidationError::InvalidAppTaskId {
                task_id,
            }) && task_id@ == self@),
    {
        if matches_id_pattern(self.as_str()) {
            Ok(self)
        } else {
            Err(IdValidationError::InvalidAppTaskId { task_id: self.to_string() })
        }
    }
}

impl MediaObjectId {
    /// Accepts the id when it is a non-empty run of ASCII letters, digits,
    /// `_` and `-`.
    pub fn validate(self) -> (r: Result<Self, IdValidationError>)
        ensures
            is_plain_id(self@) ==> r == Ok::<Self, IdValidationError>(self),
            !is_plain_id(self@) ==> (r matches Err(
                IdValidationError::InvalidAppMediaObjectId { object_id },
            ) && object_id@ == self@),
    {
        if matches_id_pattern(self.as_str()) {
            Ok(self)
        } else {
            Err(IdValidationError::InvalidAppMediaObjectId { object_id: self.to_string() })
        }
    }
}

/// A fixed instance id read back from its textual form is the id written,
/// when none of its parts holds a slash.
pub proof fn law_fixed_instance_id_round_trip(m: Seq<char>, n: Seq<char>, i: Seq<char>)
    requires
        lacks(m, '/'),
        lacks(n, '/'),
        lacks(i, '/'),
    ensures
        parsed_fixed_instance_id(slash_join(slash_join(m, n), i)) == Ok::<
            (Seq<char>, Seq<char>, Seq<char>),
            IdParseError,
        >((m, n, i)),
{
    let s = slash_join(slash_join(m, n), i);
    assert(s =~= m + seq!['/'] + (n + seq!['/'] + i));
    lemma_split_joined(m, n + seq!['/'] + i, '/');
    lemma_split_joined(n, i, '/');
    lemma_split_whole(i, '/');
}

/// A two part id read back from its textual form `a:b` gives its parts, when
/// neither holds a colon.
pub proof fn law_pair_id_round_trip(a: Seq<char>, b: Seq<char>)
    requires
        lacks(a, ':'),
        lacks(b, ':'),
    ensures
        parsed_pair(colon_join(a, b)) == Ok::<(Seq<char>, Seq<char>), IdParseError>((a, b)),
{
    lemma_split_joined(a, b, ':');
    lemma_split_whole(b, ':');
}

} // verus!
