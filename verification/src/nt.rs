//! NetworkTables 4 client data model: topic properties, subscription options, protocol text
//! messages, binary values and typed payloads.
use vstd::prelude::*;

verus! {

// ---------------------------------------------------------------------------------------------
// Properties
// ---------------------------------------------------------------------------------------------

/// A property value that may be absent from a message (`Missing`), present as JSON null
/// (`Null`), or present with a value.
#[derive(PartialEq, Eq, Clone, Copy, Debug)]
pub enum MissingOrNull<T> {
    Missing,
    Null,
    Value(T),
}

/// The value a property has after receiving `other`: an absent property keeps its value; a
/// null or a value replaces it.
pub open spec fn updated<T>(current: MissingOrNull<T>, other: MissingOrNull<T>) -> MissingOrNull<T> {
    if other is Missing {
        current
    } else {
        other
    }
}

/// A present value becomes `Value`, an absent one `Null`.
pub open spec fn from_option<T>(value: Option<T>) -> MissingOrNull<T> {
    match value {
        Some(val) => MissingOrNull::Value(val),
        None => MissingOrNull::Null,
    }
}

/// `Value` becomes a present value; `Missing` and `Null` both become absent.
pub open spec fn to_option<T>(value: MissingOrNull<T>) -> Option<T> {
    match value {
        MissingOrNull::Value(val) => Some(val),
        _ => None,
    }
}

impl<T> MissingOrNull<T> {
    /// Applies a property update: `Missing` leaves the value alone, anything else replaces it.
    pub fn update(&mut self, other: Self)
        ensures
            *final(self) == updated(*old(self), other),
    {
        if matches!(other, MissingOrNull::Missing) {
            return;
        }
        *self = other;
    }
}

impl<T> Default for MissingOrNull<T> {
    fn default() -> (r: Self)
        ensures
            r is Missing,
    {
        MissingOrNull::Missing
    }
}

impl<T> From<Option<T>> for MissingOrNull<T> {
    fn from(value: Option<T>) -> (r: Self) {
        match value {
            Some(val) => MissingOrNull::Value(val),
            None => MissingOrNull::Null,
        }
    }
}

impl<T> vstd::std_specs::convert::FromSpecImpl<Option<T>> for MissingOrNull<T> {
    open spec fn obeys_from_spec() -> bool {
        true
    }

    open spec fn from_spec(value: Option<T>) -> Self {
        from_option(value)
    }
}

impl<T> From<MissingOrNull<T>> for Option<T> {
    fn from(value: MissingOrNull<T>) -> (r: Option<T>) {
        match value {
            MissingOrNull::Missing | MissingOrNull::Null => None,
            MissingOrNull::Value(val) => Some(val),
        }
    }
}

impl<T> vstd::std_specs::convert::FromSpecImpl<MissingOrNull<T>> for Option<T> {
    open spec fn obeys_from_spec() -> bool {
        true
    }

    open spec fn from_spec(value: MissingOrNull<T>) -> Self {
        to_option(value)
    }
}

/// Whether a property is left out of a message: it is when it is absent.
pub fn should_skip(val: &MissingOrNull<bool>) -> (r: bool)
    ensures
        r == (*val is Missing),
{
    matches!(val, MissingOrNull::Missing)
}

/// Whether an option is left out of a message: it is when it is unset.
pub fn skip_none<T>(val: &Option<T>) -> (r: bool)
    ensures
        r == (*val is None),
{
    val.is_none()
}

/// Topic properties with a defined meaning. Properties are initially set on publish and may be
/// changed by any client.
#[derive(Debug, Clone, Copy, PartialEq, Eq)]
pub struct Properties {
    /// The last value is saved to persistent storage on the server and restored on startup.
    pub persistent: MissingOrNull<bool>,
    /// The topic is not deleted when the last publisher stops publishing.
    pub retained: MissingOrNull<bool>,
}

impl Default for Properties {
    fn default() -> (r: Self)
        ensures
            r.persistent is Missing,
            r.retained is Missing,
    {
        Properties { persistent: MissingOrNull::Missing, retained: MissingOrNull::Missing }
    }
}

/// The properties after applying the update `other`, property by property.
pub open spec fn properties_updated(current: Properties, other: Properties) -> Properties {
    Properties {
        persistent: updated(current.persistent, other.persistent),
        retained: updated(current.retained, other.retained),
    }
}

impl Properties {
    /// Applies a properties update: a property absent from `other` keeps its value, a property
    /// present (including as null) takes the new value.
    pub fn update(&mut self, other: Properties)
        ensures
            *final(self) == properties_updated(*old(self), other),
    {
        self.persistent.update(other.persistent);
        self.retained.update(other.retained);
    }
}

/// Applying the same update twice is the same as applying it once.
pub proof fn lemma_update_idempotent<T>(current: MissingOrNull<T>, other: MissingOrNull<T>)
    ensures
        updated(updated(current, other), other) == updated(current, other),
{
}

/// Two updates in a row are the same as one update with the second applied onto the first.
pub proof fn lemma_update_compose<T>(
    current: MissingOrNull<T>,
    first: MissingOrNull<T>,
    second: MissingOrNull<T>,
)
    ensures
        updated(updated(current, first), second) == updated(current, updated(first, second)),
{
}

/// An update in which every property is absent changes nothing.
pub proof fn lemma_empty_update(current: Properties)
    ensures
        properties_updated(
            current,
            Properties { persistent: MissingOrNull::Missing, retained: MissingOrNull::Missing },
        ) == current,
{
}

/// Properties updates compose: applying `first` then `second` equals applying `first`
/// updated by `second`.
pub proof fn lemma_properties_update_compose(current: Properties, first: Properties, second: Properties)
    ensures
        properties_updated(properties_updated(current, first), second) == properties_updated(
            current,
            properties_updated(first, second),
        ),
{
}

/// Converting an optional value to a property value and back gives the optional value.
pub proof fn lemma_option_roundtrip<T>(value: Option<T>)
    ensures
        to_option(from_option(value)) == value,
{
}

// ---------------------------------------------------------------------------------------------
// Subscription options
// ---------------------------------------------------------------------------------------------

/// Options of a subscription; `None` leaves an option at the server's default.
#[derive(Debug, Clone, Copy, PartialEq, Eq)]
pub struct SubscriptionOptions {
    /// How often, in milliseconds, the server should send changes.
    pub periodic: Option<u32>,
    /// Send every value change, not only the most recent.
    pub all: Option<bool>,
    /// Send only topic announcements, no values.
    pub topicsonly: Option<bool>,
    /// Subscribe to every topic whose name starts with a subscribed name.
    pub prefix: Option<bool>,
}

impl Default for SubscriptionOptions {
    fn default() -> (r: Self)
        ensures
            r.periodic is None,
            r.all is None,
            r.topicsonly is None,
            r.prefix is None,
    {
        SubscriptionOptions { periodic: None, all: None, topicsonly: None, prefix: None }
    }
}

impl SubscriptionOptions {
    /// Sets the send period.
    pub fn periodic(self, value: u32) -> (r: Self)
        ensures
            r == (SubscriptionOptions { periodic: Some(value), ..self }),
    {
        let mut s = self;
        s.periodic = Some(value);
        s
    }

    /// Sets whether every value change is sent.
    pub fn all(self, value: bool) -> (r: Self)
        ensures
            r == (SubscriptionOptions { all: Some(value), ..self }),
    {
        let mut s = self;
        s.all = Some(value);
        s
    }

    /// Sets whether only announcements are sent.
    pub fn topicsonly(self, value: bool) -> (r: Self)
        ensures
            r == (SubscriptionOptions { topicsonly: Some(value), ..self }),
    {
        let mut s = self;
        s.topicsonly = Some(value);
        s
    }

    /// Sets whether the subscription matches topic name prefixes.
    pub fn prefix(self, value: bool) -> (r: Self)
        ensures
            r == (SubscriptionOptions { prefix: Some(value), ..self }),
    {
        let mut s = self;
        s.prefix = Some(value);
        s
    }
}

// ---------------------------------------------------------------------------------------------
// Messages
// ---------------------------------------------------------------------------------------------

/// A JSON text message of the protocol.
#[derive(Debug)]
pub enum TextMessage {
    /// The client starts publishing `name` under the identifier `pubuid`.
    Publish { name: String, pubuid: u32, data_type: String, properties: Properties },
    /// The client stops publishing under `pubuid`.
    Unpublish { pubuid: u32 },
    /// The client changes the properties of a topic.
    SetProperties { name: String, update: Properties },
    /// The client subscribes to topics (or prefixes) under the identifier `subuid`.
    Subscribe { topics: Vec<String>, subuid: u32, options: SubscriptionOptions },
    /// The client ends the subscription `subuid`.
    Unsubscribe { subuid: u32 },
    /// The server announces a topic and the identifier it uses for its values.
    Announce {
        name: String,
        id: u32,
        data_type: String,
        pubuid: Option<u32>,
        properties: Properties,
    },
    /// The server removes a topic.
    Unannounce { name: String, id: u32 },
    /// The server reports changed properties of a topic.
    Properties { name: String, ack: bool, update: Properties },
}

/// What the client remembers of one of its publishers.
pub struct PublisherData {
    pub name: String,
    pub data_type: String,
}

/// What the client remembers of one of its subscriptions.
pub struct SubscriberData {
    pub name: String,
    pub options: SubscriptionOptions,
}

// ---------------------------------------------------------------------------------------------
// Binary values and payloads
// ---------------------------------------------------------------------------------------------

/// A value carried in a binary frame. Floating-point values are held as their IEEE 754 bit
/// patterns.
#[derive(Debug, Clone, PartialEq, Eq)]
pub enum BinaryData {
    Boolean(bool),
    Double(u64),
    Int(i64),
    Float(u32),
    Str(String),
    Bin(Vec<u8>),
    BoolArray(Vec<bool>),
    DoubleArray(Vec<u64>),
    IntArray(Vec<i64>),
    FloatArray(Vec<u32>),
    StringArray(Vec<String>),
}

/// One value of one topic at one time.
#[derive(Debug)]
pub struct BinaryMessage {
    pub id: i64,
    pub timestamp: u64,
    pub data: BinaryData,
}

/// A type that can be sent directly over NetworkTables. `name` and `parse` are described by
/// relations between their arguments and results; a payload that does not describe them allows
/// every answer.
pub trait Payload: Sized {
    /// Whether `name` may answer `r`.
    open spec fn name_spec(r: Option<&'static str>) -> bool {
        true
    }

    /// Whether `parse` may turn `data` into `r`.
    open spec fn parse_spec(data: BinaryData, r: Result<Self, ()>) -> bool {
        true
    }

    /// The protocol's name of the type, if it has a fixed one.
    fn name() -> (r: Option<&'static str>)
        ensures
            Self::name_spec(r),
    ;

    /// The value carried by `data`, or `Err` when `data` holds another type.
    fn parse(data: BinaryData) -> (r: Result<Self, ()>)
        ensures
            Self::parse_spec(data, r),
    ;

    /// The binary value that carries `self`.
    fn to_val(self) -> BinaryData;
}

/// Raw MessagePack bytes.
pub struct MsgPack(pub Vec<u8>);

/// Raw RPC bytes.
pub struct Rpc(pub Vec<u8>);

/// Raw protobuf bytes.
pub struct ProtoBuf(pub Vec<u8>);

impl Payload for bool {
    open spec fn name_spec(r: Option<&'static str>) -> bool {
        r matches Some(n) && n@ == "boolean"@
    }

    open spec fn parse_spec(data: BinaryData, r: Result<Self, ()>) -> bool {
        r == (match data {
                BinaryData::Boolean(v) => Ok::<bool, ()>(v),
                _ => Err(()),
            })
    }

    fn name() -> (r: Option<&'static str>)
        ensures
            r matches Some(n) && n@ == "boolean"@,
    {
        proof {
            reveal_strlit("boolean");
        }
        Some("boolean")
    }

    fn parse(data: BinaryData) -> (r: Result<Self, ()>)
        ensures
            r == (match data {
                BinaryData::Boolean(v) => Ok::<bool, ()>(v),
                _ => Err(()),
            }),
    {
        match data {
            BinaryData::Boolean(val) => Ok(val),
            _ => Err(()),
        }
    }

    fn to_val(self) -> (r: BinaryData)
        ensures
            r == BinaryData::Boolean(self),
    {
        BinaryData::Boolean(self)
    }
}

impl Payload for i64 {
    open spec fn name_spec(r: Option<&'static str>) -> bool {
        r matches Some(n) && n@ == "int"@
    }

    open spec fn parse_spec(data: BinaryData, r: Result<Self, ()>) -> bool {
        r == (match data {
                BinaryData::Int(v) => Ok::<i64, ()>(v),
                _ => Err(()),
            })
    }

    fn name() -> (r: Option<&'static str>)
        ensures
            r matches Some(n) && n@ == "int"@,
    {
        proof {
            reveal_strlit("int");
        }
        Some("int")
    }

    fn parse(data: BinaryData) -> (r: Result<Self, ()>)
        ensures
            r == (match data {
                BinaryData::Int(v) => Ok::<i64, ()>(v),
                _ => Err(()),
            }),
    {
        match data {
            BinaryData::Int(val) => Ok(val),
            _ => Err(()),
        }
    }

    fn to_val(self) -> (r: BinaryData)
        ensures
            r == BinaryData::Int(self),
    {
        BinaryData::Int(self)
    }
}

impl Payload for String {
    open spec fn name_spec(r: Option<&'static str>) -> bool {
        r matches Some(n) && n@ == "string"@
    }

    open spec fn parse_spec(data: BinaryData, r: Result<Self, ()>) -> bool {
        r == (match data {
                BinaryData::Str(v) => Ok::<String, ()>(v),
                _ => Err(()),
            })
    }

    fn name() -> (r: Option<&'static str>)
        ensures
            r matches Some(n) && n@ == "string"@,
    {
        proof {
            reveal_strlit("string");
        }
        Some("string")
    }

    fn parse(data: BinaryData) -> (r: Result<Self, ()>)
        ensures
            r == (match data {
                BinaryData::Str(v) => Ok::<String, ()>(v),
                _ => Err(()),
            }),
    {
        match data {
            BinaryData::Str(val) => Ok(val),
            _ => Err(()),
        }
    }

    fn to_val(self) -> (r: BinaryData)
        ensures
            r == BinaryData::Str(self),
    {
        BinaryData::Str(self)
    }
}

impl Payload for Vec<u8> {
    open spec fn name_spec(r: Option<&'static str>) -> bool {
        r matches Some(n) && n@ == "raw"@
    }

    open spec fn parse_spec(data: BinaryData, r: Result<Self, ()>) -> bool {
        r == (match data {
                BinaryData::Bin(v) => Ok::<Vec<u8>, ()>(v),
                _ => Err(()),
            })
    }

    fn name() -> (r: Option<&'static str>)
        ensures
            r matches Some(n) && n@ == "raw"@,
    {
        proof {
            reveal_strlit("raw");
        }
        Some("raw")
    }

    fn parse(data: BinaryData) -> (r: Result<Self, ()>)
        ensures
            r == (match data {
                BinaryData::Bin(v) => Ok::<Vec<u8>, ()>(v),
                _ => Err(()),
            }),
    {
        match data {
            BinaryData::Bin(val) => Ok(val),
            _ => Err(()),
        }
    }

    fn to_val(self) -> (r: BinaryData)
        ensures
            r == BinaryData::Bin(self),
    {
        BinaryData::Bin(self)
    }
}

impl Payload for MsgPack {
    open spec fn name_spec(r: Option<&'static str>) -> bool {
        r matches Some(n) && n@ == "msgpack"@
    }

    open spec fn parse_spec(data: BinaryData, r: Result<Self, ()>) -> bool {
        match data {
                BinaryData::Bin(v) => r matches Ok(m) && m.0 == v,
                _ => r is Err,
            }
    }

    fn name() -> (r: Option<&'static str>)
        ensures
            r matches Some(n) && n@ == "msgpack"@,
    {
        proof {
            reveal_strlit("msgpack");
        }
        Some("msgpack")
    }

    fn parse(data: BinaryData) -> (r: Result<Self, ()>)
        ensures
            match data {
                BinaryData::Bin(v) => r matches Ok(m) && m.0 == v,
                _ => r is Err,
            },
    {
        match data {
            BinaryData::Bin(val) => Ok(MsgPack(val)),
            _ => Err(()),
        }
    }

    fn to_val(self) -> (r: BinaryData)
        ensures
            r == BinaryData::Bin(self.0),
    {
        BinaryData::Bin(self.0)
    }
}

impl Payload for Rpc {
    open spec fn name_spec(r: Option<&'static str>) -> bool {
        r matches Some(n) && n@ == "rpc"@
    }

    open spec fn parse_spec(data: BinaryData, r: Result<Self, ()>) -> bool {
        match data {
                BinaryData::Bin(v) => r matches Ok(m) && m.0 == v,
                _ => r is Err,
            }
    }

    fn name() -> (r: Option<&'static str>)
        ensures
            r matches Some(n) && n@ == "rpc"@,
    {
        proof {
            reveal_strlit("rpc");
        }
        Some("rpc")
    }

    fn parse(data: BinaryData) -> (r: Result<Self, ()>)
        ensures
            match data {
                BinaryData::Bin(v) => r matches Ok(m) && m.0 == v,
                _ => r is Err,
            },
    {
        match data {
            BinaryData::Bin(val) => Ok(Rpc(val)),
            _ => Err(()),
        }
    }

    fn to_val(self) -> (r: BinaryData)
        ensures
            r == BinaryData::Bin(self.0),
    {
        BinaryData::Bin(self.0)
    }
}

impl Payload for ProtoBuf {
    open spec fn name_spec(r: Option<&'static str>) -> bool {
        r matches Some(n) && n@ == "protobuf"@
    }

    open spec fn parse_spec(data: BinaryData, r: Result<Self, ()>) -> bool {
        match data {
                BinaryData::Bin(v) => r matches Ok(m) && m.0 == v,
                _ => r is Err,
            }
    }

    fn name() -> (r: Option<&'static str>)
        ensures
            r matches Some(n) && n@ == "protobuf"@,
    {
        proof {
            reveal_strlit("protobuf");
        }
        Some("protobuf")
    }

    fn parse(data: BinaryData) -> (r: Result<Self, ()>)
        ensures
            match data {
                BinaryData::Bin(v) => r matches Ok(m) && m.0 == v,
                _ => r is Err,
            },
    {
        match data {
            BinaryData::Bin(val) => Ok(ProtoBuf(val)),
            _ => Err(()),
        }
    }

    fn to_val(self) -> (r: BinaryData)
        ensures
            r == BinaryData::Bin(self.0),
    {
        BinaryData::Bin(self.0)
    }
}

impl Payload for BinaryData {
    open spec fn name_spec(r: Option<&'static str>) -> bool {
        r is None
    }

    open spec fn parse_spec(data: BinaryData, r: Result<Self, ()>) -> bool {
        r == Ok::<BinaryData, ()>(data)
    }

    fn name() -> (r: Option<&'static str>)
        ensures
            r is None,
    {
        None
    }

    fn parse(data: BinaryData) -> (r: Result<Self, ()>)
        ensures
            r == Ok::<BinaryData, ()>(data),
    {
        Ok(data)
    }

    fn to_val(self) -> (r: BinaryData)
        ensures
            r == self,
    {
        self
    }
}


// ---------------------------------------------------------------------------------------------
// Clock synchronisation
// ---------------------------------------------------------------------------------------------

/// How long, in microseconds, the client waits for a time reply before it reconnects.
pub const TIME_REPLY_TIMEOUT_US: u64 = 3_000_000;

/// Halves `x`, rounding toward zero as integer division does.
pub open spec fn half_toward_zero(x: int) -> int {
    if x >= 0 {
        x / 2
    } else {
        -((-x) / 2)
    }
}

/// The offset from the local clock to the server clock that a time reply gives. The client sent
/// its clock `sent`; the server answered with its own clock `server_timestamp`; the reply
/// arrived when the local clock read `now`, and `later` is the local clock read after that.
/// The server clock at arrival is taken as its timestamp plus half the round trip.
pub open spec fn time_offset(sent: i64, server_timestamp: u64, now: u64, later: u64) -> int {
    half_toward_zero(now - sent) + server_timestamp - later
}

/// Computes the clock offset a time reply gives; see `time_offset`. The clocks must be small
/// enough that the arithmetic stays within `i64`.
pub fn server_time_offset(sent: i64, server_timestamp: u64, now: u64, later: u64) -> (offset: i64)
    requires
        now <= i64::MAX,
        later <= i64::MAX,
        server_timestamp <= i64::MAX,
        i64::MIN <= now - sent <= i64::MAX,
        i64::MIN <= time_offset(sent, server_timestamp, now, later) <= i64::MAX,
        i64::MIN <= half_toward_zero(now - sent) + server_timestamp <= i64::MAX,
    ensures
        offset == time_offset(sent, server_timestamp, now, later),
{
    let trip = now as i64 - sent;
    let server_time = trip / 2 + server_timestamp as i64;
    server_time - later as i64
}

/// The server clock for a local clock reading `now`, given the offset to it: the local reading
/// as a signed 64-bit value plus the offset, taken back as unsigned (a negative sum wraps).
pub fn server_time(now: u64, offset: i64) -> (t: u64)
    requires
        i64::MIN <= (now as i64) + offset <= i64::MAX,
    ensures
        t == ((now as i64) + offset) as u64,
        0 <= (now as i64) + offset ==> now <= i64::MAX ==> t == now + offset,
{
    (now as i64 + offset) as u64
}

/// Whether `server_time(now, offset)` stays within the signed 64-bit range it is computed in.
pub fn server_time_fits(now: u64, offset: i64) -> (r: bool)
    ensures
        r == (i64::MIN <= (now as i64) + offset <= i64::MAX),
{
    (now as i64).checked_add(offset).is_some()
}

/// Whether the last time reply, received at `last_update`, is so old at `now` that the client
/// reconnects.
pub fn needs_reconnect(now: u64, last_update: u64) -> (r: bool)
    requires
        last_update <= now,
    ensures
        r == (now - last_update > TIME_REPLY_TIMEOUT_US),
{
    now - last_update > TIME_REPLY_TIMEOUT_US
}


// ---------------------------------------------------------------------------------------------
// Subscriber updates
// ---------------------------------------------------------------------------------------------

/// What a subscriber receives about its topic.
pub enum SubscriberUpdate {
    /// A properties update.
    Properties(Properties),
    /// A new value.
    Data(BinaryData),
    /// The topic's announced type.
    Type(String),
    /// The topic's id.
    Id(u32),
}

/// What a subscriber does with one update.
pub enum UpdateOutcome<P> {
    /// Nothing to hand out; keep going.
    Continue,
    /// A value of the subscriber's type.
    Value(P),
    /// The value or the announced type is not the subscriber's type.
    TypeMismatch,
}

/// The properties a subscriber holds after a properties update: the update applied to the
/// properties it had, or to empty properties if it had none.
pub open spec fn props_after(current: Option<Properties>, update: Properties) -> Option<Properties> {
    Some(
        properties_updated(
            match current {
                Some(p) => p,
                None => Properties { persistent: MissingOrNull::Missing, retained: MissingOrNull::Missing },
            },
            update,
        ),
    )
}

/// The properties a subscriber holds after the properties updates among `updates`, in order.
pub open spec fn props_fold(current: Option<Properties>, updates: Seq<SubscriberUpdate>) -> Option<
    Properties,
>
    decreases updates.len(),
{
    if updates.len() == 0 {
        current
    } else {
        let before = props_fold(current, updates.drop_last());
        match updates.last() {
            SubscriberUpdate::Properties(p) => props_after(before, p),
            _ => before,
        }
    }
}

/// Whether the announced type `ty` disagrees with a type name `nm` of the payload.
pub open spec fn type_clash(nm: Option<&'static str>, ty: String) -> bool {
    match nm {
        Some(n) => n@ != ty@,
        None => false,
    }
}

/// Whether one update may have outcome `o` for payload `P`: properties and ids continue; a
/// value gives `Value(v)` where `P::parse` may give `Ok(v)` and a mismatch where it may give
/// `Err`; an announced type is a mismatch exactly when `P`'s type name differs from it.
pub open spec fn update_outcome<P: Payload>(update: SubscriberUpdate, o: UpdateOutcome<P>) -> bool {
    match update {
        SubscriberUpdate::Properties(_) => o is Continue,
        SubscriberUpdate::Id(_) => o is Continue,
        SubscriberUpdate::Data(data) => match o {
            UpdateOutcome::Value(v) => P::parse_spec(data, Ok(v)),
            UpdateOutcome::TypeMismatch => P::parse_spec(data, Err(())),
            UpdateOutcome::Continue => false,
        },
        SubscriberUpdate::Type(ty) => exists|nm: Option<&'static str>|
            #[trigger] P::name_spec(nm) && if type_clash(nm, ty) {
                o is TypeMismatch
            } else {
                o is Continue
            },
    }
}

/// Whether an update may be handled without a mismatch.
pub open spec fn update_ok<P: Payload>(update: SubscriberUpdate) -> bool {
    update_outcome::<P>(update, UpdateOutcome::Continue) || exists|v: P|
        #[trigger] update_outcome::<P>(update, UpdateOutcome::Value(v))
}

/// Handles one update: properties are merged into those held; a value is parsed as `P`; an
/// announced type must be `P`'s type name, when `P` has one. See `update_outcome`.
pub fn apply_update<P: Payload>(properties: &mut Option<Properties>, update: SubscriberUpdate) -> (o:
    UpdateOutcome<P>)
    ensures
        update matches SubscriberUpdate::Properties(p) ==> *final(properties) == props_after(
            *old(properties),
            p,
        ),
        !(update is Properties) ==> *final(properties) == *old(properties),
        update_outcome::<P>(update, o),
{
    match update {
        SubscriberUpdate::Properties(props) => {
            let mut current = match properties.take() {
                Some(p) => p,
                None => Properties::default(),
            };
            current.update(props);
            *properties = Some(current);
            UpdateOutcome::Continue
        },
        SubscriberUpdate::Data(data) => {
            let ghost d = data;
            let parsed = P::parse(data);
            let ghost gp = parsed;
            match parsed {
                Ok(value) => UpdateOutcome::Value(value),
                Err(e) => {
                    assert(e == ());
                    assert(gp == Err::<P, ()>(()));
                    assert(P::parse_spec(d, Err(())));
                    UpdateOutcome::TypeMismatch
                },
            }
        },
        SubscriberUpdate::Type(ty) => {
            let nm = P::name();
            let ghost g = nm;
            assert(P::name_spec(g));
            match nm {
                Some(name) => {
                    let owned = name.to_owned();
                    assert(owned@ == name@);
                    let clash = owned != ty;
                    assert(clash == (owned@ != ty@));
                    assert(type_clash(g, ty) == clash);
                    if clash {
                        assert(update_outcome::<P>(SubscriberUpdate::Type(ty), UpdateOutcome::<P>::TypeMismatch));
                        UpdateOutcome::TypeMismatch
                    } else {
                        assert(update_outcome::<P>(SubscriberUpdate::Type(ty), UpdateOutcome::<P>::Continue));
                        UpdateOutcome::Continue
                    }
                },
                None => {
                    assert(update_outcome::<P>(SubscriberUpdate::Type(ty), UpdateOutcome::<P>::Continue));
                    UpdateOutcome::Continue
                },
            }
        },
        SubscriberUpdate::Id(_) => UpdateOutcome::Continue,
    }
}

/// Whether `updates` holds only properties updates and ids.
pub open spec fn only_properties(updates: Seq<SubscriberUpdate>) -> bool {
    forall|i: int| 0 <= i < updates.len() ==> #[trigger] updates[i] is Properties || updates[i] is Id
}

/// Whether `updates` holds no value.
pub open spec fn no_data(updates: Seq<SubscriberUpdate>) -> bool {
    forall|i: int| 0 <= i < updates.len() ==> !(#[trigger] updates[i] is Data)
}

/// Whether `v` is what `P::parse` may make of the last value in `updates`.
pub open spec fn last_value<P: Payload>(updates: Seq<SubscriberUpdate>, v: P) -> bool {
    exists|i: int|
        0 <= i < updates.len() && (#[trigger] updates[i] matches SubscriberUpdate::Data(d)
            && P::parse_spec(d, Ok(v))) && no_data(updates.skip(i + 1))
}

/// Handles pending updates in order: properties are merged, the last value received is kept,
/// and a value or announced type that is not `P`'s stops the handling with an error.
pub fn consume_updates<P: Payload>(properties: &mut Option<Properties>, updates: Vec<SubscriberUpdate>) -> (r:
    Result<Option<P>, ()>)
    ensures
        r is Ok ==> *final(properties) == props_fold(*old(properties), updates@),
        r is Ok ==> forall|j: int| 0 <= j < updates@.len() ==> update_ok::<P>(#[trigger] updates@[j]),
        r matches Ok(Some(v)) ==> last_value::<P>(updates@, v),
        r matches Ok(None) ==> no_data(updates@),
        r is Err ==> exists|i: int|
            0 <= i < updates@.len() && update_outcome::<P>(#[trigger] updates@[i], UpdateOutcome::TypeMismatch)
                && (forall|j: int| 0 <= j < i ==> update_ok::<P>(#[trigger] updates@[j]))
                && *final(properties) == props_fold(*old(properties), updates@.take(i)),
        only_properties(updates@) ==> r matches Ok(None),
{
    let ghost all = updates@;
    let mut rest = updates;
    let total = rest.len();
    let mut data: Option<P> = None;
    let mut k: usize = 0;
    while rest.len() > 0
        invariant
            all == updates@,
            all.len() == total,
            k + rest@.len() == all.len(),
            rest@ == all.skip(k as int),
            *properties == props_fold(*old(properties), all.take(k as int)),
            forall|j: int| 0 <= j < k ==> update_ok::<P>(#[trigger] all[j]),
            data matches Some(v) ==> last_value::<P>(all.take(k as int), v),
            data is None ==> no_data(all.take(k as int)),
        decreases rest@.len(),
    {
        let update = rest.remove(0);
        assert(update == all[k as int]);
        assert(all.take(k + 1).drop_last() =~= all.take(k as int));
        let ghost u = update;
        let ghost before = data;
        match apply_update::<P>(properties, update) {
            UpdateOutcome::Continue => {
                assert(update_ok::<P>(u));
                proof {
                    assert(!(u is Data));
                    match before {
                        Some(v) => {
                            let i = choose|i: int|
                                0 <= i < all.take(k as int).len() && (#[trigger] all.take(k as int)[i] matches SubscriberUpdate::Data(d)
                                    && P::parse_spec(d, Ok(v))) && no_data(all.take(k as int).skip(i + 1));
                            assert(all.take(k + 1).skip(i + 1) =~= all.take(k as int).skip(i + 1).push(u));
                            assert(all.take(k + 1)[i] == all.take(k as int)[i]);
                        },
                        None => {
                            assert(all.take(k + 1) =~= all.take(k as int).push(u));
                        },
                    }
                }
            },
            UpdateOutcome::Value(v) => {
                let ghost gv = v;
                assert(update_outcome::<P>(u, UpdateOutcome::Value(gv)));
                assert(update_ok::<P>(u));
                data = Some(v);
                proof {
                    assert(all.take(k + 1)[k as int] == u);
                    assert(all.take(k + 1).skip(k + 1) =~= Seq::<SubscriberUpdate>::empty());
                }
            },
            UpdateOutcome::TypeMismatch => {
                assert(!only_properties(all)) by {
                    assert(!(all[k as int] is Properties || all[k as int] is Id));
                }
                assert(update_outcome::<P>(all[k as int], UpdateOutcome::TypeMismatch));
                return Err(());
            },
        }
        k += 1;
        assert(rest@ =~= all.skip(k as int));
    }
    assert(all.take(k as int) =~= all);
    Ok(data)
}

} // verus!
