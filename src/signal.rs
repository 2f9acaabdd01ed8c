use vstd::prelude::*;

verus! {

/// A 256-bit content digest; it identifies everything the ledgers hold.
pub type ContentHash = [u8; 32];

/// A peer's locator: 16 bytes of IPv6 address followed by a big-endian port.
pub type Socket = [u8; 18];

/// Seconds since the Unix epoch; only ever compared.
pub type Time = i64;

/// A quality score, carried as the IEEE-754 bit pattern of the score.
///
/// The score runs from harmful (0) through neutral (0.5) to critical
/// (infinity); very negative values mean "not worth reviewing". The ledgers
/// only store and return it, so it is kept as the exact bits it arrived in.
#[derive(Clone, Copy, PartialEq, Eq, Structural, Debug)]
pub struct Quality {
    pub bits: u64,
}

/// The kind of file that a typed payload holds.
#[derive(Clone, Copy, PartialEq, Eq, Structural, Debug)]
pub enum PayloadKind {
    Rust,
    Python,
    Markdown,
    Text,
}

/// A typed assertion about a hash.
#[derive(Clone, Debug, PartialEq, Eq)]
pub enum Signal {
    /// The data that the hash was computed from.
    Source(Vec<u8>),
    /// A quality score for the data behind the hash.
    Quality(Quality),
    /// The peer from which the hash was received, when, and whether the
    /// content checked out.
    Presence(Socket, Time, bool),
    /// A name for the data.
    Name(String),
    /// Data of a known file kind.
    TypedPayload(PayloadKind, Vec<u8>),
}

/// The mathematical value of a `Signal`.
pub enum SignalModel {
    Source(Seq<u8>),
    Quality(Quality),
    Presence(Seq<u8>, Time, bool),
    Name(Seq<char>),
    TypedPayload(PayloadKind, Seq<u8>),
}

impl View for Signal {
    type V = SignalModel;

    open spec fn view(&self) -> SignalModel {
        match self {
            Signal::Source(b) => SignalModel::Source(b@),
            Signal::Quality(q) => SignalModel::Quality(*q),
            Signal::Presence(s, t, v) => SignalModel::Presence(s@, *t, *v),
            Signal::Name(n) => SignalModel::Name(n@),
            Signal::TypedPayload(k, b) => SignalModel::TypedPayload(*k, b@),
        }
    }
}

/// A value that a ledger can store and hand back copies of.
pub trait Record: View + Sized {
    fn duplicate(&self) -> (r: Self)
        ensures
            r@ == self@,
    ;
}

impl Record for Signal {
    fn duplicate(&self) -> (r: Signal) {
        match self {
            Signal::Source(b) => Signal::Source(b.clone()),
            Signal::Quality(q) => Signal::Quality(*q),
            Signal::Presence(s, t, v) => Signal::Presence(*s, *t, *v),
            Signal::Name(n) => Signal::Name(n.clone()),
            Signal::TypedPayload(k, b) => Signal::TypedPayload(*k, b.clone()),
        }
    }
}

impl View for Quality {
    type V = Quality;

    open spec fn view(&self) -> Quality {
        *self
    }
}

impl Record for Quality {
    fn duplicate(&self) -> (r: Quality) {
        *self
    }
}

/// One presence observation: the peer that had the hash, and when.
#[derive(Clone, Copy, Debug, PartialEq, Eq)]
pub struct Sighting {
    pub socket: Socket,
    pub time: Time,
}

impl View for Sighting {
    type V = (Seq<u8>, Time);

    open spec fn view(&self) -> (Seq<u8>, Time) {
        (self.socket@, self.time)
    }
}

impl Record for Sighting {
    fn duplicate(&self) -> (r: Sighting) {
        Sighting { socket: self.socket, time: self.time }
    }
}

} // verus!
