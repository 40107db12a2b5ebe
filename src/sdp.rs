use vstd::prelude::*;

use crate::error::BridgeError;

verus! {

/// Opaque reference to a foreign session-description object.
#[derive(Clone, Copy, Debug, PartialEq, Eq, Structural)]
pub struct RffiSessionDescriptionInterface {
    pub id: u64,
}

/// Whether a description proposes a session or accepts one.
#[derive(Clone, Copy, Debug, PartialEq, Eq, Structural)]
pub enum Direction {
    Offer,
    Answer,
}

/// Whether the UTF-8 bytes `b` hold a zero byte, which no text handed to the
/// foreign engine may contain.
pub open spec fn has_nul(b: Seq<u8>) -> bool {
    exists|i: int| 0 <= i < b.len() && b[i] == 0u8
}

/// Whether `text` can be handed to the foreign engine (it holds no zero byte).
pub fn is_transferable_text(text: &str) -> (r: bool)
    ensures
        r == !has_nul(vstd::utf8::encode_utf8(text@)),
{
    let b = text.as_bytes();
    let n = b.len();
    let mut i: usize = 0;
    while i < n
        invariant
            n == b@.len(),
            b@ == vstd::utf8::encode_utf8(text@),
            0 <= i <= n,
            forall|j: int| 0 <= j < i ==> b@[j] != 0u8,
        decreases n - i,
    {
        if b[i] == 0u8 {
            return false;
        }
        i = i + 1;
    }
    true
}

/// Owning handle to a foreign session-description object.
#[derive(Debug)]
pub struct SessionDescriptionInterface {
    sd_interface: RffiSessionDescriptionInterface,
    direction: Option<Direction>,
}

impl View for SessionDescriptionInterface {
    type V = RffiSessionDescriptionInterface;

    closed spec fn view(&self) -> RffiSessionDescriptionInterface {
        self.sd_interface
    }
}

impl SessionDescriptionInterface {
    /// The direction recorded for this description, if it is known.
    pub closed spec fn kind(&self) -> Option<Direction> {
        self.direction
    }

    /// Wraps a foreign description object whose direction is not known here
    /// (such as one delivered by a create operation).
    pub fn new(sd_interface: RffiSessionDescriptionInterface) -> (r: Self)
        ensures
            r@ == sd_interface,
            r.kind() is None,
    {
        SessionDescriptionInterface { sd_interface, direction: None }
    }

    /// Wraps a foreign description object of the given direction.
    pub fn with_direction(sd_interface: RffiSessionDescriptionInterface, direction: Direction) -> (r: Self)
        ensures
            r@ == sd_interface,
            r.kind() == Some(direction),
    {
        SessionDescriptionInterface { sd_interface, direction: Some(direction) }
    }

    /// The direction recorded for this description, if it is known.
    pub fn direction(&self) -> (r: Option<Direction>)
        ensures
            r == self.kind(),
    {
        self.direction
    }

    /// The foreign description object behind this handle.
    pub fn get_rffi_interface(&self) -> (r: RffiSessionDescriptionInterface)
        ensures
            r == self@,
    {
        self.sd_interface
    }

    /// The text form of this description, given what the foreign engine
    /// rendered for it (`None` when it rendered nothing).
    pub fn get_description(&self, rendered: Option<String>) -> (r: Result<String, BridgeError>)
        ensures
            rendered is Some ==> r == Ok::<String, BridgeError>(rendered->0),
            rendered is None ==> r == Err::<String, BridgeError>(BridgeError::DescriptionUnavailable),
    {
        match rendered {
            Some(s) => Ok(s),
            None => Err(BridgeError::DescriptionUnavailable),
        }
    }

    /// Builds an answer description from `session_desc`. `parsed` is what the
    /// foreign engine's answer parser returned for that text; text that holds
    /// a zero byte is refused before it could reach the engine.
    pub fn create_sdp_answer(
        session_desc: String,
        parsed: Option<RffiSessionDescriptionInterface>,
    ) -> (r: Result<Self, BridgeError>)
        ensures
            parsed_outcome(session_desc@, parsed, Direction::Answer, r),
    {
        Self::from_parsed(&session_desc, parsed, Direction::Answer)
    }

    /// Builds an offer description from `session_desc`. `parsed` is what the
    /// foreign engine's offer parser returned for that text; text that holds
    /// a zero byte is refused before it could reach the engine.
    pub fn create_sdp_offer(
        session_desc: String,
        parsed: Option<RffiSessionDescriptionInterface>,
    ) -> (r: Result<Self, BridgeError>)
        ensures
            parsed_outcome(session_desc@, parsed, Direction::Offer, r),
    {
        Self::from_parsed(&session_desc, parsed, Direction::Offer)
    }

    fn from_parsed(
        session_desc: &String,
        parsed: Option<RffiSessionDescriptionInterface>,
        direction: Direction,
    ) -> (r: Result<Self, BridgeError>)
        ensures
            parsed_outcome(session_desc@, parsed, direction, r),
    {
        if !is_transferable_text(session_desc.as_str()) {
            return Err(BridgeError::MalformedDescription);
        }
        match parsed {
            Some(p) => Ok(SessionDescriptionInterface::with_direction(p, direction)),
            None => Err(BridgeError::MalformedDescription),
        }
    }
}

/// The outcome of turning `text` into a description, given what the foreign
/// parser returned: success exactly when the text is transferable and the
/// parser produced an object, which the handle then refers to, tagged with
/// `direction`; otherwise `MalformedDescription`.
pub open spec fn parsed_outcome(
    text: Seq<char>,
    parsed: Option<RffiSessionDescriptionInterface>,
    direction: Direction,
    r: Result<SessionDescriptionInterface, BridgeError>,
) -> bool {
    if !has_nul(vstd::utf8::encode_utf8(text)) && parsed is Some {
        r is Ok && r->Ok_0@ == parsed->0 && r->Ok_0.kind() == Some(direction)
    } else {
        r == Err::<SessionDescriptionInterface, BridgeError>(BridgeError::MalformedDescription)
    }
}

} // verus!
