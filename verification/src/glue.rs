//! The values that cross the boundary to the managed runtime.

use vstd::prelude::*;
use vstd::string::*;
use matchbox_socket::PeerId;
use uuid::Uuid;

verus! {

/// A color as the managed runtime holds it: one integer with the red
/// component in the lowest byte, then green, blue and alpha.
#[derive(Clone, Copy, PartialEq, Eq, Structural)]
pub struct RocColor(pub i64);

impl RocColor {
    /// Opaque white.
    pub fn white() -> (c: RocColor)
        ensures
            c.0 == RocColor::pack(255, 255, 255, 255),
    {
        RocColor::from_rgba(255, 255, 255, 255)
    }

    /// Opaque black.
    pub fn black() -> (c: RocColor)
        ensures
            c.0 == RocColor::pack(0, 0, 0, 255),
    {
        RocColor::from_rgba(0, 0, 0, 255)
    }

    /// Opaque red.
    pub fn red() -> (c: RocColor)
        ensures
            c.0 == RocColor::pack(255, 0, 0, 255),
    {
        RocColor::from_rgba(255, 0, 0, 255)
    }

    /// Opaque green.
    pub fn green() -> (c: RocColor)
        ensures
            c.0 == RocColor::pack(0, 255, 0, 255),
    {
        RocColor::from_rgba(0, 255, 0, 255)
    }

    /// Opaque blue.
    pub fn blue() -> (c: RocColor)
        ensures
            c.0 == RocColor::pack(0, 0, 255, 255),
    {
        RocColor::from_rgba(0, 0, 255, 255)
    }

    /// The integer that holds the four components.
    pub open spec fn pack(r: u8, g: u8, b: u8, a: u8) -> int {
        r + 0x100 * g + 0x1_0000 * b + 0x100_0000 * a
    }

    /// The four components that an integer holds in its lowest four bytes,
    /// red first.
    pub open spec fn unpack(v: i64) -> (u8, u8, u8, u8) {
        (
            (v % 0x100) as u8,
            ((v / 0x100) % 0x100) as u8,
            ((v / 0x1_0000) % 0x100) as u8,
            ((v / 0x100_0000) % 0x100) as u8,
        )
    }

    /// The color of the four components.
    pub fn from_rgba(r: u8, g: u8, b: u8, a: u8) -> (c: RocColor)
        ensures
            c.0 == RocColor::pack(r, g, b, a),
    {
        let color: i64 = ((a as i64) << 24) | ((b as i64) << 16) | ((g as i64) << 8) | (r as i64);
        assert(((a as i64) << 24) | ((b as i64) << 16) | ((g as i64) << 8) | (r as i64) == r
            + 0x100 * g + 0x1_0000 * b + 0x100_0000 * a) by (bit_vector);
        RocColor(color)
    }

    /// The components of the color: red, green, blue, alpha.
    pub fn to_rgba(self) -> (rgba: (u8, u8, u8, u8))
        ensures
            rgba == RocColor::unpack(self.0),
    {
        let v: i64 = self.0;
        let a = ((v >> 24) & 0xFF) as u8;
        let b = ((v >> 16) & 0xFF) as u8;
        let g = ((v >> 8) & 0xFF) as u8;
        let r = (v & 0xFF) as u8;
        assert(((v >> 24) & 0xFF) as u8 == ((v / 0x100_0000) % 0x100) as u8) by (bit_vector);
        assert(((v >> 16) & 0xFF) as u8 == ((v / 0x1_0000) % 0x100) as u8) by (bit_vector);
        assert(((v >> 8) & 0xFF) as u8 == ((v / 0x100) % 0x100) as u8) by (bit_vector);
        assert((v & 0xFF) as u8 == (v % 0x100) as u8) by (bit_vector);
        (r, g, b, a)
    }

    /// The text that shows the color, one decimal number for each component.
    pub open spec fn debug_text(self) -> Seq<char> {
        let (r, g, b, a) = RocColor::unpack(self.0);
        "HostColor { r: "@ + decimal(r as nat) + ", g: "@ + decimal(g as nat) + ", b: "@ + decimal(
            b as nat,
        ) + ", a: "@ + decimal(a as nat) + " }"@
    }

    /// The color as text, as in `HostColor { r: 100, g: 150, b: 200, a: 255 }`.
    pub fn to_debug_string(&self) -> (s: String)
        ensures
            s@ == self.debug_text(),
    {
        let (r, g, b, a) = self.to_rgba();
        let mut s = String::from_str("HostColor { r: ");
        append_decimal(&mut s, r);
        s.append(", g: ");
        append_decimal(&mut s, g);
        s.append(", b: ");
        append_decimal(&mut s, b);
        s.append(", a: ");
        append_decimal(&mut s, a);
        s.append(" }");
        s
    }
}

/// The components of a color come back out of it as they went in.
pub proof fn lemma_rgba_round_trip(r: u8, g: u8, b: u8, a: u8)
    ensures
        RocColor::unpack(RocColor::pack(r, g, b, a) as i64) == (r, g, b, a),
        0 <= RocColor::pack(r, g, b, a) < 0x1_0000_0000,
{
    let v = (r + 0x100 * g + 0x1_0000 * b + 0x100_0000 * a) as i64;
    assert(v == RocColor::pack(r, g, b, a));
    assert({
        let v = (r + 0x100 * g + 0x1_0000 * b + 0x100_0000 * a) as i64;
        &&& (v % 0x100) as u8 == r
        &&& ((v / 0x100) % 0x100) as u8 == g
        &&& ((v / 0x1_0000) % 0x100) as u8 == b
        &&& ((v / 0x100_0000) % 0x100) as u8 == a
    }) by (bit_vector);
}

/// An integer of four bytes is the color of its own components.
pub proof fn lemma_unpack_reads_four_bytes(v: i64)
    requires
        0 <= v < 0x1_0000_0000,
    ensures
        RocColor::pack(
            RocColor::unpack(v).0,
            RocColor::unpack(v).1,
            RocColor::unpack(v).2,
            RocColor::unpack(v).3,
        ) == v,
{
    assert(0 <= v < 0x1_0000_0000 ==> ((v % 0x100) as u8) + 0x100 * (((v / 0x100) % 0x100) as u8)
        + 0x1_0000 * (((v / 0x1_0000) % 0x100) as u8) + 0x100_0000 * (((v / 0x100_0000)
        % 0x100) as u8) == v) by (bit_vector);
}

/// The character of a decimal digit.
pub open spec fn digit(d: nat) -> char
    recommends
        d < 10,
{
    if d == 0 {
        '0'
    } else if d == 1 {
        '1'
    } else if d == 2 {
        '2'
    } else if d == 3 {
        '3'
    } else if d == 4 {
        '4'
    } else if d == 5 {
        '5'
    } else if d == 6 {
        '6'
    } else if d == 7 {
        '7'
    } else if d == 8 {
        '8'
    } else {
        '9'
    }
}

/// The decimal digits of a number, without leading zeros.
pub open spec fn decimal(n: nat) -> Seq<char>
    decreases n,
{
    if n < 10 {
        seq![digit(n)]
    } else {
        decimal(n / 10).push(digit(n % 10))
    }
}

/// The text of one decimal digit.
fn digit_text(d: u8) -> (s: &'static str)
    requires
        d < 10,
    ensures
        s@ == seq![digit(d as nat)],
{
    proof {
        reveal_strlit("0");
        reveal_strlit("1");
        reveal_strlit("2");
        reveal_strlit("3");
        reveal_strlit("4");
        reveal_strlit("5");
        reveal_strlit("6");
        reveal_strlit("7");
        reveal_strlit("8");
        reveal_strlit("9");
    }
    let s = if d == 0 {
        "0"
    } else if d == 1 {
        "1"
    } else if d == 2 {
        "2"
    } else if d == 3 {
        "3"
    } else if d == 4 {
        "4"
    } else if d == 5 {
        "5"
    } else if d == 6 {
        "6"
    } else if d == 7 {
        "7"
    } else if d == 8 {
        "8"
    } else {
        "9"
    };
    assert(s@ =~= seq![digit(d as nat)]);
    s
}

/// Writes the decimal digits of `n` behind `s`.
fn append_decimal(s: &mut String, n: u8)
    ensures
        final(s)@ == old(s)@ + decimal(n as nat),
{
    proof {
        reveal_with_fuel(decimal, 3);
    }
    if n >= 100 {
        s.append(digit_text(n / 100));
        s.append(digit_text((n / 10) % 10));
        s.append(digit_text(n % 10));
        assert(decimal(n as nat) =~= seq![
            digit((n / 100) as nat),
            digit(((n / 10) % 10) as nat),
            digit((n % 10) as nat),
        ]);
    } else if n >= 10 {
        s.append(digit_text(n / 10));
        s.append(digit_text(n % 10));
        assert(decimal(n as nat) =~= seq![digit((n / 10) as nat), digit((n % 10) as nat)]);
    } else {
        s.append(digit_text(n));
    }
}

/// The identity of a peer as the transport holds it.
#[verifier::external_type_specification]
#[verifier::external_body]
pub struct ExPeerId(matchbox_socket::PeerId);

/// The two halves of the 128 bits of a peer identity: the most significant
/// 64 bits, then the least significant.
pub uninterp spec fn peer_id_pair(id: PeerId) -> (u64, u64);

/// `Uuid::as_u64_pair` on the identifier inside a `PeerId`: the two halves of
/// its 128 bits, the most significant first.
#[verifier::external_body]
fn peer_id_as_u64_pair(id: &PeerId) -> (pair: (u64, u64))
    ensures
        pair == peer_id_pair(*id),
{
    id.0.as_u64_pair()
}

/// `Uuid::from_u64_pair`, wrapped into a `PeerId`: the identity whose 128
/// bits are `high` followed by `low`, so that `Uuid::as_u64_pair` gives the
/// two back.
#[verifier::external_body]
fn peer_id_from_u64_pair(high: u64, low: u64) -> (id: PeerId)
    ensures
        peer_id_pair(id) == (high, low),
{
    PeerId(Uuid::from_u64_pair(high, low))
}

/// The identity of a peer as the managed runtime holds it: the two halves of
/// its 128 bits, and three words that are always zero.
#[derive(Debug, Clone, Copy, PartialEq, Eq, PartialOrd, Ord, Hash, Structural)]
pub struct PeerUUID {
    pub lower: u64,
    pub upper: u64,
    pub zzz1: u64,
    pub zzz2: u64,
    pub zzz3: u64,
}

impl PeerUUID {
    /// The identity of the two halves.
    pub open spec fn of_pair(pair: (u64, u64)) -> PeerUUID {
        PeerUUID { lower: pair.1, upper: pair.0, zzz1: 0, zzz2: 0, zzz3: 0 }
    }

    /// The identity of the two halves.
    pub fn new(upper: u64, lower: u64) -> (id: PeerUUID)
        ensures
            id == PeerUUID::of_pair((upper, lower)),
    {
        PeerUUID { lower, upper, zzz1: 0, zzz2: 0, zzz3: 0 }
    }

    /// The identity that the managed runtime holds for a peer of the
    /// transport.
    pub fn from_peer_id(peer_id: &PeerId) -> (id: PeerUUID)
        ensures
            id == PeerUUID::of_pair(peer_id_pair(*peer_id)),
    {
        let (upper, lower) = peer_id_as_u64_pair(peer_id);
        PeerUUID { lower, upper, zzz1: 0, zzz2: 0, zzz3: 0 }
    }

    /// The peer of the transport that this identity names.
    pub fn to_peer_id(&self) -> (peer_id: PeerId)
        ensures
            peer_id_pair(peer_id) == (self.upper, self.lower),
    {
        peer_id_from_u64_pair(self.upper, self.lower)
    }
}

impl Default for PeerUUID {
    fn default() -> (id: PeerUUID)
        ensures
            id == PeerUUID::of_pair((0, 0)),
    {
        PeerUUID { lower: 0, upper: 0, zzz1: 0, zzz2: 0, zzz3: 0 }
    }
}

impl From<PeerId> for PeerUUID {
    fn from(peer_id: PeerId) -> (id: PeerUUID) {
        PeerUUID::from_peer_id(&peer_id)
    }
}

impl vstd::std_specs::convert::FromSpecImpl<PeerId> for PeerUUID {
    open spec fn obeys_from_spec() -> bool {
        true
    }

    open spec fn from_spec(peer_id: PeerId) -> PeerUUID {
        PeerUUID::of_pair(peer_id_pair(peer_id))
    }
}

/// An identity goes to the transport and comes back as it was, but for the
/// three words that are always zero.
pub proof fn lemma_peer_id_round_trip(id: PeerUUID, peer_id: PeerId)
    requires
        peer_id_pair(peer_id) == (id.upper, id.lower),
    ensures
        PeerUUID::of_pair(peer_id_pair(peer_id)) == PeerUUID::of_pair((id.upper, id.lower)),
        id.zzz1 == 0 && id.zzz2 == 0 && id.zzz3 == 0 ==> PeerUUID::of_pair(peer_id_pair(peer_id))
            == id,
{
}

/// The peers of one frame: those that are connected and those that were and
/// no longer are, each list in the order in which the peers were first seen.
#[derive(Debug, Clone, PartialEq, Eq)]
pub struct PeerState {
    pub connected: Vec<PeerUUID>,
    pub disconnected: Vec<PeerUUID>,
}

/// What a peer sent.
#[derive(Debug, Clone, PartialEq, Eq)]
pub struct PeerMessage {
    pub bytes: Vec<u8>,
    pub id: PeerUUID,
}

/// The times, in milliseconds since the epoch, at which the phases of the
/// session began and ended.
#[derive(Debug, Clone, Copy, PartialEq, Eq, Structural)]
pub struct PlatformTime {
    pub init_end: u64,
    pub init_start: u64,
    pub last_render_end: u64,
    pub last_render_start: u64,
    pub render_start: u64,
}

impl Default for PlatformTime {
    fn default() -> (time: PlatformTime)
        ensures
            time == (PlatformTime {
                init_end: 0,
                init_start: 0,
                last_render_end: 0,
                last_render_start: 0,
                render_start: 0,
            }),
    {
        PlatformTime {
            init_end: 0,
            init_start: 0,
            last_render_end: 0,
            last_render_start: 0,
            render_start: 0,
        }
    }
}

/// What the managed runtime is shown of the platform in one frame.
#[derive(Debug, Clone, PartialEq, Eq)]
pub struct PlatformState {
    /// The number of the frame, the first frame being frame one.
    pub frame_count: u64,
    /// The state of each key: one byte for each.
    pub keys: Vec<u8>,
    /// What the peers sent since the last frame, in the order of arrival.
    pub messages: Vec<PeerMessage>,
    /// The state of each mouse button: one byte for each.
    pub mouse_buttons: Vec<u8>,
    pub peers: PeerState,
    pub timestamps: PlatformTime,
    pub mouse_pos_x: i32,
    pub mouse_pos_y: i32,
}

impl PlatformState {
    /// Nothing has happened yet.
    pub open spec fn is_blank(&self) -> bool {
        &&& self.frame_count == 0
        &&& self.keys@.len() == 0
        &&& self.messages@.len() == 0
        &&& self.mouse_buttons@.len() == 0
        &&& self.peers.connected@.len() == 0
        &&& self.peers.disconnected@.len() == 0
        &&& self.timestamps == (PlatformTime {
            init_end: 0,
            init_start: 0,
            last_render_end: 0,
            last_render_start: 0,
            render_start: 0,
        })
        &&& self.mouse_pos_x == 0
        &&& self.mouse_pos_y == 0
    }

    /// The state before the first frame.
    pub fn new() -> (state: PlatformState)
        ensures
            state.is_blank(),
    {
        PlatformState {
            frame_count: 0,
            keys: Vec::new(),
            messages: Vec::new(),
            mouse_buttons: Vec::new(),
            peers: PeerState { connected: Vec::new(), disconnected: Vec::new() },
            timestamps: PlatformTime::default(),
            mouse_pos_x: 0,
            mouse_pos_y: 0,
        }
    }
}

} // verus!
