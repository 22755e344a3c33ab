//! The session with the server: which server the player talks to, what it
//! announces about itself, and what it passes on of what the server sends.

use slimproto::{Capabilities, Capability};
use vstd::prelude::*;

use crate::message::{ClientMessage, ServerMessage};

verus! {

/// The port that servers listen on.
pub const SLIM_PORT: u16 = 3483;

/// The highest sample rate that the player announces.
pub const MAX_SAMPLE_RATE: u32 = 192000;

/// `slimproto::Capability`, one item of what a client announces. It is
/// declared with its variants, which Verus reads from the crate: nothing is
/// claimed of it here.
#[verifier::external_type_specification]
pub struct ExCapability(Capability);

/// `slimproto::Capabilities`, the list of what a client announces.
#[verifier::external_type_specification]
#[verifier::external_body]
pub struct ExCapabilities(Capabilities);

/// The items of a capability list, in the order in which they are sent.
pub uninterp spec fn caps_items(caps: Capabilities) -> Seq<Capability>;

/// Whether two capabilities are of the same variant, whatever they carry.
/// This is what `==` means on `slimproto::Capability`.
pub open spec fn same_kind(a: Capability, b: Capability) -> bool {
    match (a, b) {
        (Capability::Wma, Capability::Wma) => true,
        (Capability::Wmap, Capability::Wmap) => true,
        (Capability::Wmal, Capability::Wmal) => true,
        (Capability::Ogg, Capability::Ogg) => true,
        (Capability::Flc, Capability::Flc) => true,
        (Capability::Pcm, Capability::Pcm) => true,
        (Capability::Aif, Capability::Aif) => true,
        (Capability::Mp3, Capability::Mp3) => true,
        (Capability::Alc, Capability::Alc) => true,
        (Capability::Aac, Capability::Aac) => true,
        (Capability::Maxsamplerate(_), Capability::Maxsamplerate(_)) => true,
        (Capability::Model(_), Capability::Model(_)) => true,
        (Capability::Modelname(_), Capability::Modelname(_)) => true,
        (Capability::Rhap, Capability::Rhap) => true,
        (Capability::Accurateplaypoints, Capability::Accurateplaypoints) => true,
        (Capability::Syncgroupid(_), Capability::Syncgroupid(_)) => true,
        (Capability::Hasdigitalout, Capability::Hasdigitalout) => true,
        (Capability::Haspreamp, Capability::Haspreamp) => true,
        (Capability::Hasdisabledac, Capability::Hasdisabledac) => true,
        (Capability::Firmware(_), Capability::Firmware(_)) => true,
        (Capability::Balance, Capability::Balance) => true,
        (Capability::CanHTTPS, Capability::CanHTTPS) => true,
        _ => false,
    }
}

/// The first place in `items` that holds a capability of the kind of `cap`.
pub open spec fn position_of_kind(items: Seq<Capability>, cap: Capability) -> Option<int>
    decreases items.len(),
{
    if items.len() == 0 {
        None
    } else if same_kind(items[0], cap) {
        Some(0int)
    } else {
        match position_of_kind(items.drop_first(), cap) {
            Some(i) => Some(i + 1),
            None => None,
        }
    }
}

/// The list after `cap` was added: the first capability of its kind, if
/// there is one, is taken out, and `cap` goes to the end.
pub open spec fn spec_caps_added(items: Seq<Capability>, cap: Capability) -> Seq<Capability> {
    match position_of_kind(items, cap) {
        Some(i) => items.remove(i).push(cap),
        None => items.push(cap),
    }
}

/// Whether `items` is the list that every capability list starts from:
/// the model "squeezelite", the model name "SqueezeLite", accurate play
/// points, a digital output, a pre-amplifier and a DAC that can be disabled.
pub open spec fn is_default_caps(items: Seq<Capability>) -> bool {
    &&& items.len() == 6
    &&& items[0] matches Capability::Model(model) && model@ == "squeezelite"@
    &&& items[1] matches Capability::Modelname(name) && name@ == "SqueezeLite"@
    &&& items[2] is Accurateplaypoints
    &&& items[3] is Hasdigitalout
    &&& items[4] is Haspreamp
    &&& items[5] is Hasdisabledac
}

/// Calls `Capabilities::default()` of slimproto. The contract lists the six
/// capabilities that its source pushes, in its order.
#[verifier::external_body]
fn caps_default() -> (caps: Capabilities)
    ensures
        is_default_caps(caps_items(caps)),
{
    Capabilities::default()
}

/// Calls `Capabilities::add` of slimproto. As its source has it, the method
/// looks for the first capability that equals the new one, which is to say
/// one of the same variant, removes it if there is one, and pushes the new
/// capability to the end.
#[verifier::external_body]
fn caps_add(caps: &mut Capabilities, newcap: Capability)
    ensures
        caps_items(*final(caps)) == spec_caps_added(caps_items(*old(caps)), newcap),
{
    caps.add(newcap)
}

/// A list that holds no capability of the kind of `cap` has no place for it.
proof fn lemma_no_position(items: Seq<Capability>, cap: Capability)
    requires
        forall|i: int| 0 <= i < items.len() ==> !same_kind(#[trigger] items[i], cap),
    ensures
        position_of_kind(items, cap) is None,
        spec_caps_added(items, cap) == items.push(cap),
    decreases items.len(),
{
    if items.len() > 0 {
        let rest = items.drop_first();
        assert forall|i: int| 0 <= i < rest.len() implies !same_kind(#[trigger] rest[i], cap) by {
            assert(rest[i] == items[i + 1]);
        }
        lemma_no_position(rest, cap);
    }
}

/// Whether the player is in a sync group that it can name.
pub open spec fn sync_group_known(sync_group_id: Option<String>) -> bool {
    sync_group_id matches Some(id) && id@.len() > 0
}

/// What the player adds to the default capabilities: its firmware version,
/// the highest sample rate, the sync group if it is in one, and the formats
/// that it plays.
pub open spec fn spec_announced(firmware: String, sync_group_id: Option<String>) -> Seq<
    Capability,
> {
    seq![Capability::Firmware(firmware), Capability::Maxsamplerate(MAX_SAMPLE_RATE)] + (
    if sync_group_known(sync_group_id) {
        seq![Capability::Syncgroupid(sync_group_id->Some_0)]
    } else {
        Seq::<Capability>::empty()
    }) + seq![
        Capability::Pcm,
        Capability::Mp3,
        Capability::Aac,
        Capability::Alc,
        Capability::Ogg,
        Capability::Flc,
    ]
}

/// What the player announces always holds its firmware version, the
/// highest sample rate and the six formats. It holds the sync group right
/// behind the sample rate if the player is in one, and no sync group at all
/// if it is not.
pub proof fn lemma_announced_items(firmware: String, sync_group_id: Option<String>)
    ensures
        ({
            let items = spec_announced(firmware, sync_group_id);
            let formats = if sync_group_known(sync_group_id) {
                3int
            } else {
                2int
            };
            &&& items.len() == formats + 6
            &&& items[0] == Capability::Firmware(firmware)
            &&& items[1] == Capability::Maxsamplerate(MAX_SAMPLE_RATE)
            &&& sync_group_known(sync_group_id) ==> items[2] == Capability::Syncgroupid(
                sync_group_id->Some_0,
            )
            &&& !sync_group_known(sync_group_id) ==> forall|i: int|
                0 <= i < items.len() ==> !(#[trigger] items[i] is Syncgroupid)
            &&& items[formats] == Capability::Pcm
            &&& items[formats + 1] == Capability::Mp3
            &&& items[formats + 2] == Capability::Aac
            &&& items[formats + 3] == Capability::Alc
            &&& items[formats + 4] == Capability::Ogg
            &&& items[formats + 5] == Capability::Flc
        }),
{
}

/// Add a capability of a kind that the list does not hold yet.
fn announce(caps: &mut Capabilities, cap: Capability)
    requires
        forall|i: int|
            0 <= i < caps_items(*old(caps)).len() ==> !same_kind(
                #[trigger] caps_items(*old(caps))[i],
                cap,
            ),
    ensures
        caps_items(*final(caps)) == caps_items(*old(caps)).push(cap),
{
    proof {
        lemma_no_position(caps_items(*caps), cap);
    }
    caps_add(caps, cap);
}

/// Build the capabilities that the player announces when it connects: the
/// default ones, followed by its firmware version, a highest sample rate of
/// 192000, its sync group if it has joined one, and the formats PCM, MP3,
/// AAC, ALAC, Ogg and FLAC.
pub fn capabilities(firmware: String, sync_group_id: Option<String>) -> (caps: Capabilities)
    ensures
        caps_items(caps).len() == 6 + spec_announced(firmware, sync_group_id).len(),
        is_default_caps(caps_items(caps).take(6)),
        caps_items(caps).skip(6) == spec_announced(firmware, sync_group_id),
{
    let mut caps = caps_default();
    let ghost start = caps_items(caps);
    announce(&mut caps, Capability::Firmware(firmware));
    announce(&mut caps, Capability::Maxsamplerate(MAX_SAMPLE_RATE));
    match sync_group_id {
        Some(id) => {
            if !id.as_str().is_empty() {
                announce(&mut caps, Capability::Syncgroupid(id));
            }
        },
        None => {},
    }
    announce(&mut caps, Capability::Pcm);
    announce(&mut caps, Capability::Mp3);
    announce(&mut caps, Capability::Aac);
    announce(&mut caps, Capability::Alc);
    announce(&mut caps, Capability::Ogg);
    announce(&mut caps, Capability::Flc);
    assert(caps_items(caps).take(6) =~= start);
    assert(caps_items(caps).skip(6) =~= spec_announced(firmware, sync_group_id));
    caps
}

/// The server that the player talks to.
#[derive(Clone, Debug, PartialEq, Eq)]
pub struct Server {
    /// Its IPv4 address, as a 32-bit number.
    pub ip: u32,
    pub port: u16,
    /// The sync group that the server put the player in.
    pub sync_group_id: Option<String>,
}

/// What the reader of the session does after a read.
#[derive(Clone, Copy, Debug, PartialEq, Eq, Structural)]
pub enum Then {
    /// Read on.
    Continue,
    /// Drop the connection and connect to the server that is now current.
    Reconnect,
    /// End the session.
    Exit,
}

/// What came of a read from the server.
#[derive(Clone, Debug, PartialEq, Eq)]
pub struct Received {
    /// What goes to the control core, in order. `None` says that the
    /// server is lost.
    pub forward: Vec<Option<ServerMessage>>,
    pub after: Then,
}

/// The server to start with: the configured one, else the discovered one.
pub open spec fn spec_first_server(configured: Option<(u32, u16)>, discovered: Option<u32>)
    -> Option<Server> {
    match configured {
        Some(address) => Some(Server { ip: address.0, port: address.1, sync_group_id: None }),
        None => match discovered {
            Some(ip) => Some(Server { ip, port: SLIM_PORT, sync_group_id: None }),
            None => None,
        },
    }
}

/// What the session passes on of a batch of frames, and the server that is
/// current afterwards. Frames are passed on as they are, up to the first
/// redirect. The redirect makes the server that it names, on the standard
/// port and with the sync group that it carries, the current one; it is
/// passed on without the sync group, and the rest of the batch is dropped.
pub open spec fn spec_receive(server: Server, frames: Seq<ServerMessage>) -> (
    Server,
    Seq<Option<ServerMessage>>,
    Then,
)
    decreases frames.len(),
{
    if frames.len() == 0 {
        (server, Seq::<Option<ServerMessage>>::empty(), Then::Continue)
    } else {
        match frames[0] {
            ServerMessage::Serv { ip_address, sync_group_id } => (
                Server { ip: ip_address, port: SLIM_PORT, sync_group_id },
                seq![Some(ServerMessage::Serv { ip_address, sync_group_id: None })],
                Then::Reconnect,
            ),
            other => {
                let (next, forward, after) = spec_receive(server, frames.drop_first());
                (next, seq![Some(other)] + forward, after)
            },
        }
    }
}

impl Server {
    /// The server to start with: the configured one, else the one that
    /// discovery found, on the standard port.
    pub fn first(configured: Option<(u32, u16)>, discovered: Option<u32>) -> (server: Option<
        Server,
    >)
        ensures
            server == spec_first_server(configured, discovered),
    {
        match configured {
            Some(address) => Some(Server { ip: address.0, port: address.1, sync_group_id: None }),
            None => match discovered {
                Some(ip) => Some(Server { ip, port: SLIM_PORT, sync_group_id: None }),
                None => None,
            },
        }
    }

    /// The frame that tells the control core which server is current.
    pub fn greeting(&self) -> (msg: ServerMessage)
        ensures
            msg == (ServerMessage::Serv { ip_address: self.ip, sync_group_id: None }),
    {
        ServerMessage::Serv { ip_address: self.ip, sync_group_id: None }
    }

    /// Take a batch of frames that was read from the server.
    pub fn receive(&mut self, frames: Vec<ServerMessage>) -> (out: Received)
        ensures
            (*final(self), out.forward@, out.after) == spec_receive(*old(self), frames@),
    {
        let mut forward: Vec<Option<ServerMessage>> = Vec::new();
        let mut after = Then::Continue;
        let mut rest = frames;
        while rest.len() > 0
            invariant_except_break
                after == Then::Continue,
                *self == *old(self),
                spec_receive(*old(self), frames@) == ({
                    let (next, tail, end) = spec_receive(*old(self), rest@);
                    (next, forward@ + tail, end)
                }),
            ensures
                (*self, forward@, after) == spec_receive(*old(self), frames@),
            decreases rest.len(),
        {
            let ghost before = rest@;
            let ghost sent = forward@;
            let msg = rest.remove(0);
            assert(rest@ =~= before.drop_first());
            match msg {
                ServerMessage::Serv { ip_address, sync_group_id } => {
                    self.ip = ip_address;
                    self.port = SLIM_PORT;
                    self.sync_group_id = sync_group_id;
                    forward.push(Some(ServerMessage::Serv { ip_address, sync_group_id: None }));
                    after = Then::Reconnect;
                    break ;
                },
                other => {
                    forward.push(Some(other));
                    assert(forward@ + spec_receive(*old(self), rest@).1 =~= sent + (seq![
                        Some(other),
                    ] + spec_receive(*old(self), rest@).1));
                },
            }
        }
        Received { forward, after }
    }

    /// A read from the server failed: the control core is told that the
    /// server is lost, and the session ends.
    pub fn read_failed(&self) -> (out: Received)
        ensures
            out.forward@ == seq![None::<ServerMessage>],
            out.after == Then::Exit,
    {
        let mut forward: Vec<Option<ServerMessage>> = Vec::new();
        forward.push(None);
        Received { forward, after: Then::Exit }
    }
}

/// Whether the frame is the goodbye that ends the writer: `Bye(1)`.
pub open spec fn spec_is_farewell(msg: ClientMessage) -> bool {
    msg matches ClientMessage::Bye(n) && n == 1
}

/// Whether the writer stops at this frame instead of sending it.
pub fn is_farewell(msg: &ClientMessage) -> (stop: bool)
    ensures
        stop == spec_is_farewell(*msg),
{
    match msg {
        ClientMessage::Bye(n) => *n == 1,
        _ => false,
    }
}

/// The number that the decimal digits of `s` write.
pub open spec fn spec_decimal(s: Seq<u8>) -> nat
    decreases s.len(),
{
    if s.len() == 0 {
        0
    } else {
        spec_decimal(s.drop_last()) * 10 + (s.last() - 48) as nat
    }
}

/// Whether every byte of `s` is a decimal digit.
pub open spec fn all_digits(s: Seq<u8>) -> bool {
    forall|i: int| 0 <= i < s.len() ==> 48 <= #[trigger] s[i] <= 57
}

/// Where the last colon of `s` stands.
pub open spec fn spec_last_colon(s: Seq<u8>) -> Option<int>
    decreases s.len(),
{
    if s.len() == 0 {
        None
    } else if s.last() == 58 {
        Some(s.len() - 1)
    } else {
        spec_last_colon(s.drop_last())
    }
}

/// The port that the text behind the last colon names: its number if it is
/// made of digits and fits a port, the standard port otherwise.
pub open spec fn spec_port(digits: Seq<u8>) -> u16 {
    if digits.len() > 0 && spec_decimal(digits) <= u16::MAX {
        spec_decimal(digits) as u16
    } else {
        SLIM_PORT
    }
}

/// How a server given as `host[:port]` splits: the length of the host and
/// the port. Text behind the last colon that is made of digits is the
/// port; where there is no colon, or something else behind it, all of the
/// text is the host and the port is the standard one.
pub open spec fn spec_split_host_port(value: Seq<u8>) -> (int, u16) {
    match spec_last_colon(value) {
        Some(colon) => {
            let digits = value.skip(colon + 1);
            if all_digits(digits) {
                (colon, spec_port(digits))
            } else {
                (value.len() as int, SLIM_PORT)
            }
        },
        None => (value.len() as int, SLIM_PORT),
    }
}

proof fn lemma_decimal_grows(s: Seq<u8>)
    requires
        s.len() > 0,
        all_digits(s),
    ensures
        spec_decimal(s) >= spec_decimal(s.drop_last()),
        spec_decimal(s) == spec_decimal(s.drop_last()) * 10 + (s.last() - 48),
{
}

/// Split a server given as `host[:port]` into the length of the host and
/// the port.
pub fn split_host_port(value: &[u8]) -> (split: (usize, u16))
    ensures
        (split.0 as int, split.1) == spec_split_host_port(value@),
        split.0 <= value.len(),
{
    let len = value.len();
    let mut at: usize = len;
    let mut colon: Option<usize> = None;
    assert(value@.take(len as int) =~= value@);
    while at > 0
        invariant_except_break
            colon is None,
            spec_last_colon(value@) == spec_last_colon(value@.take(at as int)),
        invariant
            at <= len,
            len == value.len(),
        ensures
            at <= len,
            colon matches Some(c) ==> c < len && spec_last_colon(value@) == Some(c as int),
            colon is None ==> spec_last_colon(value@) is None,
        decreases at,
    {
        proof {
            let shorter = value@.take(at as int);
            assert(shorter.drop_last() =~= value@.take(at - 1));
            assert(shorter.last() == value@[at - 1]);
        }
        if value[at - 1] == 58 {
            colon = Some(at - 1);
            break ;
        }
        at = at - 1;
    }
    if at == 0 && colon.is_none() {
        assert(value@.take(0).len() == 0);
    }
    match colon {
        None => (len, SLIM_PORT),
        Some(c) => {
            let ghost digits = value@.skip(c + 1);
            let mut i: usize = c + 1;
            // The number read so far, held at 65536 once it is beyond a port.
            let mut port: u32 = 0;
            assert(digits.take(0).len() == 0);
            while i < len
                invariant
                    c + 1 <= i <= len,
                    len == value.len(),
                    digits == value@.skip(c + 1),
                    spec_last_colon(value@) == Some(c as int),
                    all_digits(digits.take(i - (c + 1))),
                    port <= 65536,
                    port == 65536 ==> spec_decimal(digits.take(i - (c + 1))) > u16::MAX,
                    port < 65536 ==> spec_decimal(digits.take(i - (c + 1))) == port,
                decreases len - i,
            {
                let b = value[i];
                proof {
                    let longer = digits.take(i + 1 - (c + 1));
                    assert(longer.drop_last() =~= digits.take(i - (c + 1)));
                    assert(longer.last() == b);
                }
                if b < 48 || b > 57 {
                    proof {
                        assert(digits[i - (c + 1)] == b);
                        assert(!all_digits(digits));
                    }
                    return (len, SLIM_PORT);
                }
                proof {
                    let longer = digits.take(i + 1 - (c + 1));
                    assert forall|k: int| 0 <= k < longer.len() implies 48 <= #[trigger] longer[k]
                        <= 57 by {
                        if k < longer.len() - 1 {
                            assert(longer[k] == digits.take(i - (c + 1))[k]);
                        }
                    }
                    lemma_decimal_grows(longer);
                }
                if port < 65536 {
                    let grown: u32 = port * 10 + (b - 48) as u32;
                    port = if grown > 65535 {
                        65536
                    } else {
                        grown
                    };
                }
                i = i + 1;
            }
            proof {
                assert(digits.take(len - (c + 1)) =~= digits);
            }
            if len > c + 1 && port < 65536 {
                (c, port as u16)
            } else {
                (c, SLIM_PORT)
            }
        },
    }
}

} // verus!
