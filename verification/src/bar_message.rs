//! Messages sent to status-bar clients over a unix socket.
//!
//! A message on the wire is eight bytes that hold the size of the rest in little
//! endian, a one-byte tag, and the value.
use vstd::prelude::*;
use vstd::string::StringSliceAdditionalSpecFns;

verus! {

pub const MESSAGE_KEYBOARD_LAYOUT_TAG: u8 = 0;

pub const MESSAGE_WORKSPACE_LIST_TAG: u8 = 1;

pub const MESSAGE_WORKSPACE_ACTIVE_TAG: u8 = 2;

pub const MESSAGE_REQUEST_CLIENT_INIT_TAG: u8 = 3;

#[derive(Debug, PartialEq, Eq, Clone)]
pub enum Message<'a> {
    KeyboardLayout(&'a str),
    WorkspaceList(Vec<u32>),
    WorkspaceActive(u32),
    RequestClientInit,
}

/// The `n` low bytes of `v`, least significant first.
pub open spec fn le_bytes(v: nat, n: nat) -> Seq<u8>
    decreases n,
{
    if n == 0 {
        seq![]
    } else {
        seq![(v % 256) as u8] + le_bytes(v / 256, (n - 1) as nat)
    }
}

/// Each value as four little-endian bytes, one after the other.
pub open spec fn u32s_le_bytes(values: Seq<u32>) -> Seq<u8>
    decreases values.len(),
{
    if values.len() == 0 {
        seq![]
    } else {
        u32s_le_bytes(values.drop_last()) + le_bytes(values.last() as nat, 4)
    }
}

/// The tag and the value of a message: what follows the size on the wire.
pub open spec fn payload(m: Message) -> Seq<u8> {
    match m {
        Message::KeyboardLayout(name) => seq![MESSAGE_KEYBOARD_LAYOUT_TAG] + name.spec_bytes(),
        Message::WorkspaceList(workspaces) => seq![MESSAGE_WORKSPACE_LIST_TAG] + le_bytes(
            workspaces@.len(),
            8,
        ) + u32s_le_bytes(workspaces@),
        Message::WorkspaceActive(id) => seq![MESSAGE_WORKSPACE_ACTIVE_TAG] + le_bytes(id as nat, 4),
        Message::RequestClientInit => seq![MESSAGE_REQUEST_CLIENT_INIT_TAG],
    }
}

/// A message as it goes on the wire.
pub open spec fn encoded(m: Message) -> Seq<u8> {
    le_bytes(payload(m).len(), 8) + payload(m)
}

/// What `from_bytes` reads from the bytes that follow the size.
pub open spec fn decoded<'a>(bytes: Seq<u8>) -> Option<Message<'a>> {
    if bytes.len() > 0 && bytes[0] == MESSAGE_REQUEST_CLIENT_INIT_TAG {
        Some(Message::RequestClientInit)
    } else {
        None
    }
}

/// Appends the `n` low bytes of `v`, least significant first.
fn push_le_bytes(bytes: &mut Vec<u8>, v: u64, n: usize)
    requires
        n <= 8,
    ensures
        final(bytes)@ == old(bytes)@ + le_bytes(v as nat, n as nat),
{
    let mut rest = v;
    let mut i: usize = 0;
    while i < n
        invariant
            0 <= i <= n,
            bytes@ + le_bytes(rest as nat, (n - i) as nat) == old(bytes)@ + le_bytes(
                v as nat,
                n as nat,
            ),
        decreases n - i,
    {
        let ghost before = bytes@;
        bytes.push((rest % 256) as u8);
        assert(le_bytes(rest as nat, (n - i) as nat) == seq![(rest % 256) as u8] + le_bytes(
            (rest / 256) as nat,
            (n - i - 1) as nat,
        ));
        assert(bytes@ + le_bytes((rest / 256) as nat, (n - i - 1) as nat) =~= before + le_bytes(
            rest as nat,
            (n - i) as nat,
        ));
        rest = rest / 256;
        i = i + 1;
    }
    assert(bytes@ + le_bytes(rest as nat, 0) =~= bytes@);
}

impl<'a> Message<'a> {
    /// The message as it goes on the wire: the size of the rest as eight
    /// little-endian bytes, the tag, and the value.
    pub fn as_bytes(&self) -> (res: Vec<u8>)
        ensures
            res@ == encoded(*self),
    {
        let mut body: Vec<u8> = Vec::new();
        match self {
            Message::KeyboardLayout(name) => {
                body.push(MESSAGE_KEYBOARD_LAYOUT_TAG);
                let name_bytes = name.as_bytes();
                let mut i: usize = 0;
                while i < name_bytes.len()
                    invariant
                        0 <= i <= name_bytes@.len(),
                        body@ == seq![MESSAGE_KEYBOARD_LAYOUT_TAG] + name_bytes@.take(i as int),
                    decreases name_bytes@.len() - i,
                {
                    body.push(name_bytes[i]);
                    i = i + 1;
                    assert(body@ =~= seq![MESSAGE_KEYBOARD_LAYOUT_TAG] + name_bytes@.take(i as int));
                }
                assert(name_bytes@.take(i as int) =~= name_bytes@);
            },
            Message::WorkspaceList(workspaces) => {
                body.push(MESSAGE_WORKSPACE_LIST_TAG);
                push_le_bytes(&mut body, workspaces.len() as u64, 8);
                let ghost start = body@;
                let mut i: usize = 0;
                while i < workspaces.len()
                    invariant
                        0 <= i <= workspaces@.len(),
                        body@ == start + u32s_le_bytes(workspaces@.take(i as int)),
                    decreases workspaces@.len() - i,
                {
                    push_le_bytes(&mut body, workspaces[i] as u64, 4);
                    assert(workspaces@.take(i + 1).drop_last() =~= workspaces@.take(i as int));
                    i = i + 1;
                    assert(body@ =~= start + u32s_le_bytes(workspaces@.take(i as int)));
                }
                assert(workspaces@.take(i as int) =~= workspaces@);
            },
            Message::WorkspaceActive(id) => {
                body.push(MESSAGE_WORKSPACE_ACTIVE_TAG);
                push_le_bytes(&mut body, *id as u64, 4);
            },
            Message::RequestClientInit => {
                body.push(MESSAGE_REQUEST_CLIENT_INIT_TAG);
            },
        }
        assert(body@ =~= payload(*self));
        let mut bytes: Vec<u8> = Vec::new();
        push_le_bytes(&mut bytes, body.len() as u64, 8);
        let ghost header = bytes@;
        let mut i: usize = 0;
        while i < body.len()
            invariant
                0 <= i <= body@.len(),
                bytes@ == header + body@.take(i as int),
            decreases body@.len() - i,
        {
            bytes.push(body[i]);
            i = i + 1;
            assert(bytes@ =~= header + body@.take(i as int));
        }
        assert(body@.take(i as int) =~= body@);
        bytes
    }

    /// Reads a message from the bytes that follow the size; only a request for
    /// client initialisation is understood.
    pub fn from_bytes(bytes: &[u8]) -> (res: Option<Self>)
        ensures
            res == decoded::<'a>(bytes@),
    {
        if bytes.len() == 0 {
            return None;
        }
        let msg_type_tag = bytes[0];
        if msg_type_tag == MESSAGE_REQUEST_CLIENT_INIT_TAG {
            Some(Message::RequestClientInit)
        } else {
            None
        }
    }
}

/// A request for client initialisation read back from what `as_bytes` wrote
/// for it, past the size, is the same request; every other message reads back
/// as nothing.
pub proof fn lemma_message_round_trip(m: Message)
    ensures
        encoded(m).len() >= 9,
        decoded(encoded(m).skip(8)) == (if m is RequestClientInit {
            Some(Message::RequestClientInit)
        } else {
            None
        }),
{
    lemma_le_bytes_len(payload(m).len(), 8);
    assert(encoded(m).skip(8) =~= payload(m));
}

pub proof fn lemma_le_bytes_len(v: nat, n: nat)
    ensures
        le_bytes(v, n).len() == n,
    decreases n,
{
    if n > 0 {
        lemma_le_bytes_len(v / 256, (n - 1) as nat);
    }
}

/// The value of little-endian bytes, least significant first.
pub open spec fn le_value(bytes: Seq<u8>) -> nat
    decreases bytes.len(),
{
    if bytes.len() == 0 {
        0
    } else {
        bytes[0] as nat + 256 * le_value(bytes.drop_first())
    }
}

/// The size a message header holds: its eight bytes read in little endian;
/// `None` for a header of another length.
pub fn payload_size(header: &[u8]) -> (res: Option<u64>)
    ensures
        header@.len() == 8 ==> res == Some(le_value(header@) as u64) && le_value(header@) <= u64::MAX,
        header@.len() != 8 ==> res is None,
{
    if header.len() != 8 {
        return None;
    }
    let mut v: u64 = 0;
    let mut i: usize = 8;
    while i > 0
        invariant
            header@.len() == 8,
            0 <= i <= 8,
            v == le_value(header@.skip(i as int)),
            le_value(header@.skip(i as int)) < pow256((8 - i) as nat),
        decreases i,
    {
        i = i - 1;
        proof {
            assert(header@.skip(i as int).drop_first() =~= header@.skip(i + 1));
            lemma_pow256_step((8 - i - 1) as nat);
        }
        assert(v * 256 + header[i as int] < pow256((8 - i) as nat)) by (nonlinear_arith)
            requires
                v < pow256((8 - i - 1) as nat),
                pow256((8 - i) as nat) == 256 * pow256((8 - i - 1) as nat),
                header[i as int] < 256,
        ;
        assert(pow256((8 - i) as nat) <= pow256(8)) by {
            lemma_pow256_mono((8 - i) as nat, 8);
        }
        assert(pow256(8) == 0x1_0000_0000_0000_0000) by {
            reveal_with_fuel(pow256, 9);
        }
        v = v * 256 + header[i] as u64;
    }
    assert(header@.skip(0) =~= header@);
    Some(v)
}

/// 256 to the power `n`.
pub open spec fn pow256(n: nat) -> nat
    decreases n,
{
    if n == 0 {
        1
    } else {
        256 * pow256((n - 1) as nat)
    }
}

proof fn lemma_pow256_step(n: nat)
    ensures
        pow256(n + 1) == 256 * pow256(n),
{
}

proof fn lemma_pow256_mono(a: nat, b: nat)
    requires
        a <= b,
    ensures
        pow256(a) <= pow256(b),
    decreases b,
{
    if a < b {
        lemma_pow256_mono(a, (b - 1) as nat);
    }
}

/// The size `as_bytes` writes in a message header reads back as that size.
pub proof fn law_size_round_trip(v: nat, n: nat)
    ensures
        le_value(le_bytes(v, n)) == v % pow256(n),
    decreases n,
{
    if n > 0 {
        law_size_round_trip(v / 256, (n - 1) as nat);
        lemma_le_bytes_len(v / 256, (n - 1) as nat);
        let rest = le_bytes(v / 256, (n - 1) as nat);
        assert((seq![(v % 256) as u8] + rest).drop_first() =~= rest);
        let p = pow256((n - 1) as nat);
        assert(p > 0) by {
            lemma_pow256_mono(0, (n - 1) as nat);
        }
        assert((v % 256) + 256 * ((v / 256) % p) == v % (256 * p)) by (nonlinear_arith)
            requires
                p > 0,
        {
            vstd::arithmetic::div_mod::lemma_breakdown(v as int, 256, p as int);
        }
    }
}

} // verus!
