//! The orderly end of a session.
//!
//! Whatever ends a session (idle eviction, a failure of the hosted
//! application, or the peer closing the channel), the peer's terminal is
//! first reset and the channel is then closed.

use vstd::prelude::*;

verus! {

/// One operation on a session's transport channel.
#[derive(Debug, PartialEq, Eq)]
pub enum Action {
    /// Send these bytes to the peer.
    Send(Vec<u8>),
    /// Ask the transport to close the channel.
    Close,
}

/// The terminal reset sequence: clear attributes (`ESC [ 0 m`), clear the
/// screen (`ESC [ 2 J`), move the cursor home (`ESC [ H`), reset the scroll
/// region (`ESC [ r`), and show the cursor (`ESC [ ? 2 5 h`).
pub open spec fn reset_bytes() -> Seq<u8> {
    seq![
        0x1bu8, 0x5bu8, 0x30u8, 0x6du8,
        0x1bu8, 0x5bu8, 0x32u8, 0x4au8,
        0x1bu8, 0x5bu8, 0x48u8,
        0x1bu8, 0x5bu8, 0x72u8,
        0x1bu8, 0x5bu8, 0x3fu8, 0x32u8, 0x35u8, 0x68u8,
    ]
}

/// Whether `actions` is the teardown of a session: the reset sequence is
/// sent, then the channel is closed, and nothing else.
pub open spec fn is_teardown(actions: Seq<Action>) -> bool {
    &&& actions.len() == 2
    &&& actions[0] matches Action::Send(bytes) && bytes@ == reset_bytes()
    &&& actions[1] is Close
}

/// The bytes of the terminal reset sequence.
pub fn reset_sequence() -> (bytes: Vec<u8>)
    ensures
        bytes@ == reset_bytes(),
{
    let bytes: Vec<u8> = vec![
        0x1bu8, 0x5bu8, 0x30u8, 0x6du8,
        0x1bu8, 0x5bu8, 0x32u8, 0x4au8,
        0x1bu8, 0x5bu8, 0x48u8,
        0x1bu8, 0x5bu8, 0x72u8,
        0x1bu8, 0x5bu8, 0x3fu8, 0x32u8, 0x35u8, 0x68u8,
    ];
    bytes
}

/// What to do on the channel of a session that ends.
pub fn teardown() -> (actions: Vec<Action>)
    ensures
        is_teardown(actions@),
{
    let mut actions: Vec<Action> = Vec::new();
    actions.push(Action::Send(reset_sequence()));
    actions.push(Action::Close);
    actions
}

} // verus!
