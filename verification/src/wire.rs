//! Wire encoding of the outbound state messages.
//!
//! Snapshots and parameters travel to the observer as protocol-buffer
//! payloads inside a tagged envelope: a type identifier string next to the
//! encoded bytes. The payloads are tiny proto3 messages — the snapshot is
//! three boolean fields (`switch` = 1, `on` = 2, `direction` = 3), the
//! parameters one unsigned 64-bit field (`timeout` = 1) — so their encoding
//! is stated here byte for byte and the encoders are proved against it. A
//! boolean field is emitted as its one-byte key followed by `1` exactly when
//! it is true; a field holding its default value is omitted, as proto3
//! prescribes.

use vstd::prelude::*;

use crate::state::{Params, StateSnapshot};

verus! {

/// The base-128 varint encoding of `x`: little-endian groups of seven bits,
/// each byte carrying a continuation bit except the last.
pub open spec fn varint_spec(x: nat) -> Seq<u8>
    decreases x,
{
    if x < 0x80 {
        seq![x as u8]
    } else {
        seq![(0x80 + x % 0x80) as u8] + varint_spec(x / 0x80)
    }
}

/// The encoded bytes of a snapshot: one key/value byte pair per true field,
/// in field order; false fields are omitted.
pub open spec fn snapshot_wire_spec(s: StateSnapshot) -> Seq<u8> {
    (if s.switch {
        seq![0x08u8, 0x01u8]
    } else {
        Seq::<u8>::empty()
    }) + (if s.on {
        seq![0x10u8, 0x01u8]
    } else {
        Seq::<u8>::empty()
    }) + (if s.direction {
        seq![0x18u8, 0x01u8]
    } else {
        Seq::<u8>::empty()
    })
}

/// The encoded bytes of the parameters: the timeout field's key followed by
/// the timeout as a varint, or nothing when the timeout is zero.
pub open spec fn params_wire_spec(p: Params) -> Seq<u8> {
    if p.timeout == 0 {
        Seq::<u8>::empty()
    } else {
        seq![0x08u8] + varint_spec(p.timeout as nat)
    }
}

/// The type identifier carried beside an encoded snapshot.
pub open spec fn state_type_url_spec() -> Seq<char> {
    "melizalab.org/proto/stepper_motor_state"@
}

/// The type identifier carried beside encoded parameters.
pub open spec fn params_type_url_spec() -> Seq<char> {
    "melizalab.org/proto/stepper_motor_params"@
}

/// Append the varint encoding of `value` to `out`.
pub fn push_varint(out: &mut Vec<u8>, value: u64)
    ensures
        final(out)@ == old(out)@ + varint_spec(value as nat),
{
    let mut x: u64 = value;
    while x >= 0x80
        invariant
            out@ + varint_spec(x as nat) == old(out)@ + varint_spec(value as nat),
        decreases x,
    {
        let byte: u8 = (0x80 + x % 0x80) as u8;
        proof {
            assert(varint_spec(x as nat) == seq![byte] + varint_spec((x / 0x80) as nat));
        }
        out.push(byte);
        x = x / 0x80;
    }
    out.push(x as u8);
}

/// Encode a snapshot as its protocol-buffer payload.
pub fn encode_snapshot(s: &StateSnapshot) -> (r: Vec<u8>)
    ensures
        r@ == snapshot_wire_spec(*s),
{
    let mut out: Vec<u8> = Vec::new();
    if s.switch {
        out.push(0x08);
        out.push(0x01);
    }
    if s.on {
        out.push(0x10);
        out.push(0x01);
    }
    if s.direction {
        out.push(0x18);
        out.push(0x01);
    }
    proof {
        assert(out@ =~= snapshot_wire_spec(*s));
    }
    out
}

/// Encode the parameters as their protocol-buffer payload.
pub fn encode_params(p: &Params) -> (r: Vec<u8>)
    ensures
        r@ == params_wire_spec(*p),
{
    let mut out: Vec<u8> = Vec::new();
    if p.timeout != 0 {
        out.push(0x08);
        push_varint(&mut out, p.timeout);
        proof {
            assert(out@ =~= params_wire_spec(*p));
        }
    }
    out
}

/// The tagged state message for snapshot `s`: the snapshot's type identifier
/// and its encoded payload, ready for the observer's envelope.
pub fn state_message(s: &StateSnapshot) -> (m: (&'static str, Vec<u8>))
    ensures
        m.0@ == state_type_url_spec(),
        m.1@ == snapshot_wire_spec(*s),
{
    ("melizalab.org/proto/stepper_motor_state", encode_snapshot(s))
}

/// The tagged parameter message for `p`: the parameters' type identifier and
/// their encoded payload.
pub fn params_message(p: &Params) -> (m: (&'static str, Vec<u8>))
    ensures
        m.0@ == params_type_url_spec(),
        m.1@ == params_wire_spec(*p),
{
    ("melizalab.org/proto/stepper_motor_params", encode_params(p))
}

} // verus!
