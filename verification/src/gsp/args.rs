//! Per-signal argument schema validation.
//!
//! * `JOIN`, `LEAVE`: arguments may be empty; no required keys.
//! * `ROLE_CHANGE`: a CBOR map with keys 0 (target member id) and 1 (new
//!   role).
//! * `MUTE`, `UNMUTE`: a CBOR map with key 0 (target member id).
//! * `STREAM_START`, `STREAM_STOP`: a CBOR map with key 0 (stream type).
//! * `CODEC_UPDATE`: a CBOR map with key 0 (codec id).
//!
//! Every required key must map to an unsigned integer.

use vstd::prelude::*;
use crate::vocab::signal::SignalType;

verus! {

/// What the schema checks read of CBOR-encoded arguments, as decoded by
/// `ciborium`: `None` unless the bytes decode to a CBOR map; otherwise,
/// in map order, each entry's key and value as an unsigned 64-bit integer
/// where it is one (`None` where it is not).
pub uninterp spec fn cbor_uint_entries(args: Seq<u8>) -> Option<Seq<(Option<u64>, Option<u64>)>>;

/// Decodes `args` with `ciborium::from_reader` into a `ciborium::Value`,
/// takes it apart with `Value::into_map`, and reads each key and value
/// with `Value::as_integer` and `u64::try_from`. The result is a function
/// of the bytes alone; what that function is, is not stated here.
#[verifier::external_body]
fn decode_uint_entries(args: &[u8]) -> (r: Option<Vec<(Option<u64>, Option<u64>)>>)
    ensures
        match r {
            Some(v) => cbor_uint_entries(args@) == Some(v@),
            None => cbor_uint_entries(args@) is None,
        },
{
    let value: ciborium::Value = ciborium::from_reader(args).ok()?;
    let pairs = value.into_map().ok()?;
    Some(
        pairs.iter().map(
            |(k, v)|
                (
                    k.as_integer().and_then(|i| u64::try_from(i).ok()),
                    v.as_integer().and_then(|i| u64::try_from(i).ok()),
                ),
        ).collect(),
    )
}

/// Every key of the map is an unsigned integer.
pub open spec fn all_keys_uint(entries: Seq<(Option<u64>, Option<u64>)>) -> bool {
    forall|i: int| 0 <= i < entries.len() ==> (#[trigger] entries[i]).0 is Some
}

/// The first entry with key `k` maps to an unsigned integer.
pub open spec fn has_uint_key(entries: Seq<(Option<u64>, Option<u64>)>, k: u64) -> bool {
    exists|i: int|
        0 <= i < entries.len() && (#[trigger] entries[i]).0 == Some(k) && entries[i].1 is Some
            && forall|j: int| 0 <= j < i ==> (#[trigger] entries[j]).0 != Some(k)
}

/// The schema error message: the map is missing.
pub open spec fn not_a_map_message(signal: SignalType) -> Seq<char> {
    match signal {
        SignalType::RoleChange => "ROLE_CHANGE: args must be a CBOR map"@,
        SignalType::Mute | SignalType::Unmute => "MUTE/UNMUTE: args must be a CBOR map"@,
        SignalType::StreamStart | SignalType::StreamStop => "STREAM_START/STOP: args must be a CBOR map"@,
        _ => "CODEC_UPDATE: args must be a CBOR map"@,
    }
}

/// The schema error message: key 0 is missing.
pub open spec fn missing_key0_message(signal: SignalType) -> Seq<char> {
    match signal {
        SignalType::RoleChange => "ROLE_CHANGE: missing key 0 (target_member_id)"@,
        SignalType::Mute | SignalType::Unmute => "MUTE/UNMUTE: missing key 0 (target_member_id)"@,
        SignalType::StreamStart | SignalType::StreamStop => "STREAM_START/STOP: missing key 0 (stream_type)"@,
        _ => "CODEC_UPDATE: missing key 0 (codec_id)"@,
    }
}

/// The schema error message: key 1 of `ROLE_CHANGE` is missing.
pub open spec fn missing_key1_message() -> Seq<char> {
    "ROLE_CHANGE: missing key 1 (new_role)"@
}

/// The schema verdict on decoded arguments: `None` when they conform,
/// else the first violation's message.
pub open spec fn schema_verdict(signal: SignalType, entries: Option<Seq<(Option<u64>, Option<u64>)>>) -> Option<
    Seq<char>,
> {
    match signal {
        SignalType::Join | SignalType::Leave => None,
        _ => match entries {
            None => Some(not_a_map_message(signal)),
            Some(es) => if !all_keys_uint(es) {
                Some(not_a_map_message(signal))
            } else if !has_uint_key(es, 0) {
                Some(missing_key0_message(signal))
            } else if signal == SignalType::RoleChange && !has_uint_key(es, 1) {
                Some(missing_key1_message())
            } else {
                None
            },
        },
    }
}

/// What [`validate_args`] decides for `args`: membership signals need no
/// arguments; empty arguments are no map; other bytes go through the
/// decoder.
pub open spec fn args_verdict(signal: SignalType, args: Seq<u8>) -> Option<Seq<char>> {
    match signal {
        SignalType::Join | SignalType::Leave => None,
        _ => schema_verdict(signal, if args.len() == 0 { None } else { cbor_uint_entries(args) }),
    }
}

fn not_a_map(signal: SignalType) -> (r: &'static str)
    ensures
        r@ == not_a_map_message(signal),
{
    match signal {
        SignalType::RoleChange => "ROLE_CHANGE: args must be a CBOR map",
        SignalType::Mute | SignalType::Unmute => "MUTE/UNMUTE: args must be a CBOR map",
        SignalType::StreamStart | SignalType::StreamStop => "STREAM_START/STOP: args must be a CBOR map",
        _ => "CODEC_UPDATE: args must be a CBOR map",
    }
}

fn missing_key0(signal: SignalType) -> (r: &'static str)
    ensures
        r@ == missing_key0_message(signal),
{
    match signal {
        SignalType::RoleChange => "ROLE_CHANGE: missing key 0 (target_member_id)",
        SignalType::Mute | SignalType::Unmute => "MUTE/UNMUTE: missing key 0 (target_member_id)",
        SignalType::StreamStart | SignalType::StreamStop => "STREAM_START/STOP: missing key 0 (stream_type)",
        _ => "CODEC_UPDATE: missing key 0 (codec_id)",
    }
}

/// The unsigned-integer value of the first entry with key `k`, if that
/// value is one.
pub fn require_uint_key(entries: &[(Option<u64>, Option<u64>)], k: u64) -> (r: Option<u64>)
    ensures
        r is Some <==> has_uint_key(entries@, k),
{
    let mut i: usize = 0;
    while i < entries.len()
        invariant
            0 <= i <= entries@.len(),
            forall|j: int| 0 <= j < i ==> (#[trigger] entries@[j]).0 != Some(k),
        decreases entries@.len() - i,
    {
        let (key, value) = entries[i];
        let hit = match key {
            Some(x) => x == k,
            None => false,
        };
        if hit {
            proof {
                if value is None && has_uint_key(entries@, k) {
                    let w = choose|w: int|
                        0 <= w < entries@.len() && (#[trigger] entries@[w]).0 == Some(k)
                            && entries@[w].1 is Some && forall|j: int|
                            0 <= j < w ==> (#[trigger] entries@[j]).0 != Some(k);
                    if w > i {
                        assert(entries@[i as int].0 == Some(k));
                    }
                }
            }
            return value;
        }
        i = i + 1;
    }
    None
}

fn keys_all_uint(entries: &[(Option<u64>, Option<u64>)]) -> (r: bool)
    ensures
        r == all_keys_uint(entries@),
{
    let mut i: usize = 0;
    while i < entries.len()
        invariant
            0 <= i <= entries@.len(),
            forall|j: int| 0 <= j < i ==> (#[trigger] entries@[j]).0 is Some,
        decreases entries@.len() - i,
    {
        if entries[i].0.is_none() {
            return false;
        }
        i = i + 1;
    }
    true
}

/// The schema check on decoded arguments (`None`: the bytes were no CBOR
/// map): `Ok` when they conform, else the first violation's message.
pub fn validate_decoded(signal: SignalType, entries: Option<Vec<(Option<u64>, Option<u64>)>>) -> (r:
    Result<(), &'static str>)
    ensures
        match schema_verdict(signal, match entries { Some(v) => Some(v@), None => None }) {
            None => r is Ok,
            Some(m) => r matches Err(s) && s@ == m,
        },
{
    match signal {
        SignalType::Join | SignalType::Leave => Ok(()),
        _ => {
            let es = match entries {
                Some(es) => es,
                None => {
                    return Err(not_a_map(signal));
                },
            };
            if !keys_all_uint(es.as_slice()) {
                return Err(not_a_map(signal));
            }
            if require_uint_key(es.as_slice(), 0).is_none() {
                return Err(missing_key0(signal));
            }
            let is_role = match signal {
                SignalType::RoleChange => true,
                _ => false,
            };
            if is_role && require_uint_key(es.as_slice(), 1).is_none() {
                return Err("ROLE_CHANGE: missing key 1 (new_role)");
            }
            Ok(())
        },
    }
}

/// Validates the `args` bytes of a signal against its schema: `Ok` when
/// they conform, else a message naming the first violation (used for
/// `ERR_GSP_BAD_SCHEMA`).
pub fn validate_args(signal: SignalType, args: &[u8]) -> (r: Result<(), &'static str>)
    ensures
        match args_verdict(signal, args@) {
            None => r is Ok,
            Some(m) => r matches Err(s) && s@ == m,
        },
{
    match signal {
        SignalType::Join | SignalType::Leave => Ok(()),
        _ => {
            if args.len() == 0 {
                return validate_decoded(signal, None);
            }
            validate_decoded(signal, decode_uint_entries(args))
        },
    }
}

/// Every signal that carries arguments (all but `JOIN` and `LEAVE`) needs
/// an unsigned-integer key 0: a map whose keys are all unsigned integers
/// but none of them 0 is refused with that signal's missing-key-0 message.
pub proof fn lemma_key0_is_required(signal: SignalType, es: Seq<(Option<u64>, Option<u64>)>)
    requires
        signal != SignalType::Join,
        signal != SignalType::Leave,
        forall|i: int| 0 <= i < es.len() ==> (#[trigger] es[i]).0 is Some,
        forall|i: int| 0 <= i < es.len() ==> (#[trigger] es[i]).0 != Some(0u64),
    ensures
        schema_verdict(signal, Some(es)) == Some(missing_key0_message(signal)),
        schema_verdict(signal, Some(es)) is Some,
{
}

/// The rest of the argument schemas: `JOIN` and `LEAVE` take any
/// arguments; any other signal refuses arguments that are no map of
/// unsigned-integer keys; `ROLE_CHANGE` also needs key 1; and a map whose
/// first entries are key 0 (and, for `ROLE_CHANGE`, key 1) with unsigned
/// values conforms.
pub proof fn lemma_argument_schemas(signal: SignalType, es: Seq<(Option<u64>, Option<u64>)>, v0: u64, v1: u64)
    ensures
        (signal == SignalType::Join || signal == SignalType::Leave) ==> schema_verdict(signal, Some(es)) is None
            && schema_verdict(signal, None) is None,
        (signal != SignalType::Join && signal != SignalType::Leave) ==> schema_verdict(signal, None) == Some(
            not_a_map_message(signal),
        ),
        (signal != SignalType::Join && signal != SignalType::Leave && es.len() > 0 && es[0].0 is None)
            ==> schema_verdict(signal, Some(es)) == Some(not_a_map_message(signal)),
        (signal != SignalType::RoleChange && signal != SignalType::Join && signal != SignalType::Leave)
            ==> schema_verdict(signal, Some(seq![(Some(0u64), Some(v0))])) is None,
        schema_verdict(SignalType::RoleChange, Some(seq![(Some(0u64), Some(v0))])) == Some(missing_key1_message()),
        schema_verdict(SignalType::RoleChange, Some(seq![(Some(0u64), Some(v0)), (Some(1u64), Some(v1))])) is None,
{
    let one = seq![(Some(0u64), Some(v0))];
    let two = seq![(Some(0u64), Some(v0)), (Some(1u64), Some(v1))];
    assert(one[0].0 == Some(0u64));
    assert(has_uint_key(one, 0));
    assert(two[0].0 == Some(0u64));
    assert(has_uint_key(two, 0));
    assert(two[1].0 == Some(1u64));
    assert(has_uint_key(two, 1));
    if has_uint_key(one, 1) {
        let i = choose|i: int|
            0 <= i < one.len() && (#[trigger] one[i]).0 == Some(1u64) && one[i].1 is Some && forall|j: int|
                0 <= j < i ==> (#[trigger] one[j]).0 != Some(1u64);
        assert(i == 0);
    }
    if es.len() > 0 && es[0].0 is None {
        assert(!all_keys_uint(es));
    }
}

} // verus!
