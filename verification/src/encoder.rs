//! The wire encoder: serializes one invocation (arguments, environment,
//! entity body) into the daemon protocol's four framed sections, in the
//! fixed order `arg`, `env`, `entity`, `end`.
//!
//! Every frame is a byte sequence. Counts and lengths are decimal ASCII
//! fields as defined in `numtext`; each length-prefixed item is written as
//! `<length> SP <bytes> NL`.

use vstd::prelude::*;

use crate::numtext::{number_to_text_bytes, spec_decimal};

verus! {

/// One environment entry: a byte-string key and a byte-string value.
/// Neither is required to be valid text.
pub struct EnvEntry {
    pub key: Vec<u8>,
    pub value: Vec<u8>,
}

impl DeepView for EnvEntry {
    type V = (Seq<u8>, Seq<u8>);

    open spec fn deep_view(&self) -> (Seq<u8>, Seq<u8>) {
        (self.key@, self.value@)
    }
}

/// A length-prefixed item: the decimal byte length, one space, the raw
/// bytes, one newline.
pub open spec fn spec_length_item(item: Seq<u8>) -> Seq<u8> {
    spec_decimal(item.len()) + seq![32u8] + item + seq![10u8]
}

/// The concatenation of the length-prefixed items of `items`, in order.
pub open spec fn spec_items(items: Seq<Seq<u8>>) -> Seq<u8>
    decreases items.len(),
{
    if items.len() == 0 {
        Seq::empty()
    } else {
        spec_items(items.drop_last()) + spec_length_item(items.last())
    }
}

/// The concatenated key `=` value bytes of one environment entry.
pub open spec fn spec_env_setting(kv: (Seq<u8>, Seq<u8>)) -> Seq<u8> {
    kv.0 + seq![61u8] + kv.1
}

/// The `arg` frame: the token `arg `, the decimal argument count, a
/// newline, then each argument as a length-prefixed item in original order.
pub open spec fn spec_arg_frame(args: Seq<Seq<u8>>) -> Seq<u8> {
    seq![97u8, 114u8, 103u8, 32u8] + spec_decimal(args.len()) + seq![10u8] + spec_items(args)
}

/// The `env` frame: the token `env `, the decimal entry count, a newline,
/// then each `key=value` concatenation as a length-prefixed item.
pub open spec fn spec_env_frame(entries: Seq<(Seq<u8>, Seq<u8>)>) -> Seq<u8> {
    seq![101u8, 110u8, 118u8, 32u8] + spec_decimal(entries.len()) + seq![10u8] + spec_items(
        entries.map_values(|kv: (Seq<u8>, Seq<u8>)| spec_env_setting(kv)),
    )
}

/// The `entity` frame: the token `entity`, a newline, then the body as a
/// single length-prefixed item (written even when the body is empty).
pub open spec fn spec_entity_frame(body: Seq<u8>) -> Seq<u8> {
    seq![101u8, 110u8, 116u8, 105u8, 116u8, 121u8, 10u8] + spec_length_item(body)
}

/// The `end` frame: the token `end` and a newline, no payload.
pub open spec fn spec_end_frame() -> Seq<u8> {
    seq![101u8, 110u8, 100u8, 10u8]
}

/// The whole wire message for one invocation: the four frames in order.
pub open spec fn spec_message(
    args: Seq<Seq<u8>>,
    entries: Seq<(Seq<u8>, Seq<u8>)>,
    body: Seq<u8>,
) -> Seq<u8> {
    spec_arg_frame(args) + spec_env_frame(entries) + spec_entity_frame(body) + spec_end_frame()
}

/// Appends every byte of `s` to `out`.
pub(crate) fn push_all(out: &mut Vec<u8>, s: &[u8])
    ensures
        final(out)@ == old(out)@ + s@,
{
    let mut i: usize = 0;
    while i < s.len()
        invariant
            0 <= i <= s@.len(),
            out@ == old(out)@ + s@.take(i as int),
        decreases s@.len() - i,
    {
        out.push(s[i]);
        proof {
            assert(old(out)@ + s@.take(i + 1) =~= (old(out)@ + s@.take(i as int)).push(
                s@[i as int],
            ));
        }
        i = i + 1;
    }
    proof {
        assert(s@.take(s@.len() as int) =~= s@);
    }
}

/// Appends the length-prefixed form of `item` to `out`.
fn push_length_item(out: &mut Vec<u8>, item: &[u8])
    ensures
        final(out)@ == old(out)@ + spec_length_item(item@),
{
    let len_text = number_to_text_bytes(item.len());
    push_all(out, len_text.as_slice());
    out.push(32);
    push_all(out, item);
    out.push(10);
    proof {
        assert(out@ =~= old(out)@ + spec_length_item(item@));
    }
}

/// Encodes the `arg` frame for the given argument list.
pub fn encode_arguments(args: &Vec<Vec<u8>>) -> (r: Vec<u8>)
    ensures
        r@ == spec_arg_frame(args.deep_view()),
{
    let mut out: Vec<u8> = Vec::new();
    out.push(97);
    out.push(114);
    out.push(103);
    out.push(32);
    let count_text = number_to_text_bytes(args.len());
    push_all(&mut out, count_text.as_slice());
    out.push(10);
    let ghost header = seq![97u8, 114u8, 103u8, 32u8] + spec_decimal(args@.len()) + seq![10u8];
    proof {
        assert(out@ =~= header + spec_items(args.deep_view().take(0)));
    }
    let mut i: usize = 0;
    while i < args.len()
        invariant
            0 <= i <= args@.len(),
            out@ == header + spec_items(args.deep_view().take(i as int)),
            header == seq![97u8, 114u8, 103u8, 32u8] + spec_decimal(args@.len()) + seq![10u8],
        decreases args@.len() - i,
    {
        push_length_item(&mut out, args[i].as_slice());
        proof {
            let dv = args.deep_view();
            assert(dv.take(i + 1).drop_last() =~= dv.take(i as int));
            assert(dv.take(i + 1).last() == args@[i as int]@);
        }
        i = i + 1;
    }
    proof {
        assert(args.deep_view().take(args@.len() as int) =~= args.deep_view());
        assert(out@ =~= spec_arg_frame(args.deep_view()));
    }
    out
}

/// Encodes the `env` frame for the given environment entries, in the
/// order given (the receiver does not rely on any particular order, but
/// one encoding pass keeps the order it was handed).
pub fn encode_environment(entries: &Vec<EnvEntry>) -> (r: Vec<u8>)
    ensures
        r@ == spec_env_frame(entries.deep_view()),
{
    let mut out: Vec<u8> = Vec::new();
    out.push(101);
    out.push(110);
    out.push(118);
    out.push(32);
    let count_text = number_to_text_bytes(entries.len());
    push_all(&mut out, count_text.as_slice());
    out.push(10);
    let ghost settings = entries.deep_view().map_values(
        |kv: (Seq<u8>, Seq<u8>)| spec_env_setting(kv),
    );
    let ghost header = seq![101u8, 110u8, 118u8, 32u8] + spec_decimal(entries@.len())
        + seq![10u8];
    proof {
        assert(out@ =~= header + spec_items(settings.take(0)));
    }
    let mut i: usize = 0;
    while i < entries.len()
        invariant
            0 <= i <= entries@.len(),
            out@ == header + spec_items(settings.take(i as int)),
            header == seq![101u8, 110u8, 118u8, 32u8] + spec_decimal(entries@.len())
                + seq![10u8],
            settings == entries.deep_view().map_values(
                |kv: (Seq<u8>, Seq<u8>)| spec_env_setting(kv),
            ),
        decreases entries@.len() - i,
    {
        let entry = &entries[i];
        let mut setting: Vec<u8> = Vec::new();
        push_all(&mut setting, entry.key.as_slice());
        setting.push(61);
        push_all(&mut setting, entry.value.as_slice());
        proof {
            assert(setting@ =~= spec_env_setting(entries.deep_view()[i as int]));
        }
        push_length_item(&mut out, setting.as_slice());
        proof {
            assert(settings.take(i + 1).drop_last() =~= settings.take(i as int));
            assert(settings.take(i + 1).last() == settings[i as int]);
        }
        i = i + 1;
    }
    proof {
        assert(settings.take(entries@.len() as int) =~= settings);
        assert(out@ =~= spec_env_frame(entries.deep_view()));
    }
    out
}

/// Encodes the `entity` frame for the given request body.
pub fn encode_entity(body: &[u8]) -> (r: Vec<u8>)
    ensures
        r@ == spec_entity_frame(body@),
{
    let mut out: Vec<u8> = Vec::new();
    out.push(101);
    out.push(110);
    out.push(116);
    out.push(105);
    out.push(116);
    out.push(121);
    out.push(10);
    push_length_item(&mut out, body);
    proof {
        assert(out@ =~= spec_entity_frame(body@));
    }
    out
}

/// Encodes the `end` frame.
pub fn encode_end() -> (r: Vec<u8>)
    ensures
        r@ == spec_end_frame(),
{
    let mut out: Vec<u8> = Vec::new();
    out.push(101);
    out.push(110);
    out.push(100);
    out.push(10);
    proof {
        assert(out@ =~= spec_end_frame());
    }
    out
}

/// Encodes the entire wire message: the `arg`, `env`, `entity` and `end`
/// frames, concatenated in that fixed order.
pub fn encode_message(args: &Vec<Vec<u8>>, entries: &Vec<EnvEntry>, body: &[u8]) -> (r: Vec<u8>)
    ensures
        r@ == spec_message(args.deep_view(), entries.deep_view(), body@),
{
    let mut out = encode_arguments(args);
    let mut env_frame = encode_environment(entries);
    out.append(&mut env_frame);
    let mut entity_frame = encode_entity(body);
    out.append(&mut entity_frame);
    let mut end_frame = encode_end();
    out.append(&mut end_frame);
    out
}

} // verus!
