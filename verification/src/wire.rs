//! Byte buffers, Redis commands and Redis pipelines of the `bytes` and `redis` crates.
use bytes::Bytes;
use redis::{Cmd, Pipeline};
use vstd::prelude::*;

use crate::text::{decimal, signed_decimal, utf8};

verus! {

/// A buffer of the `bytes` crate.
#[verifier::external_type_specification]
#[verifier::external_body]
pub struct ExBytes(bytes::Bytes);

/// A command of the `redis` crate.
#[verifier::external_type_specification]
#[verifier::external_body]
pub struct ExCmd(redis::Cmd);

/// A pipeline of the `redis` crate.
#[verifier::external_type_specification]
#[verifier::external_body]
pub struct ExPipeline(redis::Pipeline);

/// The bytes that a buffer holds.
pub uninterp spec fn contents(buffer: Bytes) -> Seq<u8>;

/// The arguments of a command in the order in which they are sent, its name first; a cursor
/// stands among them in decimal notation.
pub uninterp spec fn command_args(cmd: Cmd) -> Seq<Seq<u8>>;

/// Whether a command has a cursor.
pub uninterp spec fn command_scans(cmd: Cmd) -> bool;

/// The arguments of each command of a pipeline, in the order in which the commands were added.
pub uninterp spec fn pipeline_commands(pipe: Pipeline) -> Seq<Seq<Seq<u8>>>;

/// Whether a pipeline is sent as one transaction.
pub uninterp spec fn pipeline_atomic(pipe: Pipeline) -> bool;

/// The bytes that each buffer of a payload holds.
pub open spec fn all_contents(buffers: Seq<Bytes>) -> Seq<Seq<u8>> {
    buffers.map_values(|b: Bytes| contents(b))
}

/// The bytes that each buffer of a payload holds, if there is a payload.
pub open spec fn payload_contents(payload: Option<Vec<Bytes>>) -> Option<Seq<Seq<u8>>> {
    match payload {
        Some(buffers) => Some(all_contents(buffers@)),
        None => None,
    }
}

/// Calls `Bytes::as_ref`, which gives the bytes that the buffer holds.
#[verifier::external_body]
pub(crate) fn bytes_as_ref(buffer: &Bytes) -> (r: &[u8])
    ensures
        r@ == contents(*buffer),
{
    buffer.as_ref()
}

/// Calls `Bytes::from`, which makes a buffer that holds the bytes of the vector.
#[verifier::external_body]
pub(crate) fn bytes_from_vec(v: Vec<u8>) -> (r: Bytes)
    ensures
        contents(r) == v@,
{
    Bytes::from(v)
}

/// Calls `redis::pipe`, which makes a pipeline without commands that is no transaction.
#[verifier::external_body]
pub(crate) fn pipe() -> (r: Pipeline)
    ensures
        pipeline_commands(r) == Seq::<Seq<Seq<u8>>>::empty(),
        !pipeline_atomic(r),
{
    redis::pipe()
}

/// Calls `Pipeline::atomic`, which makes the pipeline a transaction and keeps its commands.
#[verifier::external_body]
pub(crate) fn pipe_atomic(pipe: &mut Pipeline)
    ensures
        pipeline_atomic(*final(pipe)),
        pipeline_commands(*final(pipe)) == pipeline_commands(*old(pipe)),
{
    pipe.atomic();
}

/// Calls `Pipeline::set`, which adds the command `SET key value`.
#[verifier::external_body]
pub(crate) fn pipe_set(pipe: &mut Pipeline, key: &str, value: &[u8])
    ensures
        pipeline_commands(*final(pipe)) == pipeline_commands(*old(pipe)).push(
            seq![utf8("SET"@), utf8(key@), value@],
        ),
        pipeline_atomic(*final(pipe)) == pipeline_atomic(*old(pipe)),
{
    pipe.set(key, value);
}

/// Calls `Pipeline::sadd`, which adds the command `SADD key member`.
#[verifier::external_body]
pub(crate) fn pipe_sadd(pipe: &mut Pipeline, key: &str, member: &[u8])
    ensures
        pipeline_commands(*final(pipe)) == pipeline_commands(*old(pipe)).push(
            seq![utf8("SADD"@), utf8(key@), member@],
        ),
        pipeline_atomic(*final(pipe)) == pipeline_atomic(*old(pipe)),
{
    pipe.sadd(key, member);
}

/// Calls `Pipeline::hset`, which adds the command `HSET key field value`.
#[verifier::external_body]
pub(crate) fn pipe_hset(pipe: &mut Pipeline, key: &str, field: &[u8], value: &[u8])
    ensures
        pipeline_commands(*final(pipe)) == pipeline_commands(*old(pipe)).push(
            seq![utf8("HSET"@), utf8(key@), field@, value@],
        ),
        pipeline_atomic(*final(pipe)) == pipeline_atomic(*old(pipe)),
{
    pipe.hset(key, field, value);
}

/// Calls `Pipeline::rpush`, which adds the command `RPUSH key value`.
#[verifier::external_body]
pub(crate) fn pipe_rpush(pipe: &mut Pipeline, key: &str, value: &[u8])
    ensures
        pipeline_commands(*final(pipe)) == pipeline_commands(*old(pipe)).push(
            seq![utf8("RPUSH"@), utf8(key@), value@],
        ),
        pipeline_atomic(*final(pipe)) == pipeline_atomic(*old(pipe)),
{
    pipe.rpush(key, value);
}

/// Calls `Pipeline::rpush_exists`, which adds the command `RPUSHX key value`.
#[verifier::external_body]
pub(crate) fn pipe_rpush_exists(pipe: &mut Pipeline, key: &str, value: &[u8])
    ensures
        pipeline_commands(*final(pipe)) == pipeline_commands(*old(pipe)).push(
            seq![utf8("RPUSHX"@), utf8(key@), value@],
        ),
        pipeline_atomic(*final(pipe)) == pipeline_atomic(*old(pipe)),
{
    pipe.rpush_exists(key, value);
}

/// Calls `Pipeline::srem`, which adds the command `SREM key member`.
#[verifier::external_body]
pub(crate) fn pipe_srem(pipe: &mut Pipeline, key: &str, member: &[u8])
    ensures
        pipeline_commands(*final(pipe)) == pipeline_commands(*old(pipe)).push(
            seq![utf8("SREM"@), utf8(key@), member@],
        ),
        pipeline_atomic(*final(pipe)) == pipeline_atomic(*old(pipe)),
{
    pipe.srem(key, member);
}

/// Calls `Pipeline::del`, which adds the command `DEL key`.
#[verifier::external_body]
pub(crate) fn pipe_del(pipe: &mut Pipeline, key: &str)
    ensures
        pipeline_commands(*final(pipe)) == pipeline_commands(*old(pipe)).push(
            seq![utf8("DEL"@), utf8(key@)],
        ),
        pipeline_atomic(*final(pipe)) == pipeline_atomic(*old(pipe)),
{
    pipe.del(key);
}

/// Calls `redis::cmd`, which makes a command of the name alone, without a cursor.
#[verifier::external_body]
pub(crate) fn cmd(name: &str) -> (r: Cmd)
    ensures
        command_args(r) == seq![utf8(name@)],
        !command_scans(r),
{
    redis::cmd(name)
}

/// Calls `Cmd::arg` on bytes, which adds them as one argument.
#[verifier::external_body]
pub(crate) fn cmd_arg(cmd: &mut Cmd, arg: &[u8])
    ensures
        command_args(*final(cmd)) == command_args(*old(cmd)).push(arg@),
        command_scans(*final(cmd)) == command_scans(*old(cmd)),
{
    cmd.arg(arg);
}

/// Calls `Cmd::cursor_arg`, which adds a cursor. It panics on a command that has one.
#[verifier::external_body]
pub(crate) fn cmd_cursor_arg(cmd: &mut Cmd, cursor: u64)
    requires
        !command_scans(*old(cmd)),
    ensures
        command_args(*final(cmd)) == command_args(*old(cmd)).push(utf8(decimal(cursor as nat))),
        command_scans(*final(cmd)),
{
    cmd.cursor_arg(cursor);
}

/// Calls `Cmd::get`, which makes the command `GET key`.
#[verifier::external_body]
pub(crate) fn cmd_get(key: &str) -> (r: Cmd)
    ensures
        command_args(r) == seq![utf8("GET"@), utf8(key@)],
        !command_scans(r),
{
    Cmd::get(key)
}

/// Calls `Cmd::smembers`, which makes the command `SMEMBERS key`.
#[verifier::external_body]
pub(crate) fn cmd_smembers(key: &str) -> (r: Cmd)
    ensures
        command_args(r) == seq![utf8("SMEMBERS"@), utf8(key@)],
        !command_scans(r),
{
    Cmd::smembers(key)
}

/// Calls `Cmd::hgetall`, which makes the command `HGETALL key`.
#[verifier::external_body]
pub(crate) fn cmd_hgetall(key: &str) -> (r: Cmd)
    ensures
        command_args(r) == seq![utf8("HGETALL"@), utf8(key@)],
        !command_scans(r),
{
    Cmd::hgetall(key)
}

/// Calls `Cmd::lrange`, which makes the command `LRANGE key start stop`.
#[verifier::external_body]
pub(crate) fn cmd_lrange(key: &str, start: isize, stop: isize) -> (r: Cmd)
    ensures
        command_args(r) == seq![
            utf8("LRANGE"@),
            utf8(key@),
            utf8(signed_decimal(start as int)),
            utf8(signed_decimal(stop as int)),
        ],
        !command_scans(r),
{
    Cmd::lrange(key, start, stop)
}

} // verus!
