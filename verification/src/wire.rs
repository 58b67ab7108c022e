//! Commands and pipelines in the form that the `redis` client sends.
//!
//! The client's `Cmd` and `Pipeline` are opaque here. What they hold is known
//! only through the functions below that build them, whose contracts are
//! taken on trust from the client's source.

use vstd::prelude::*;
use vstd::utf8::encode_utf8;
use crate::command::{texts, Command, CommandView};

verus! {

/// The client's command, `redis::Cmd`, taken as opaque.
#[verifier::external_type_specification]
#[verifier::external_body]
pub struct ExCmd(redis::Cmd);

/// The client's pipeline, `redis::Pipeline`, taken as opaque.
#[verifier::external_type_specification]
#[verifier::external_body]
pub struct ExPipeline(redis::Pipeline);

/// The arguments that a client command holds, the command's name first, each
/// as the bytes that go on the wire.
pub uninterp spec fn cmd_args(cmd: redis::Cmd) -> Seq<Seq<u8>>;

/// The commands that a client pipeline holds, in the order in which they were
/// added, each as its arguments.
pub uninterp spec fn pipeline_commands(pipeline: redis::Pipeline) -> Seq<Seq<Seq<u8>>>;

/// Calls `redis::cmd`, which makes a command whose only argument so far is
/// its name, as UTF-8.
#[verifier::external_body]
fn start_cmd(name: &str) -> (cmd: redis::Cmd)
    ensures
        cmd_args(cmd) == seq![encode_utf8(name@)],
{
    redis::cmd(name)
}

/// Calls `redis::Cmd::arg` with a string, which appends the string's UTF-8
/// bytes as one more argument and leaves the earlier arguments alone.
#[verifier::external_body]
fn add_arg(cmd: &mut redis::Cmd, arg: &str)
    ensures
        cmd_args(*final(cmd)) == cmd_args(*old(cmd)).push(encode_utf8(arg@)),
{
    cmd.arg(arg);
}

/// Calls `redis::pipe`, which makes a pipeline with no command in it.
#[verifier::external_body]
fn start_pipeline() -> (pipeline: redis::Pipeline)
    ensures
        pipeline_commands(pipeline) == Seq::<Seq<Seq<u8>>>::empty(),
{
    redis::pipe()
}

/// Calls `redis::Pipeline::add_command`, which appends the command to the
/// pipeline and leaves the earlier commands alone.
#[verifier::external_body]
fn add_command(pipeline: &mut redis::Pipeline, cmd: redis::Cmd)
    ensures
        pipeline_commands(*final(pipeline)) == pipeline_commands(*old(pipeline)).push(cmd_args(cmd)),
{
    pipeline.add_command(cmd);
}

/// The UTF-8 bytes of each of a list of texts.
pub open spec fn encoded(args: Seq<Seq<char>>) -> Seq<Seq<u8>> {
    args.map_values(|text: Seq<char>| encode_utf8(text))
}

/// A command as the bytes of its wire arguments.
pub open spec fn wire_bytes(command: CommandView) -> Seq<Seq<u8>> {
    encoded(command.wire())
}

/// A pipeline as the bytes of the wire arguments of each of its commands.
pub open spec fn pipeline_bytes(commands: Seq<CommandView>) -> Seq<Seq<Seq<u8>>> {
    commands.map_values(|command: CommandView| wire_bytes(command))
}

/// Puts a command into the client's form.
pub fn to_redis_cmd(command: &Command) -> (cmd: redis::Cmd)
    ensures
        cmd_args(cmd) == wire_bytes(command@),
{
    let args = command.wire_args();
    let ghost wire = command@.wire();
    assert(texts(args@).len() == wire.len());
    let mut cmd = start_cmd(args[0].as_str());
    let mut i: usize = 1;
    while i < args.len()
        invariant
            1 <= i <= args.len(),
            texts(args@) == wire,
            cmd_args(cmd) == encoded(wire.take(i as int)),
        decreases args.len() - i,
    {
        add_arg(&mut cmd, args[i].as_str());
        i += 1;
    }
    cmd
}

/// Puts a pipeline into the client's form, command by command in the
/// pipeline's order.
pub fn to_redis_pipeline(pipeline: &crate::pipeline::CommandPipeline) -> (client: redis::Pipeline)
    ensures
        pipeline_commands(client) == pipeline_bytes(pipeline@),
{
    let mut client = start_pipeline();
    let n = pipeline.len();
    let mut i: usize = 0;
    loop
        invariant_except_break
            n == pipeline@.len(),
            i <= n,
            pipeline_commands(client) == pipeline_bytes(pipeline@.take(i as int)),
        ensures
            pipeline_commands(client) == pipeline_bytes(pipeline@),
        decreases pipeline@.len() - i,
    {
        match pipeline.command(i) {
            Some(command) => {
                let cmd = to_redis_cmd(command);
                add_command(&mut client, cmd);
                i += 1;
            },
            None => break,
        }
    }
    client
}

} // verus!
