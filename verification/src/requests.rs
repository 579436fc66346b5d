//! The requests that locks and elections send to the Redis server.
//!
//! A request is a `redis::Cmd` or a `redis::ScriptInvocation`. This module says what such
//! a value holds, and builds every request that the crate sends; sending is the caller's.
use crate::text::{decimal, utf8};
use vstd::prelude::*;

verus! {

/// Deletes the key only while it stores the caller's token, so that a lease is never
/// released out from under another holder. Returns whether it deleted.
pub const RELEASE_SCRIPT: &'static str =
    r#"
    if redis.call("get", KEYS[1]) == ARGV[1] then
        return redis.call("del", KEYS[1])
    else
        return 0
    end
"#;

/// Restarts the key's time to live only while it stores the caller's token. Returns
/// whether it did.
pub const RENEW_SCRIPT: &'static str =
    r#"
    if redis.call("get", KEYS[1]) == ARGV[1] then
        redis.call("pexpire", KEYS[1], ARGV[2])
        return 1
    else
        return 0
    end
"#;

/// Stores the caller's node id, with a fresh time to live, if the key is free or already
/// stores that id. Returns whether it did.
pub const CAMPAIGN_SCRIPT: &'static str =
    r#"
            local current = redis.call("get", KEYS[1])
            if current == false or current == ARGV[1] then
                redis.call("set", KEYS[1], ARGV[1], "PX", ARGV[2])
                return 1
            else
                return 0
            end
        "#;

/// The three scripts are three different texts.
pub proof fn lemma_scripts_differ()
    ensures
        RELEASE_SCRIPT@ != RENEW_SCRIPT@,
        RELEASE_SCRIPT@ != CAMPAIGN_SCRIPT@,
        RENEW_SCRIPT@ != CAMPAIGN_SCRIPT@,
{
    reveal_strlit(
        r#"
    if redis.call("get", KEYS[1]) == ARGV[1] then
        return redis.call("del", KEYS[1])
    else
        return 0
    end
"#,
    );
    reveal_strlit(
        r#"
    if redis.call("get", KEYS[1]) == ARGV[1] then
        redis.call("pexpire", KEYS[1], ARGV[2])
        return 1
    else
        return 0
    end
"#,
    );
    reveal_strlit(
        r#"
            local current = redis.call("get", KEYS[1])
            if current == false or current == ARGV[1] then
                redis.call("set", KEYS[1], ARGV[1], "PX", ARGV[2])
                return 1
            else
                return 0
            end
        "#,
    );
    assert(RELEASE_SCRIPT@.len() < RENEW_SCRIPT@.len() < CAMPAIGN_SCRIPT@.len());
}

/// A Redis command: its name and its arguments.
#[verifier::external_type_specification]
#[verifier::external_body]
pub struct ExCmd(redis::Cmd);

/// A Lua script.
#[verifier::external_type_specification]
#[verifier::external_body]
pub struct ExScript(redis::Script);

/// A Lua script together with the keys and arguments to run it with.
#[verifier::external_type_specification]
#[verifier::external_body]
pub struct ExScriptInvocation<'a>(redis::ScriptInvocation<'a>);

/// A handle to the server that reconnects by itself; here it is only carried.
#[verifier::external_type_specification]
#[verifier::external_body]
pub struct ExConnectionManager(redis::aio::ConnectionManager);

/// What sending a request may fail with.
#[verifier::external_type_specification]
#[verifier::external_body]
pub struct ExRedisError(redis::RedisError);

/// The name and the arguments that a command holds, in order.
pub uninterp spec fn cmd_args(cmd: redis::Cmd) -> Seq<Seq<u8>>;

/// The source text that a script holds.
pub uninterp spec fn script_text(script: redis::Script) -> Seq<char>;

/// The source text of the script that an invocation runs.
pub uninterp spec fn invocation_text(invocation: redis::ScriptInvocation<'_>) -> Seq<char>;

/// The keys that an invocation holds: `KEYS` in the script.
pub uninterp spec fn invocation_keys(invocation: redis::ScriptInvocation<'_>) -> Seq<Seq<u8>>;

/// The arguments that an invocation holds: `ARGV` in the script.
pub uninterp spec fn invocation_args(invocation: redis::ScriptInvocation<'_>) -> Seq<Seq<u8>>;

/// `redis::cmd`: a command that holds its name and nothing else.
#[verifier::external_body]
fn command(name: &str) -> (cmd: redis::Cmd)
    ensures
        cmd_args(cmd) == seq![utf8(name@)],
{
    redis::cmd(name)
}

/// `redis::Cmd::arg` on a `&str`: appends the text's UTF-8 bytes as one argument.
#[verifier::external_body]
fn command_arg_text(cmd: &mut redis::Cmd, arg: &str)
    ensures
        cmd_args(*final(cmd)) == cmd_args(*old(cmd)).push(utf8(arg@)),
{
    cmd.arg(arg);
}

/// `redis::Cmd::arg` on a `usize`: appends its decimal digits as one argument.
#[verifier::external_body]
fn command_arg_number(cmd: &mut redis::Cmd, arg: usize)
    ensures
        cmd_args(*final(cmd)) == cmd_args(*old(cmd)).push(decimal(arg as nat)),
{
    cmd.arg(arg);
}

/// `redis::Cmd::get`: a `GET` of the key, given as its UTF-8 bytes.
#[verifier::external_body]
fn command_get(key: &str) -> (cmd: redis::Cmd)
    ensures
        cmd_args(cmd) == seq![utf8("GET"@), utf8(key@)],
{
    redis::Cmd::get(key)
}

/// `redis::Script::new`: a script that holds the given source text.
#[verifier::external_body]
fn script(text: &str) -> (script: redis::Script)
    ensures
        script_text(script) == text@,
{
    redis::Script::new(text)
}

/// `redis::Script::key` on a `&str`: an invocation of the script that holds the key's UTF-8
/// bytes as its only key, and no argument.
#[verifier::external_body]
fn script_key<'a>(script: &'a redis::Script, key: &str) -> (invocation: redis::ScriptInvocation<'a>)
    ensures
        invocation_text(invocation) == script_text(*script),
        invocation_keys(invocation) == seq![utf8(key@)],
        invocation_args(invocation) == Seq::<Seq<u8>>::empty(),
{
    script.key(key)
}

/// `redis::ScriptInvocation::arg` on a `&str`: appends the text's UTF-8 bytes as one
/// argument; script and keys stay.
#[verifier::external_body]
fn invocation_arg_text(invocation: &mut redis::ScriptInvocation<'_>, arg: &str)
    ensures
        invocation_text(*final(invocation)) == invocation_text(*old(invocation)),
        invocation_keys(*final(invocation)) == invocation_keys(*old(invocation)),
        invocation_args(*final(invocation)) == invocation_args(*old(invocation)).push(utf8(arg@)),
{
    invocation.arg(arg);
}

/// `redis::ScriptInvocation::arg` on a `usize`: appends its decimal digits as one argument;
/// script and keys stay.
#[verifier::external_body]
fn invocation_arg_number(invocation: &mut redis::ScriptInvocation<'_>, arg: usize)
    ensures
        invocation_text(*final(invocation)) == invocation_text(*old(invocation)),
        invocation_keys(*final(invocation)) == invocation_keys(*old(invocation)),
        invocation_args(*final(invocation)) == invocation_args(*old(invocation)).push(
            decimal(arg as nat),
        ),
{
    invocation.arg(arg);
}

/// `SET key token NX PX millis`: store the token unless the key is taken, to expire after
/// the given milliseconds.
pub open spec fn acquire_args(key: Seq<char>, token: Seq<char>, millis: nat) -> Seq<Seq<u8>> {
    seq![utf8("SET"@), utf8(key), utf8(token), utf8("NX"@), utf8("PX"@), decimal(millis)]
}

/// `GET key`.
pub open spec fn read_args(key: Seq<char>) -> Seq<Seq<u8>> {
    seq![utf8("GET"@), utf8(key)]
}

/// The arguments of the release script: the token to compare with.
pub open spec fn release_argv(token: Seq<char>) -> Seq<Seq<u8>> {
    seq![utf8(token)]
}

/// The arguments of the renewal script and of the campaign script: the token to compare
/// with and the time to live.
pub open spec fn timed_argv(token: Seq<char>, millis: nat) -> Seq<Seq<u8>> {
    seq![utf8(token), decimal(millis)]
}

/// The invocation runs this script on this one key with these arguments.
pub open spec fn invokes(
    invocation: redis::ScriptInvocation<'_>,
    text: Seq<char>,
    key: Seq<char>,
    argv: Seq<Seq<u8>>,
) -> bool {
    &&& invocation_text(invocation) == text
    &&& invocation_keys(invocation) == seq![utf8(key)]
    &&& invocation_args(invocation) == argv
}

/// The command that acquires a key for a token, to expire after the given milliseconds.
pub fn acquire_command(key: &str, token: &str, millis: usize) -> (cmd: redis::Cmd)
    ensures
        cmd_args(cmd) == acquire_args(key@, token@, millis as nat),
{
    let mut cmd = command("SET");
    command_arg_text(&mut cmd, key);
    command_arg_text(&mut cmd, token);
    command_arg_text(&mut cmd, "NX");
    command_arg_text(&mut cmd, "PX");
    command_arg_number(&mut cmd, millis);
    assert(cmd_args(cmd) =~= acquire_args(key@, token@, millis as nat));
    cmd
}

/// The command that reads which token a key stores.
pub fn read_command(key: &str) -> (cmd: redis::Cmd)
    ensures
        cmd_args(cmd) == read_args(key@),
{
    command_get(key)
}

/// The scripts that the crate runs on the server, loaded once and invoked many times.
pub struct Scripts {
    release: redis::Script,
    renew: redis::Script,
    campaign: redis::Script,
}

impl Scripts {
    /// The texts of the release, the renewal and the campaign script.
    pub closed spec fn texts(self) -> Seq<Seq<char>> {
        seq![script_text(self.release), script_text(self.renew), script_text(self.campaign)]
    }

    #[verifier::type_invariant]
    closed spec fn inv(self) -> bool {
        &&& script_text(self.release) == RELEASE_SCRIPT@
        &&& script_text(self.renew) == RENEW_SCRIPT@
        &&& script_text(self.campaign) == CAMPAIGN_SCRIPT@
    }

    /// The release, renewal and campaign scripts.
    pub fn new() -> (scripts: Scripts)
        ensures
            scripts.texts() == seq![RELEASE_SCRIPT@, RENEW_SCRIPT@, CAMPAIGN_SCRIPT@],
    {
        Scripts {
            release: script(RELEASE_SCRIPT),
            renew: script(RENEW_SCRIPT),
            campaign: script(CAMPAIGN_SCRIPT),
        }
    }

    /// Run the release script on a key for a token.
    pub fn release<'a>(&'a self, key: &str, token: &str) -> (invocation: redis::ScriptInvocation<
        'a,
    >)
        ensures
            invokes(invocation, RELEASE_SCRIPT@, key@, release_argv(token@)),
    {
        proof {
            use_type_invariant(self);
        }
        let mut invocation = script_key(&self.release, key);
        invocation_arg_text(&mut invocation, token);
        assert(invocation_args(invocation) =~= release_argv(token@));
        invocation
    }

    /// Run the renewal script on a key for a token, with a time to live in milliseconds.
    pub fn renew<'a>(&'a self, key: &str, token: &str, millis: usize) -> (invocation:
        redis::ScriptInvocation<'a>)
        ensures
            invokes(invocation, RENEW_SCRIPT@, key@, timed_argv(token@, millis as nat)),
    {
        proof {
            use_type_invariant(self);
        }
        let mut invocation = script_key(&self.renew, key);
        invocation_arg_text(&mut invocation, token);
        invocation_arg_number(&mut invocation, millis);
        assert(invocation_args(invocation) =~= timed_argv(token@, millis as nat));
        invocation
    }

    /// Run the campaign script on a key for a node id, with a time to live in milliseconds.
    pub fn campaign<'a>(&'a self, key: &str, node_id: &str, millis: usize) -> (invocation:
        redis::ScriptInvocation<'a>)
        ensures
            invokes(invocation, CAMPAIGN_SCRIPT@, key@, timed_argv(node_id@, millis as nat)),
    {
        proof {
            use_type_invariant(self);
        }
        let mut invocation = script_key(&self.campaign, key);
        invocation_arg_text(&mut invocation, node_id);
        invocation_arg_number(&mut invocation, millis);
        assert(invocation_args(invocation) =~= timed_argv(node_id@, millis as nat));
        invocation
    }
}

/// These are the scripts: the server compares the stored token with the first argument, and
/// deletes the key, restarts its time to live or stores the id only as that comparison allows.
pub proof fn law_scripts_are_these()
    ensures
        RELEASE_SCRIPT@ == r#"
    if redis.call("get", KEYS[1]) == ARGV[1] then
        return redis.call("del", KEYS[1])
    else
        return 0
    end
"#@,
        RENEW_SCRIPT@ == r#"
    if redis.call("get", KEYS[1]) == ARGV[1] then
        redis.call("pexpire", KEYS[1], ARGV[2])
        return 1
    else
        return 0
    end
"#@,
        CAMPAIGN_SCRIPT@ == r#"
            local current = redis.call("get", KEYS[1])
            if current == false or current == ARGV[1] then
                redis.call("set", KEYS[1], ARGV[1], "PX", ARGV[2])
                return 1
            else
                return 0
            end
        "#@,
{
}

/// The commands hold these words, and the key, the token and the time to live at their places.
pub proof fn law_commands_are_these(
    key: &str,
    token: &str,
    millis: usize,
    acquiring: redis::Cmd,
    reading: redis::Cmd,
)
    requires
        call_ensures(acquire_command, (key, token, millis), acquiring),
        call_ensures(read_command, (key,), reading),
    ensures
        cmd_args(acquiring).len() == 6,
        cmd_args(acquiring)[0] == utf8("SET"@),
        cmd_args(acquiring)[1] == utf8(key@),
        cmd_args(acquiring)[2] == utf8(token@),
        cmd_args(acquiring)[3] == utf8("NX"@),
        cmd_args(acquiring)[4] == utf8("PX"@),
        cmd_args(acquiring)[5] == decimal(millis as nat),
        cmd_args(reading).len() == 2,
        cmd_args(reading)[0] == utf8("GET"@),
        cmd_args(reading)[1] == utf8(key@),
{
}

/// The invocations run their own script on the one key, with the token first and the time to
/// live, where there is one, second.
pub proof fn law_invocations_are_these<'a>(
    scripts: &'a Scripts,
    key: &str,
    token: &str,
    millis: usize,
    releasing: redis::ScriptInvocation<'a>,
    renewing: redis::ScriptInvocation<'a>,
    campaigning: redis::ScriptInvocation<'a>,
)
    requires
        call_ensures(Scripts::release, (scripts, key, token), releasing),
        call_ensures(Scripts::renew, (scripts, key, token, millis), renewing),
        call_ensures(Scripts::campaign, (scripts, key, token, millis), campaigning),
    ensures
        invocation_text(releasing) == RELEASE_SCRIPT@,
        invocation_keys(releasing) == seq![utf8(key@)],
        invocation_args(releasing) == seq![utf8(token@)],
        invocation_text(renewing) == RENEW_SCRIPT@,
        invocation_keys(renewing) == seq![utf8(key@)],
        invocation_args(renewing) == seq![utf8(token@), decimal(millis as nat)],
        invocation_text(campaigning) == CAMPAIGN_SCRIPT@,
        invocation_keys(campaigning) == seq![utf8(key@)],
        invocation_args(campaigning) == seq![utf8(token@), decimal(millis as nat)],
{
}

} // verus!
