//! The `usbipd` command lines that change a device's state.
use vstd::prelude::*;

use crate::operation::{Command, CommandView};
use crate::text::strs;

verus! {

pub open spec fn bind_args(bus_id: Seq<char>, force: bool) -> Seq<Seq<char>> {
    if force {
        seq!["bind"@, "--force"@, "--busid"@, bus_id]
    } else {
        seq!["bind"@, "--busid"@, bus_id]
    }
}

pub open spec fn unbind_args(guid: Seq<char>) -> Seq<Seq<char>> {
    seq!["unbind"@, "--guid"@, guid]
}

/// Versions before the current command set take `wsl attach`.
pub open spec fn attach_args(bus_id: Seq<char>, legacy: bool) -> Seq<Seq<char>> {
    if legacy {
        seq!["wsl"@, "attach"@, "--busid"@, bus_id]
    } else {
        seq!["attach"@, "--wsl"@, "--busid"@, bus_id]
    }
}

/// Versions before the current command set take `wsl detach`.
pub open spec fn detach_args(bus_id: Seq<char>, legacy: bool) -> Seq<Seq<char>> {
    if legacy {
        seq!["wsl"@, "detach"@, "--busid"@, bus_id]
    } else {
        seq!["detach"@, "--busid"@, bus_id]
    }
}

/// The long-running attach that re-attaches the device whenever it comes back.
pub open spec fn auto_attach_args(bus_id: Seq<char>, legacy: bool) -> Seq<Seq<char>> {
    attach_args(bus_id, legacy).push("--auto-attach"@)
}

/// Binding may be retried elevated.
pub open spec fn bind_command(bus_id: Seq<char>, force: bool) -> CommandView {
    CommandView { args: bind_args(bus_id, force), may_elevate: true }
}

/// Unbinding may be retried elevated.
pub open spec fn unbind_command(guid: Seq<char>) -> CommandView {
    CommandView { args: unbind_args(guid), may_elevate: true }
}

pub open spec fn attach_command(bus_id: Seq<char>, legacy: bool) -> CommandView {
    CommandView { args: attach_args(bus_id, legacy), may_elevate: false }
}

pub open spec fn detach_command(bus_id: Seq<char>, legacy: bool) -> CommandView {
    CommandView { args: detach_args(bus_id, legacy), may_elevate: false }
}

fn words2(a: &str, b: &str) -> (r: Vec<String>)
    ensures
        strs(r@) == seq![a@, b@],
{
    let mut v: Vec<String> = Vec::new();
    v.push(String::from_str(a));
    v.push(String::from_str(b));
    proof {
        assert(strs(v@) =~= seq![a@, b@]);
    }
    v
}

fn words3(a: &str, b: &str, c: &str) -> (r: Vec<String>)
    ensures
        strs(r@) == seq![a@, b@, c@],
{
    let mut v = words2(a, b);
    let ghost before = v@;
    v.push(String::from_str(c));
    proof {
        assert(strs(v@) =~= strs(before).push(c@));
        assert(seq![a@, b@].push(c@) =~= seq![a@, b@, c@]);
    }
    v
}

fn words4(a: &str, b: &str, c: &str, d: &str) -> (r: Vec<String>)
    ensures
        strs(r@) == seq![a@, b@, c@, d@],
{
    let mut v = words3(a, b, c);
    let ghost before = v@;
    v.push(String::from_str(d));
    proof {
        assert(strs(v@) =~= strs(before).push(d@));
        assert(seq![a@, b@, c@].push(d@) =~= seq![a@, b@, c@, d@]);
    }
    v
}

pub fn make_bind_command(bus_id: &str, force: bool) -> (r: Command)
    ensures
        r@ == bind_command(bus_id@, force),
{
    let args = if force {
        words4("bind", "--force", "--busid", bus_id)
    } else {
        words3("bind", "--busid", bus_id)
    };
    Command { args, may_elevate: true }
}

pub fn make_unbind_command(guid: &str) -> (r: Command)
    ensures
        r@ == unbind_command(guid@),
{
    Command { args: words3("unbind", "--guid", guid), may_elevate: true }
}

pub fn make_attach_command(bus_id: &str, legacy: bool) -> (r: Command)
    ensures
        r@ == attach_command(bus_id@, legacy),
{
    let args = if legacy {
        words4("wsl", "attach", "--busid", bus_id)
    } else {
        words4("attach", "--wsl", "--busid", bus_id)
    };
    Command { args, may_elevate: false }
}

pub fn make_detach_command(bus_id: &str, legacy: bool) -> (r: Command)
    ensures
        r@ == detach_command(bus_id@, legacy),
{
    let args = if legacy {
        words4("wsl", "detach", "--busid", bus_id)
    } else {
        words3("detach", "--busid", bus_id)
    };
    Command { args, may_elevate: false }
}

pub fn make_auto_attach_args(bus_id: &str, legacy: bool) -> (r: Vec<String>)
    ensures
        strs(r@) == auto_attach_args(bus_id@, legacy),
{
    let mut args = make_attach_command(bus_id, legacy).args;
    let ghost before = args@;
    args.push(String::from_str("--auto-attach"));
    proof {
        assert(strs(args@) =~= strs(before).push("--auto-attach"@));
    }
    args
}

} // verus!
